//! The decisions of the browser automation: which script to run for a
//! choice, and what a script's report means for the next step.
use vstd::prelude::*;
use crate::booking::{class_code, quota_code, quota_text, BookingResult, Quota, TrainClass};
use crate::passenger::{berth_code, gender_code, Passenger};
use crate::scripts::{
    class_choice_script, class_choice_script_text, first_train_script, first_train_script_text,
    indexed_input_script, indexed_input_script_text, indexed_select_script, indexed_select_script_text,
    numbered_train_script, numbered_train_script_text, quota_choice_script, quota_choice_script_text,
    station_input_script_for, station_input_script_for_text,
};
use crate::text::{decimal, decimal_string, has_prefix, occurs_in, is_white_space, is_white_space_char, str_equal, strip_prefix, to_upper, uppercased};

verus! {

/// The script that chooses a quota: by its uppercased name or code in the
/// quota list, or by its code in the legacy dropdown.
pub fn quota_script(quota: &Quota) -> (r: String)
    ensures
        r@ == quota_choice_script_text(uppercased(quota_text(*quota)), uppercased(quota_code(*quota)), quota_code(*quota)),
{
    let name = quota.to_string();
    let name_upper = to_upper(name.as_str());
    let code = quota.irctc_value();
    let code_upper = to_upper(code);
    quota_choice_script(name_upper.as_str(), code_upper.as_str(), code)
}

/// The script that chooses a class in the class dropdown by its code.
pub fn class_script(class: &TrainClass) -> (r: String)
    ensures
        r@ == class_choice_script_text(class_code(*class)),
{
    class_choice_script(class.irctc_value())
}

/// The script that types a station code into the "From" (when `is_from`)
/// or the "To" station box.
pub fn station_input_script(is_from: bool, code: &str) -> (r: String)
    ensures
        is_from ==> r@ == station_input_script_for_text("From station"@, crate::selectors::search::FROM_STATION_INPUT@, code@),
        !is_from ==> r@ == station_input_script_for_text("To station"@, crate::selectors::search::TO_STATION_INPUT@, code@),
{
    if is_from {
        station_input_script_for("From station", crate::selectors::search::FROM_STATION_INPUT, code)
    } else {
        station_input_script_for("To station", crate::selectors::search::TO_STATION_INPUT, code)
    }
}

/// The script that selects a train: the one with the given number, or the
/// first available one.
/// The first-train script skips trains that have departed or are
/// cancelled: the click on a row's availability link stands under the test
/// that the row's text mentions neither TRAIN DEPARTED nor CANCELLED.
pub proof fn lemma_first_train_skips_departed_and_cancelled()
    ensures
        occurs_in(
            first_train_script_text(),
            "if (!text.includes('TRAIN DEPARTED') && !text.includes('CANCELLED')) {\n                            const avail = row.querySelector("@,
        ),
{
    let l1 = "\n                (() => {\n                    const rows = document.querySelectorAll("@;
    let l2 = ");\n                    for (const row of rows) {\n                        const text = row.innerText || '';\n                        if (!text.includes('TRAIN DEPARTED') && !text.includes('CANCELLED')) {\n                            const avail = row.querySelector("@;
    let p = "if (!text.includes('TRAIN DEPARTED') && !text.includes('CANCELLED')) {\n                            const avail = row.querySelector("@;
    reveal_strlit("\n                (() => {\n                    const rows = document.querySelectorAll(");
    reveal_strlit(");\n                    for (const row of rows) {\n                        const text = row.innerText || '';\n                        if (!text.includes('TRAIN DEPARTED') && !text.includes('CANCELLED')) {\n                            const avail = row.querySelector(");
    reveal_strlit("if (!text.includes('TRAIN DEPARTED') && !text.includes('CANCELLED')) {\n                            const avail = row.querySelector(");
    assert(l2.subrange(131, 262) =~= p);
    let a = l1 + crate::scripts::json_string_literal(crate::selectors::search::TRAIN_ROW@);
    let t = first_train_script_text();
    let i: int = a.len() as int + 131;
    assert(t.subrange(i, i + p.len() as int) =~= p);
}

pub fn train_selection_script(number: Option<&str>) -> (r: String)
    ensures
        number matches Some(n) ==> r@ == numbered_train_script_text(n@),
        number is None ==> r@ == first_train_script_text(),
        number is None ==> occurs_in(
            r@,
            "if (!text.includes('TRAIN DEPARTED') && !text.includes('CANCELLED')) {\n                            const avail = row.querySelector("@,
        ),
{
    proof {
        lemma_first_train_skips_departed_and_cancelled();
    }
    match number {
        Some(n) => numbered_train_script(n),
        None => first_train_script(),
    }
}

/// What the train selection script reported: the selected train's summary,
/// or the error when the asked-for train was not found (NOT_FOUND) or there
/// was no train at all (NONE).
pub fn train_selection_outcome(number: Option<&str>, report: String) -> (r: Result<String, String>)
    ensures
        number matches Some(n) ==> (if report@ == "NOT_FOUND"@ {
            r is Err && r->Err_0@ == "Train "@ + n@ + " not found in results"@
        } else {
            r is Ok && r->Ok_0@ == report@
        }),
        number is None ==> (if report@ == "NONE"@ {
            r is Err && r->Err_0@ == "No trains available in search results"@
        } else {
            r is Ok && r->Ok_0@ == report@
        }),
{
    match number {
        Some(n) => {
            if str_equal(report.as_str(), "NOT_FOUND") {
                let mut m = String::from_str("Train ");
                m.append(n);
                m.append(" not found in results");
                Err(m)
            } else {
                Ok(report)
            }
        },
        None => {
            if str_equal(report.as_str(), "NONE") {
                Err(String::from_str("No trains available in search results"))
            } else {
                Ok(report)
            }
        },
    }
}

/// The four scripts that fill in the passenger at position `index` of the
/// form: name, age, gender and berth preference.
pub fn passenger_scripts(index: usize, passenger: &Passenger) -> (r: Vec<String>)
    ensures
        r@.len() == 4,
        r@[0]@ == indexed_input_script_text(crate::selectors::booking::PASSENGER_NAME@, index as nat, passenger.name@),
        r@[1]@ == indexed_input_script_text(crate::selectors::booking::PASSENGER_AGE@, index as nat, decimal(passenger.age as nat)),
        r@[2]@ == indexed_select_script_text(crate::selectors::booking::PASSENGER_GENDER@, index as nat, gender_code(passenger.gender)),
        r@[3]@ == indexed_select_script_text(crate::selectors::booking::BERTH_PREFERENCE@, index as nat, berth_code(passenger.berth_preference)),
{
    let mut v: Vec<String> = Vec::new();
    v.push(indexed_input_script(crate::selectors::booking::PASSENGER_NAME, index, passenger.name.as_str()));
    let age = decimal_string(passenger.age as u64);
    v.push(indexed_input_script(crate::selectors::booking::PASSENGER_AGE, index, age.as_str()));
    v.push(indexed_select_script(crate::selectors::booking::PASSENGER_GENDER, index, passenger.gender.irctc_value()));
    v.push(indexed_select_script(
        crate::selectors::booking::BERTH_PREFERENCE,
        index,
        passenger.berth_preference.irctc_value(),
    ));
    v
}

/// Whether a passenger at position `index` needs the "Add Passenger" button
/// first: every passenger but the first.
pub fn needs_add_passenger(index: usize) -> (r: bool)
    ensures
        r == (index > 0),
{
    index > 0
}

/// Whether the auto-upgrade box must be clicked: auto-upgrade is wanted and
/// the page did not report the box as ticked ("true").
pub fn needs_auto_upgrade_click(auto_upgrade: bool, checked: &str) -> (r: bool)
    ensures
        r == (auto_upgrade && checked@ != "true"@),
{
    auto_upgrade && !str_equal(checked, "true")
}

/// Whether a wait has run past its limit: more time has passed than the
/// limit allows (both in nanoseconds).
pub fn timed_out(elapsed_ns: u128, timeout_ns: u128) -> (r: bool)
    ensures
        r == (elapsed_ns > timeout_ns),
{
    elapsed_ns > timeout_ns
}

/// The state of the search results while waiting for them.
#[derive(Clone, Debug, PartialEq)]
pub enum ResultsPoll {
    /// This many trains were found.
    Found(u32),
    /// The site reported an error.
    Failed(String),
    /// Nothing yet, and the wait is over its limit.
    TimedOut,
    /// Nothing yet.
    Pending,
}

/// The state of the search results from the number of train rows, the
/// text of any error notice, and the time spent waiting so far: trains found
/// when there are rows; otherwise an error when a notice is shown; otherwise
/// timed out once the wait is past its limit, else still pending.
pub fn results_poll(count: u32, notice: &str, elapsed_ns: u128, timeout_ns: u128) -> (r: ResultsPoll)
    ensures
        count > 0 ==> r == ResultsPoll::Found(count),
        count == 0 && notice@.len() > 0 ==> (r matches ResultsPoll::Failed(m) && m@ == "Search error: "@ + notice@),
        count == 0 && notice@.len() == 0 ==> r == (if elapsed_ns > timeout_ns {
            ResultsPoll::TimedOut
        } else {
            ResultsPoll::Pending
        }),
{
    if count > 0 {
        return ResultsPoll::Found(count);
    }
    if notice.unicode_len() > 0 {
        let mut m = String::from_str("Search error: ");
        m.append(notice);
        ResultsPoll::Failed(m)
    } else if timed_out(elapsed_ns, timeout_ns) {
        ResultsPoll::TimedOut
    } else {
        ResultsPoll::Pending
    }
}

/// The state of the Aadhaar verification step.
#[derive(Clone, Debug, PartialEq)]
pub enum AadhaarPoll {
    /// The payment page is reached.
    Verified,
    /// The site reported an error.
    Failed(String),
    /// Nothing decisive, and the wait is over its limit.
    TimedOut,
    /// Still waiting for the user, or the page is changing.
    Waiting,
}

/// The Aadhaar step from the page's report: verified when the payment page
/// is reached (PAYMENT_READY); failed when an error is reported (ERROR:
/// followed by the message); otherwise timed out once the wait is past its
/// limit, else still waiting.
pub fn aadhaar_poll(report: &str, elapsed_ns: u128, timeout_ns: u128) -> (r: AadhaarPoll)
    ensures
        report@ == "PAYMENT_READY"@ ==> r == AadhaarPoll::Verified,
        report@ != "PAYMENT_READY"@ && has_prefix(report@, "ERROR:"@) ==> (r matches AadhaarPoll::Failed(m)
            && m@ == "Aadhaar verification failed: "@ + report@.skip(6)),
        report@ != "PAYMENT_READY"@ && !has_prefix(report@, "ERROR:"@) ==> r == (if elapsed_ns > timeout_ns {
            AadhaarPoll::TimedOut
        } else {
            AadhaarPoll::Waiting
        }),
{
    if str_equal(report, "PAYMENT_READY") {
        return AadhaarPoll::Verified;
    }
    proof {
        reveal_strlit("ERROR:");
    }
    match strip_prefix(report, "ERROR:") {
        Some(rest) => {
            let mut m = String::from_str("Aadhaar verification failed: ");
            m.append(rest);
            AadhaarPoll::Failed(m)
        },
        None => if timed_out(elapsed_ns, timeout_ns) {
            AadhaarPoll::TimedOut
        } else {
            AadhaarPoll::Waiting
        },
    }
}

/// The state of the booking after payment.
#[derive(Clone, Debug, PartialEq)]
pub enum ConfirmationPoll {
    /// The booking is confirmed.
    Confirmed(BookingResult),
    /// The payment failed, with this message.
    Failed(String),
    /// Nothing decisive, and the wait is over its limit.
    TimedOut,
    /// Still waiting.
    Pending,
}

/// Whether `b` is the result of a confirmed booking with PNR `pnr` and the
/// given message, the train unknown.
pub open spec fn confirmed_result(b: BookingResult, pnr: Seq<char>, message: Seq<char>) -> bool {
    &&& b.pnr@ == pnr
    &&& b.train_number@ == "Unknown"@
    &&& b.train_name@ == "Unknown"@
    &&& b.status_message@ == message
}

/// The booking state from the confirmation page's report: confirmed with
/// the PNR after "PNR:"; confirmed without a PNR (SUCCESS_NO_PNR, the PNR
/// then reads CHECK_EMAIL); failed after "FAILED:"; otherwise timed out
/// once the wait is past its limit, else pending.
pub fn confirmation_poll(report: &str, elapsed_ns: u128, timeout_ns: u128) -> (r: ConfirmationPoll)
    ensures
        has_prefix(report@, "PNR:"@) ==> (r matches ConfirmationPoll::Confirmed(b)
            && confirmed_result(b, report@.skip(4), "Booking confirmed successfully!"@)),
        !has_prefix(report@, "PNR:"@) && report@ == "SUCCESS_NO_PNR"@ ==> (r matches ConfirmationPoll::Confirmed(b)
            && confirmed_result(b, "CHECK_EMAIL"@, "Booking confirmed — check your email/SMS for PNR"@)),
        !has_prefix(report@, "PNR:"@) && report@ != "SUCCESS_NO_PNR"@ && has_prefix(report@, "FAILED:"@) ==> (
        r matches ConfirmationPoll::Failed(m) && m@ == "Payment failed: "@ + report@.skip(7)),
        !has_prefix(report@, "PNR:"@) && report@ != "SUCCESS_NO_PNR"@ && !has_prefix(report@, "FAILED:"@) ==> r
            == (if elapsed_ns > timeout_ns {
            ConfirmationPoll::TimedOut
        } else {
            ConfirmationPoll::Pending
        }),
{
    proof {
        reveal_strlit("PNR:");
        reveal_strlit("FAILED:");
    }
    if let Some(pnr) = strip_prefix(report, "PNR:") {
        return ConfirmationPoll::Confirmed(
            BookingResult {
                pnr: String::from_str(pnr),
                train_number: String::from_str("Unknown"),
                train_name: String::from_str("Unknown"),
                status_message: String::from_str("Booking confirmed successfully!"),
            },
        );
    }
    if str_equal(report, "SUCCESS_NO_PNR") {
        return ConfirmationPoll::Confirmed(
            BookingResult {
                pnr: String::from_str("CHECK_EMAIL"),
                train_number: String::from_str("Unknown"),
                train_name: String::from_str("Unknown"),
                status_message: String::from_str("Booking confirmed — check your email/SMS for PNR"),
            },
        );
    }
    match strip_prefix(report, "FAILED:") {
        Some(reason) => {
            let mut m = String::from_str("Payment failed: ");
            m.append(reason);
            ConfirmationPoll::Failed(m)
        },
        None => if timed_out(elapsed_ns, timeout_ns) {
            ConfirmationPoll::TimedOut
        } else {
            ConfirmationPoll::Pending
        },
    }
}

/// The state of the login while waiting for it to complete.
#[derive(Clone, Debug, PartialEq)]
pub enum LoginPoll {
    /// Logged in.
    LoggedIn,
    /// The site reported an error, with this message.
    Failed(String),
    /// The site asks for an OTP: tell the user (once).
    AskForOtp,
    /// The CAPTCHA is required and empty: warn, pause, and look again.
    CaptchaMissing,
    /// Nothing decisive, and the wait is over its limit.
    TimedOut,
    /// Nothing decisive yet.
    Waiting,
}

/// Whether a login report is decisive: logged in (it begins with
/// LOGGED_IN) or an error (it begins with "ERROR:").
pub open spec fn login_decided(report: Seq<char>) -> bool {
    has_prefix(report, "LOGGED_IN"@) || has_prefix(report, "ERROR:"@)
}

/// The login state from the page's report and the time spent waiting so
/// far: logged in when the report begins with LOGGED_IN; failed after
/// "ERROR:"; otherwise timed out once the wait is past its limit, whatever
/// else the page shows; else an OTP awaited (WAITING_OTP), told to the user
/// only the first time; the CAPTCHA missing (CAPTCHA_EMPTY); or waiting.
pub fn login_poll(report: &str, otp_announced: bool, elapsed_ns: u128, timeout_ns: u128) -> (r: LoginPoll)
    ensures
        has_prefix(report@, "LOGGED_IN"@) ==> r == LoginPoll::LoggedIn,
        !has_prefix(report@, "LOGGED_IN"@) && has_prefix(report@, "ERROR:"@) ==> (r matches LoginPoll::Failed(m)
            && m@ == "Login failed: "@ + report@.skip(6)),
        !login_decided(report@) && elapsed_ns > timeout_ns ==> r == LoginPoll::TimedOut,
        !login_decided(report@) && elapsed_ns <= timeout_ns && report@ == "WAITING_OTP"@ ==> r == (
        if otp_announced { LoginPoll::Waiting } else { LoginPoll::AskForOtp }),
        !login_decided(report@) && elapsed_ns <= timeout_ns && report@ != "WAITING_OTP"@ && report@
            == "CAPTCHA_EMPTY"@ ==> r == LoginPoll::CaptchaMissing,
        !login_decided(report@) && elapsed_ns <= timeout_ns && report@ != "WAITING_OTP"@ && report@
            != "CAPTCHA_EMPTY"@ ==> r == LoginPoll::Waiting,
{
    proof {
        reveal_strlit("ERROR:");
    }
    if crate::text::starts_with(report, "LOGGED_IN") {
        return LoginPoll::LoggedIn;
    }
    if let Some(message) = strip_prefix(report, "ERROR:") {
        let mut m = String::from_str("Login failed: ");
        m.append(message);
        return LoginPoll::Failed(m);
    }
    if timed_out(elapsed_ns, timeout_ns) {
        LoginPoll::TimedOut
    } else if str_equal(report, "WAITING_OTP") {
        if otp_announced { LoginPoll::Waiting } else { LoginPoll::AskForOtp }
    } else if str_equal(report, "CAPTCHA_EMPTY") {
        LoginPoll::CaptchaMissing
    } else {
        LoginPoll::Waiting
    }
}

/// Whether the wait for the CAPTCHA is over: it was entered (SOLVED), the
/// user is already logged in (LOGGED_IN), or the dialog closed
/// (MODAL_CLOSED).
pub fn captcha_settled(report: &str) -> (r: bool)
    ensures
        r == (report@ == "SOLVED"@ || report@ == "LOGGED_IN"@ || report@ == "MODAL_CLOSED"@),
{
    str_equal(report, "SOLVED") || str_equal(report, "LOGGED_IN") || str_equal(report, "MODAL_CLOSED")
}

/// How long the user is given to enter the CAPTCHA, in nanoseconds (two
/// minutes).
pub const CAPTCHA_TIMEOUT_NS: u128 = 120_000_000_000;

/// The state of the wait for the user to enter the CAPTCHA.
#[derive(Clone, Copy, Debug, PartialEq, Eq, Structural)]
pub enum CaptchaWait {
    /// The wait is over (see `captcha_settled`).
    Settled,
    /// Not settled, and the two minutes are past.
    TimedOut,
    /// Not settled yet.
    Waiting,
}

/// The CAPTCHA wait from the page's report and the time spent waiting so
/// far: settled when the report says so; otherwise timed out once two
/// minutes are past, else still waiting.
pub fn captcha_wait(report: &str, elapsed_ns: u128) -> (r: CaptchaWait)
    ensures
        (report@ == "SOLVED"@ || report@ == "LOGGED_IN"@ || report@ == "MODAL_CLOSED"@) ==> r == CaptchaWait::Settled,
        !(report@ == "SOLVED"@ || report@ == "LOGGED_IN"@ || report@ == "MODAL_CLOSED"@) ==> r == (if elapsed_ns
            > CAPTCHA_TIMEOUT_NS {
            CaptchaWait::TimedOut
        } else {
            CaptchaWait::Waiting
        }),
{
    if captcha_settled(report) {
        CaptchaWait::Settled
    } else if timed_out(elapsed_ns, CAPTCHA_TIMEOUT_NS) {
        CaptchaWait::TimedOut
    } else {
        CaptchaWait::Waiting
    }
}

/// What serde_json finds for member `key` of the JSON text `json`: `None`
/// when the text is not JSON, else the member's value when it is a boolean
/// (`None` inside when it is absent or not a boolean).
pub uninterp spec fn json_bool_member(json: Seq<char>, key: Seq<char>) -> Option<Option<bool>>;

/// Reads a boolean member of a JSON object with serde_json (`from_str` into
/// a `Value`, indexing by `key`, `as_bool`).  Trusted: the outcome is
/// serde_json's, named `json_bool_member`.
#[verifier::external_body]
pub(crate) fn json_member_bool(json: &str, key: &str) -> (r: Option<Option<bool>>)
    ensures
        r == json_bool_member(json@, key@),
{
    match serde_json::from_str::<serde_json::Value>(json) {
        Ok(v) => Some(v[key].as_bool()),
        Err(_) => None,
    }
}

/// Whether the login dialog shows a CAPTCHA, from the page's JSON report:
/// its image or its input is present; nothing when the report is not JSON.
pub open spec fn captcha_shown(report: Seq<char>) -> bool {
    match json_bool_member(report, "hasImg"@) {
        None => false,
        Some(img) => img == Some(true) || json_bool_member(report, "hasInput"@) == Some(Some(true)),
    }
}

/// Whether the login dialog shows a CAPTCHA, from the page's JSON report.
pub fn captcha_detected(report: &str) -> (r: bool)
    ensures
        r == captcha_shown(report@),
{
    match json_member_bool(report, "hasImg") {
        None => false,
        Some(img) => {
            if img == Some(true) {
                true
            } else {
                json_member_bool(report, "hasInput") == Some(Some(true))
            }
        },
    }
}

/// Whether clicking the login link by script failed, so that the link must
/// be clicked directly: the script did not report CLICKED.
pub fn login_link_missed(report: &str) -> (r: bool)
    ensures
        r == (report@ != "CLICKED"@),
{
    !str_equal(report, "CLICKED")
}

/// Whether the sign-in script found no button, so that the selector's
/// button must be clicked: its report begins with NOT_FOUND.
pub fn sign_in_missed(report: &str) -> (r: bool)
    ensures
        r == has_prefix(report@, "NOT_FOUND"@),
{
    crate::text::starts_with(report, "NOT_FOUND")
}

/// Whether a script that reports NOT_FOUND missed its element.
pub fn element_missed(report: &str) -> (r: bool)
    ensures
        r == (report@ == "NOT_FOUND"@),
{
    str_equal(report, "NOT_FOUND")
}

/// The outcome of setting a dropdown: an error naming the selector when the
/// script reported NOT_FOUND.
pub fn dropdown_outcome(report: &str, selector: &str) -> (r: Result<(), String>)
    ensures
        report@ == "NOT_FOUND"@ ==> r is Err && r->Err_0@ == "Dropdown not found: "@ + selector@,
        report@ != "NOT_FOUND"@ ==> r is Ok,
{
    if str_equal(report, "NOT_FOUND") {
        let mut m = String::from_str("Dropdown not found: ");
        m.append(selector);
        Err(m)
    } else {
        Ok(())
    }
}

/// The error shown on the page, from the error script's report: the text
/// when there is any.
pub fn page_error(report: String) -> (r: Option<String>)
    ensures
        report@.len() > 0 ==> r == Some(report),
        report@.len() == 0 ==> r is None,
{
    if report.as_str().unicode_len() > 0 {
        Some(report)
    } else {
        None
    }
}

/// A text without its leading Unicode white space.
pub open spec fn trim_start(s: Seq<char>) -> Seq<char>
    decreases s.len(),
{
    if s.len() > 0 && is_white_space(s[0]) {
        trim_start(s.skip(1))
    } else {
        s
    }
}

/// A text without its trailing Unicode white space.
pub open spec fn trim_end(s: Seq<char>) -> Seq<char>
    decreases s.len(),
{
    if s.len() > 0 && is_white_space(s.last()) {
        trim_end(s.drop_last())
    } else {
        s
    }
}

/// A text without leading and trailing Unicode white space.
pub open spec fn trimmed(s: Seq<char>) -> Seq<char> {
    trim_end(trim_start(s))
}

/// A text from which the first `a` characters, all white space, are
/// removed loses its leading white space as the text does.
proof fn lemma_trim_start_skip(s: Seq<char>, a: int)
    requires
        0 <= a < s.len(),
        is_white_space(s[a]),
    ensures
        trim_start(s.skip(a)) == trim_start(s.skip(a + 1)),
{
    assert(s.skip(a)[0] == s[a]);
    assert(s.skip(a).skip(1) =~= s.skip(a + 1));
}

/// A text whose last character is white space loses its trailing white
/// space as the text without that character does.
proof fn lemma_trim_end_drop(s: Seq<char>, a: int, b: int)
    requires
        0 <= a < b <= s.len(),
        is_white_space(s[b - 1]),
    ensures
        trim_end(s.subrange(a, b)) == trim_end(s.subrange(a, b - 1)),
{
    assert(s.subrange(a, b).last() == s[b - 1]);
    assert(s.subrange(a, b).drop_last() =~= s.subrange(a, b - 1));
}

/// The text without leading and trailing Unicode white space, as std's
/// `str::trim` returns it.
pub(crate) fn trim(s: &str) -> (r: &str)
    ensures
        r@ == trimmed(s@),
{
    let n = s.unicode_len();
    let mut a: usize = 0;
    assert(s@.skip(0) =~= s@);
    while a < n
        invariant
            n == s@.len(),
            a <= n,
            trim_start(s@) == trim_start(s@.skip(a as int)),
        ensures
            a <= n,
            trim_start(s@) == trim_start(s@.skip(a as int)),
            a == n || !is_white_space(s@[a as int]),
        decreases n - a,
    {
        if !is_white_space_char(s.get_char(a)) {
            break;
        }
        proof {
            lemma_trim_start_skip(s@, a as int);
        }
        a = a + 1;
    }
    proof {
        if a == n {
            assert(s@.skip(a as int) =~= Seq::<char>::empty());
        } else {
            assert(s@.skip(a as int)[0] == s@[a as int]);
        }
        assert(trim_start(s@) == s@.skip(a as int));
        assert(s@.skip(a as int) =~= s@.subrange(a as int, n as int));
    }
    let mut b: usize = n;
    while b > a
        invariant
            n == s@.len(),
            a <= b <= n,
            trim_end(s@.subrange(a as int, n as int)) == trim_end(s@.subrange(a as int, b as int)),
        ensures
            a <= b <= n,
            trim_end(s@.subrange(a as int, n as int)) == trim_end(s@.subrange(a as int, b as int)),
            b == a || !is_white_space(s@[b - 1]),
        decreases b - a,
    {
        if !is_white_space_char(s.get_char(b - 1)) {
            break;
        }
        proof {
            lemma_trim_end_drop(s@, a as int, b as int);
        }
        b = b - 1;
    }
    proof {
        if b > a {
            assert(s@.subrange(a as int, b as int).last() == s@[b - 1]);
        }
    }
    s.substring_char(a, b)
}

/// The browser binary to use, from the configured path (if any): the path
/// without surrounding white space, unless that leaves nothing.
pub fn custom_browser_path(configured: Option<String>) -> (r: Option<String>)
    ensures
        configured is None ==> r is None,
        configured matches Some(p) ==> (if trimmed(p@).len() > 0 {
            r is Some && r->0@ == trimmed(p@)
        } else {
            r is None
        }),
{
    match configured {
        None => None,
        Some(p) => {
            let t = trim(p.as_str());
            if t.unicode_len() > 0 {
                Some(String::from_str(t))
            } else {
                None
            }
        },
    }
}

/// The booking site's address: the first configured address, else the
/// site's train-search page.
pub fn site_url(primary: Option<String>, secondary: Option<String>) -> (r: String)
    ensures
        primary is Some ==> r == primary->0,
        primary is None && secondary is Some ==> r == secondary->0,
        primary is None && secondary is None ==> r@ == "https://www.irctc.co.in/eticket/train-search"@,
{
    match primary {
        Some(u) => u,
        None => match secondary {
            Some(u) => u,
            None => String::from_str("https://www.irctc.co.in/eticket/train-search"),
        },
    }
}

} // verus!
