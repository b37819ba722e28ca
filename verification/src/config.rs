//! The journey configuration saved between runs, and its conversion into a
//! full booking configuration.
use vstd::prelude::*;
use crate::booking::{class_code, class_text, quota_code, BookingConfig, PaymentMethod, Quota, TrainClass};
use crate::date::{chrono_date_outcome, dmy_text, four_digit_date, parse_date, ymd_text, JourneyDate};
use crate::passenger::{berth_code, gender_code, gender_text, BerthPreference, Gender, Passenger};
use crate::text::{ascii_lower, ascii_upper, is_ascii_text, lemma_ascii_upper_fixed, lowercased, str_equal, to_lower, to_upper, uppercased};

verus! {

/// User-facing configuration saved to disk (it holds no credentials).
#[derive(Clone, Debug, PartialEq)]
pub struct SavedConfig {
    pub from_station: String,
    pub to_station: String,
    pub journey_date: String,
    pub class: String,
    pub quota: String,
    pub train_number: Option<String>,
    pub passengers: Vec<SavedPassenger>,
    pub payment_method: String,
    pub upi_id: Option<String>,
    pub auto_upgrade: bool,
}

/// A passenger as saved to disk.
#[derive(Clone, Debug, PartialEq)]
pub struct SavedPassenger {
    pub name: String,
    pub age: u8,
    pub gender: String,
    pub berth_preference: String,
}

/// Which part of a saved configuration could not be understood.
#[derive(Clone, Copy, Debug, PartialEq, Eq, Structural)]
pub enum ConfigIssue {
    Class,
    Quota,
    PaymentMethod,
    JourneyDate,
    Gender,
}

/// Why a saved configuration could not be turned into a booking
/// configuration.  The unknown values are held as they read once
/// uppercased; a date error holds the date parser's message.
#[derive(Clone, Debug, PartialEq)]
pub enum ConfigError {
    UnknownClass(String),
    UnknownQuota(String),
    UnknownPaymentMethod(String),
    InvalidJourneyDate(String),
    UnknownGender(String),
}

impl ConfigError {
    /// The part at fault and the text held with it.
    pub open spec fn issue(&self) -> (ConfigIssue, Seq<char>) {
        match self {
            ConfigError::UnknownClass(s) => (ConfigIssue::Class, s@),
            ConfigError::UnknownQuota(s) => (ConfigIssue::Quota, s@),
            ConfigError::UnknownPaymentMethod(s) => (ConfigIssue::PaymentMethod, s@),
            ConfigError::InvalidJourneyDate(s) => (ConfigIssue::JourneyDate, s@),
            ConfigError::UnknownGender(s) => (ConfigIssue::Gender, s@),
        }
    }

    /// The message reported for the error.
    pub open spec fn message_text(&self) -> Seq<char> {
        match self {
            ConfigError::UnknownClass(s) => "Unknown class: "@ + s@,
            ConfigError::UnknownQuota(s) => "Unknown quota: "@ + s@,
            ConfigError::UnknownPaymentMethod(s) => "Unknown payment method: "@ + s@,
            ConfigError::InvalidJourneyDate(s) => s@,
            ConfigError::UnknownGender(s) => "Unknown gender: "@ + s@,
        }
    }

    /// The message reported for the error.
    pub fn message(&self) -> (r: String)
        ensures
            r@ == self.message_text(),
    {
        match self {
            ConfigError::UnknownClass(s) => {
                let mut m = String::from_str("Unknown class: ");
                m.append(s.as_str());
                m
            },
            ConfigError::UnknownQuota(s) => {
                let mut m = String::from_str("Unknown quota: ");
                m.append(s.as_str());
                m
            },
            ConfigError::UnknownPaymentMethod(s) => {
                let mut m = String::from_str("Unknown payment method: ");
                m.append(s.as_str());
                m
            },
            ConfigError::InvalidJourneyDate(s) => s.clone(),
            ConfigError::UnknownGender(s) => {
                let mut m = String::from_str("Unknown gender: ");
                m.append(s.as_str());
                m
            },
        }
    }
}

/// The class named by an (uppercased) saved class code.
pub open spec fn class_for_code(u: Seq<char>) -> Option<TrainClass> {
    if u == "1A"@ { Some(TrainClass::FirstAC) }
    else if u == "2A"@ { Some(TrainClass::SecondAC) }
    else if u == "3A"@ { Some(TrainClass::ThirdAC) }
    else if u == "3E"@ { Some(TrainClass::ThirdACEconomy) }
    else if u == "CC"@ { Some(TrainClass::ChairCar) }
    else if u == "EC"@ { Some(TrainClass::ExecChairCar) }
    else if u == "SL"@ { Some(TrainClass::Sleeper) }
    else if u == "2S"@ { Some(TrainClass::SecondSitting) }
    else { None }
}

/// The quota named by an (uppercased) saved quota.
pub open spec fn quota_for_code(u: Seq<char>) -> Option<Quota> {
    if u == "TQ"@ || u == "TATKAL"@ { Some(Quota::Tatkal) }
    else if u == "PT"@ || u == "PREMIUM_TATKAL"@ || u == "PREMIUM"@ { Some(Quota::PremiumTatkal) }
    else { None }
}

/// Whether an (uppercased) saved payment method names UPI.
pub open spec fn names_upi(u: Seq<char>) -> bool {
    u == "UPI"@
}

/// Whether an (uppercased) saved payment method names the site's e-wallet.
pub open spec fn names_wallet(u: Seq<char>) -> bool {
    u == "EWALLET"@ || u == "WALLET"@
}

/// The gender named by an (uppercased) saved gender.
pub open spec fn gender_for_code(u: Seq<char>) -> Option<Gender> {
    if u == "M"@ || u == "MALE"@ { Some(Gender::Male) }
    else if u == "F"@ || u == "FEMALE"@ { Some(Gender::Female) }
    else if u == "T"@ || u == "TRANSGENDER"@ { Some(Gender::Transgender) }
    else { None }
}

/// The berth preference named by an (uppercased) saved preference; anything
/// not recognised means no preference.
pub open spec fn berth_for_code(u: Seq<char>) -> BerthPreference {
    if u == "LB"@ || u == "LOWER"@ { BerthPreference::Lower }
    else if u == "MB"@ || u == "MIDDLE"@ { BerthPreference::Middle }
    else if u == "UB"@ || u == "UPPER"@ { BerthPreference::Upper }
    else if u == "SL"@ || u == "SIDE LOWER"@ { BerthPreference::SideLower }
    else if u == "SU"@ || u == "SIDE UPPER"@ { BerthPreference::SideUpper }
    else { BerthPreference::NoPreference }
}

/// The characters of an optional string, empty when absent.
pub open spec fn text_or_empty(s: Option<String>) -> Seq<char> {
    match s {
        Some(v) => v@,
        None => Seq::empty(),
    }
}

/// The characters of an optional string.
pub open spec fn opt_view(s: Option<String>) -> Option<Seq<char>> {
    match s {
        Some(v) => Some(v@),
        None => None,
    }
}

/// Whether a saved passenger's gender is recognised.
pub open spec fn gender_known(p: SavedPassenger) -> bool {
    gender_for_code(uppercased(p.gender@)) is Some
}

/// Whether `k` is the first saved passenger whose gender is not recognised.
pub open spec fn first_unknown_gender_at(ps: Seq<SavedPassenger>, k: int) -> bool {
    &&& 0 <= k < ps.len()
    &&& !gender_known(ps[k])
    &&& forall|j: int| 0 <= j < k ==> #[trigger] gender_known(ps[j])
}

/// The date read from a saved journey date: day-month-year first, then
/// year-month-day; the error is the second attempt's.
pub open spec fn journey_date_outcome(text: Seq<char>) -> Result<(int, int, int), Seq<char>> {
    match chrono_date_outcome(text, "%d-%m-%Y"@) {
        Ok(d) => Ok(d),
        Err(_) => chrono_date_outcome(text, "%Y-%m-%d"@),
    }
}

/// The first problem found in a saved configuration, in the order in which
/// it is checked: class, quota, payment method, journey date, and then the
/// passengers' genders in order.  `None` when there is none.
pub open spec fn saved_config_issue(c: SavedConfig) -> Option<(ConfigIssue, Seq<char>)> {
    let cu = uppercased(c.class@);
    let qu = uppercased(c.quota@);
    let pu = uppercased(c.payment_method@);
    if class_for_code(cu) is None {
        Some((ConfigIssue::Class, cu))
    } else if quota_for_code(qu) is None {
        Some((ConfigIssue::Quota, qu))
    } else if !names_upi(pu) && !names_wallet(pu) {
        Some((ConfigIssue::PaymentMethod, pu))
    } else if journey_date_outcome(c.journey_date@) is Err {
        Some((ConfigIssue::JourneyDate, journey_date_outcome(c.journey_date@)->Err_0))
    } else if exists|k: int| first_unknown_gender_at(c.passengers@, k) {
        let k = choose|k: int| first_unknown_gender_at(c.passengers@, k);
        Some((ConfigIssue::Gender, uppercased(c.passengers@[k].gender@)))
    } else {
        None
    }
}

/// Whether `p` is the passenger described by the saved passenger `s`.
pub open spec fn passenger_from_saved(s: SavedPassenger, p: Passenger) -> bool {
    &&& p.name@ == s.name@
    &&& p.age == s.age
    &&& gender_for_code(uppercased(s.gender@)) == Some(p.gender)
    &&& p.berth_preference == berth_for_code(uppercased(s.berth_preference@))
    &&& p.nationality is None
}

/// Whether `p` is the payment method described by an (uppercased) saved
/// method and UPI id.
pub open spec fn payment_from_saved(u: Seq<char>, upi_id: Option<String>, p: PaymentMethod) -> bool {
    if names_upi(u) {
        p matches PaymentMethod::Upi { vpa } && vpa@ == text_or_empty(upi_id)
    } else {
        names_wallet(u) && p is IrctcEwallet
    }
}

/// Whether `b` is the booking configuration that the saved configuration
/// `c` describes, with the given credentials.
pub open spec fn config_from_saved(c: SavedConfig, username: Seq<char>, password: Seq<char>, b: BookingConfig) -> bool {
    &&& b.username@ == username
    &&& b.password@ == password
    &&& b.from_station@ == c.from_station@
    &&& b.to_station@ == c.to_station@
    &&& journey_date_outcome(c.journey_date@) == Ok::<(int, int, int), Seq<char>>(b.journey_date.ymd())
    &&& b.journey_date.valid()
    &&& class_for_code(uppercased(c.class@)) == Some(b.class)
    &&& quota_for_code(uppercased(c.quota@)) == Some(b.quota)
    &&& opt_view(b.train_number) == opt_view(c.train_number)
    &&& b.passengers@.len() == c.passengers@.len()
    &&& forall|i: int| 0 <= i < c.passengers@.len() ==> passenger_from_saved(#[trigger] c.passengers@[i], b.passengers@[i])
    &&& payment_from_saved(uppercased(c.payment_method@), c.upi_id, b.payment)
    &&& b.auto_upgrade == c.auto_upgrade
}

/// Whether a saved passenger holds the form codes that the journey prompts
/// save: a gender code (M, F or T) and a berth preference code (LB, MB, UB,
/// SL, SU or "No Preference").
pub open spec fn passenger_form(p: SavedPassenger) -> bool {
    &&& (p.gender@ == "M"@ || p.gender@ == "F"@ || p.gender@ == "T"@)
    &&& (p.berth_preference@ == "LB"@ || p.berth_preference@ == "MB"@ || p.berth_preference@ == "UB"@
        || p.berth_preference@ == "SL"@ || p.berth_preference@ == "SU"@ || p.berth_preference@ == "No Preference"@)
}

/// Whether a saved configuration is in the form the journey prompts save: a
/// class code, the quota code TQ or PT, the payment method UPI or EWALLET, a
/// journey date that reads, and passengers holding form codes.
pub open spec fn client_form(c: SavedConfig) -> bool {
    &&& class_for_code(c.class@) is Some
    &&& (c.quota@ == "TQ"@ || c.quota@ == "PT"@)
    &&& (c.payment_method@ == "UPI"@ || c.payment_method@ == "EWALLET"@)
    &&& journey_date_outcome(c.journey_date@) is Ok
    &&& forall|i: int| 0 <= i < c.passengers@.len() ==> passenger_form(#[trigger] c.passengers@[i])
}

/// Whether the codes of a saved configuration read, as they are written,
/// as the choices in `b`: class, quota, each passenger's gender and berth
/// preference, and the payment method.
pub open spec fn codes_read_back(c: SavedConfig, b: BookingConfig) -> bool {
    &&& class_for_code(c.class@) == Some(b.class)
    &&& quota_for_code(c.quota@) == Some(b.quota)
    &&& b.passengers@.len() == c.passengers@.len()
    &&& forall|i: int| 0 <= i < c.passengers@.len() ==> gender_for_code(#[trigger] c.passengers@[i].gender@) == Some(
        b.passengers@[i].gender) && b.passengers@[i].berth_preference == berth_for_code(c.passengers@[i].berth_preference@)
    &&& payment_from_saved(c.payment_method@, c.upi_id, b.payment)
}

/// The class, quota, payment and gender codes are ASCII without lowercase
/// letters: each is its own uppercase.
pub proof fn lemma_upper_codes_fixed(s: Seq<char>)
    requires
        class_for_code(s) is Some || s == "TQ"@ || s == "PT"@ || s == "UPI"@ || s == "EWALLET"@ || s == "M"@
            || s == "F"@ || s == "T"@,
    ensures
        is_ascii_text(s),
        ascii_upper(s) == s,
{
    reveal_strlit("1A");
    reveal_strlit("2A");
    reveal_strlit("3A");
    reveal_strlit("3E");
    reveal_strlit("CC");
    reveal_strlit("EC");
    reveal_strlit("SL");
    reveal_strlit("2S");
    reveal_strlit("TQ");
    reveal_strlit("PT");
    reveal_strlit("UPI");
    reveal_strlit("EWALLET");
    reveal_strlit("M");
    reveal_strlit("F");
    reveal_strlit("T");
    lemma_ascii_upper_fixed(s);
}

/// A berth preference code reads, once uppercased as ASCII, as it reads as
/// written.
pub proof fn lemma_berth_code_upper(s: Seq<char>)
    requires
        s == "LB"@ || s == "MB"@ || s == "UB"@ || s == "SL"@ || s == "SU"@ || s == "No Preference"@,
    ensures
        is_ascii_text(s),
        berth_for_code(ascii_upper(s)) == berth_for_code(s),
{
    reveal_strlit("LB");
    reveal_strlit("MB");
    reveal_strlit("UB");
    reveal_strlit("SL");
    reveal_strlit("SU");
    reveal_strlit("No Preference");
    reveal_strlit("LOWER");
    reveal_strlit("MIDDLE");
    reveal_strlit("UPPER");
    reveal_strlit("SIDE LOWER");
    reveal_strlit("SIDE UPPER");
    if s == "No Preference"@ {
        assert(is_ascii_text(s));
        assert(ascii_upper(s).len() == 13);
    } else {
        lemma_ascii_upper_fixed(s);
    }
}

/// The class named by an (uppercased) saved class code.
pub fn class_from_code(u: &str) -> (r: Option<TrainClass>)
    ensures
        r == class_for_code(u@),
{
    if str_equal(u, "1A") { Some(TrainClass::FirstAC) }
    else if str_equal(u, "2A") { Some(TrainClass::SecondAC) }
    else if str_equal(u, "3A") { Some(TrainClass::ThirdAC) }
    else if str_equal(u, "3E") { Some(TrainClass::ThirdACEconomy) }
    else if str_equal(u, "CC") { Some(TrainClass::ChairCar) }
    else if str_equal(u, "EC") { Some(TrainClass::ExecChairCar) }
    else if str_equal(u, "SL") { Some(TrainClass::Sleeper) }
    else if str_equal(u, "2S") { Some(TrainClass::SecondSitting) }
    else { None }
}

/// The quota named by an (uppercased) saved quota.
pub fn quota_from_code(u: &str) -> (r: Option<Quota>)
    ensures
        r == quota_for_code(u@),
{
    if str_equal(u, "TQ") || str_equal(u, "TATKAL") {
        Some(Quota::Tatkal)
    } else if str_equal(u, "PT") || str_equal(u, "PREMIUM_TATKAL") || str_equal(u, "PREMIUM") {
        Some(Quota::PremiumTatkal)
    } else {
        None
    }
}

/// The gender named by an (uppercased) saved gender.
pub fn gender_from_code(u: &str) -> (r: Option<Gender>)
    ensures
        r == gender_for_code(u@),
{
    if str_equal(u, "M") || str_equal(u, "MALE") {
        Some(Gender::Male)
    } else if str_equal(u, "F") || str_equal(u, "FEMALE") {
        Some(Gender::Female)
    } else if str_equal(u, "T") || str_equal(u, "TRANSGENDER") {
        Some(Gender::Transgender)
    } else {
        None
    }
}

/// The berth preference named by an (uppercased) saved preference.
pub fn berth_from_code(u: &str) -> (r: BerthPreference)
    ensures
        r == berth_for_code(u@),
{
    if str_equal(u, "LB") || str_equal(u, "LOWER") {
        BerthPreference::Lower
    } else if str_equal(u, "MB") || str_equal(u, "MIDDLE") {
        BerthPreference::Middle
    } else if str_equal(u, "UB") || str_equal(u, "UPPER") {
        BerthPreference::Upper
    } else if str_equal(u, "SL") || str_equal(u, "SIDE LOWER") {
        BerthPreference::SideLower
    } else if str_equal(u, "SU") || str_equal(u, "SIDE UPPER") {
        BerthPreference::SideUpper
    } else {
        BerthPreference::NoPreference
    }
}

fn clone_opt(s: &Option<String>) -> (r: Option<String>)
    ensures
        opt_view(r) == opt_view(*s),
{
    match s {
        Some(v) => Some(v.clone()),
        None => None,
    }
}

/// Whether each code of a saved passenger that is ASCII text uppercases as
/// ASCII ('a' to 'z' to 'A' to 'Z', all else unchanged).
pub open spec fn ascii_codes_upper(p: SavedPassenger) -> bool {
    &&& is_ascii_text(p.gender@) ==> uppercased(p.gender@) == ascii_upper(p.gender@)
    &&& is_ascii_text(p.berth_preference@) ==> uppercased(p.berth_preference@) == ascii_upper(p.berth_preference@)
}

/// Reads the saved passengers in order; when some gender is not
/// recognised, the error is the first such gender, uppercased.  Every
/// passenger's codes are uppercased, whatever the outcome.
fn passengers_from_saved(saved: &Vec<SavedPassenger>) -> (r: Result<Vec<Passenger>, String>)
    ensures
        r is Ok <==> !(exists|k: int| first_unknown_gender_at(saved@, k)),
        r matches Ok(ps) ==> ps@.len() == saved@.len() && forall|i: int|
            0 <= i < saved@.len() ==> passenger_from_saved(#[trigger] saved@[i], ps@[i]),
        r matches Err(g) ==> exists|k: int| first_unknown_gender_at(saved@, k) && g@ == uppercased(saved@[k].gender@),
        (forall|i: int| 0 <= i < saved@.len() ==> passenger_form(#[trigger] saved@[i])) ==> r is Ok,
        forall|i: int| 0 <= i < saved@.len() ==> ascii_codes_upper(#[trigger] saved@[i]),
        r matches Ok(ps) ==> forall|i: int| 0 <= i < saved@.len() && passenger_form(#[trigger] saved@[i]) ==> (
        gender_for_code(saved@[i].gender@) == Some(ps@[i].gender) && ps@[i].berth_preference == berth_for_code(
            saved@[i].berth_preference@)),
{
    let mut out: Vec<Passenger> = Vec::new();
    let mut first_unknown: Option<String> = None;
    let n = saved.len();
    let mut i: usize = 0;
    while i < n
        invariant
            n == saved@.len(),
            i <= n,
            first_unknown is None ==> out@.len() == i,
            first_unknown is None ==> forall|j: int| 0 <= j < i ==> passenger_from_saved(#[trigger] saved@[j], out@[j]),
            first_unknown is None ==> forall|j: int| 0 <= j < i ==> #[trigger] gender_known(saved@[j]),
            first_unknown is None ==> forall|j: int| 0 <= j < i && passenger_form(#[trigger] saved@[j]) ==> (
            gender_for_code(saved@[j].gender@) == Some(out@[j].gender) && out@[j].berth_preference == berth_for_code(
                saved@[j].berth_preference@)),
            first_unknown matches Some(g) ==> exists|k: int|
                first_unknown_gender_at(saved@, k) && g@ == uppercased(saved@[k].gender@),
            forall|j: int| 0 <= j < i && passenger_form(#[trigger] saved@[j]) ==> gender_known(saved@[j]),
            forall|j: int| 0 <= j < i ==> ascii_codes_upper(#[trigger] saved@[j]),
        decreases n - i,
    {
        let p = &saved[i];
        let gu = to_upper(p.gender.as_str());
        let bu = to_upper(p.berth_preference.as_str());
        proof {
            if passenger_form(saved@[i as int]) {
                lemma_upper_codes_fixed(p.gender@);
                lemma_berth_code_upper(p.berth_preference@);
            }
        }
        match gender_from_code(gu.as_str()) {
            Some(gender) => {
                if first_unknown.is_none() {
                    let berth = berth_from_code(bu.as_str());
                    out.push(
                        Passenger { name: p.name.clone(), age: p.age, gender, berth_preference: berth, nationality: None },
                    );
                }
            },
            None => {
                if first_unknown.is_none() {
                    proof {
                        assert(first_unknown_gender_at(saved@, i as int));
                    }
                    first_unknown = Some(gu);
                }
            },
        }
        i = i + 1;
    }
    match first_unknown {
        Some(g) => {
            proof {
                let k = choose|k: int| first_unknown_gender_at(saved@, k) && g@ == uppercased(saved@[k].gender@);
                assert(exists|k: int| first_unknown_gender_at(saved@, k));
            }
            Err(g)
        },
        None => {
            assert forall|k: int| !first_unknown_gender_at(saved@, k) by {
                if 0 <= k < saved@.len() {
                    assert(gender_known(saved@[k]));
                }
            }
            Ok(out)
        },
    }
}

/// Whether a text writes a date with a four-digit year, day first or year
/// first.
pub open spec fn writes_date(text: Seq<char>, w: JourneyDate) -> bool {
    four_digit_date(w) && (text == dmy_text(w) || text == ymd_text(w))
}

/// Reads the saved journey date: day-month-year first, then year-month-day.
fn journey_date_from_saved(text: &str) -> (r: Result<JourneyDate, String>)
    ensures
        r matches Ok(d) ==> journey_date_outcome(text@) == Ok::<(int, int, int), Seq<char>>(d.ymd()) && d.valid(),
        r matches Err(e) ==> journey_date_outcome(text@) == Err::<(int, int, int), Seq<char>>(e@),
        forall|w: JourneyDate| #[trigger] writes_date(text@, w) ==> r == Ok::<JourneyDate, String>(w),
{
    match parse_date(text, "%d-%m-%Y") {
        Ok(d) => Ok(d),
        Err(_) => parse_date(text, "%Y-%m-%d"),
    }
}

/// Reads a journey date entered as day-month-year (as chrono's
/// `%d-%m-%Y`); the error is the date parser's message.
pub fn day_month_year_date(text: &str) -> (r: Result<JourneyDate, String>)
    ensures
        r matches Ok(d) ==> chrono_date_outcome(text@, "%d-%m-%Y"@) == Ok::<(int, int, int), Seq<char>>(d.ymd()) && d.valid(),
        r matches Err(e) ==> chrono_date_outcome(text@, "%d-%m-%Y"@) == Err::<(int, int, int), Seq<char>>(e@),
        forall|w: JourneyDate| four_digit_date(w) && text@ == #[trigger] dmy_text(w) ==> r == Ok::<JourneyDate, String>(w),
{
    parse_date(text, "%d-%m-%Y")
}

impl SavedConfig {
    /// Converts the saved configuration into a full booking configuration
    /// with the given credentials.  Class, quota, payment method and genders
    /// are matched after uppercasing; an unrecognised berth preference means
    /// no preference.  The journey date is read as day-month-year or else as
    /// year-month-day.  The first problem, in the order of
    /// `saved_config_issue`, is returned as the error.
    pub fn to_booking_config(&self, username: &str, password: &str) -> (r: Result<BookingConfig, ConfigError>)
        ensures
            r is Ok <==> saved_config_issue(*self) is None,
            r matches Ok(b) ==> config_from_saved(*self, username@, password@, b),
            r matches Err(e) ==> saved_config_issue(*self) == Some(e.issue()),
            client_form(*self) ==> (r matches Ok(b) && codes_read_back(*self, b)),
            is_ascii_text(self.class@) ==> uppercased(self.class@) == ascii_upper(self.class@),
            is_ascii_text(self.quota@) ==> uppercased(self.quota@) == ascii_upper(self.quota@),
            is_ascii_text(self.payment_method@) ==> uppercased(self.payment_method@) == ascii_upper(
                self.payment_method@,
            ),
            forall|i: int| 0 <= i < self.passengers@.len() ==> ascii_codes_upper(#[trigger] self.passengers@[i]),
            forall|w: JourneyDate| #[trigger] writes_date(self.journey_date@, w) ==> journey_date_outcome(
                self.journey_date@,
            ) == Ok::<(int, int, int), Seq<char>>(w.ymd()),
    {
        proof {
            if client_form(*self) {
                lemma_upper_codes_fixed(self.class@);
                lemma_upper_codes_fixed(self.quota@);
                lemma_upper_codes_fixed(self.payment_method@);
            }
        }
        let read_date = journey_date_from_saved(self.journey_date.as_str());
        let passengers = passengers_from_saved(&self.passengers);
        let cu = to_upper(self.class.as_str());
        let qu = to_upper(self.quota.as_str());
        let pu = to_upper(self.payment_method.as_str());
        let class = match class_from_code(cu.as_str()) {
            Some(c) => c,
            None => return Err(ConfigError::UnknownClass(cu)),
        };
        let quota = match quota_from_code(qu.as_str()) {
            Some(q) => q,
            None => return Err(ConfigError::UnknownQuota(qu)),
        };
        let payment = if str_equal(pu.as_str(), "UPI") {
            let vpa = match &self.upi_id {
                Some(v) => v.clone(),
                None => String::new(),
            };
            PaymentMethod::Upi { vpa }
        } else if str_equal(pu.as_str(), "EWALLET") || str_equal(pu.as_str(), "WALLET") {
            PaymentMethod::IrctcEwallet
        } else {
            return Err(ConfigError::UnknownPaymentMethod(pu));
        };
        let journey_date = match read_date {
            Ok(d) => d,
            Err(e) => return Err(ConfigError::InvalidJourneyDate(e)),
        };
        let passengers = match passengers {
            Ok(ps) => ps,
            Err(g) => {
                proof {
                    let k = choose|k: int| first_unknown_gender_at(self.passengers@, k);
                    let k2 = choose|k: int| first_unknown_gender_at(self.passengers@, k) && g@ == uppercased(self.passengers@[k].gender@);
                    if k < k2 {
                        assert(gender_known(self.passengers@[k]));
                    } else if k2 < k {
                        assert(gender_known(self.passengers@[k2]));
                    }
                }
                return Err(ConfigError::UnknownGender(g));
            },
        };
        let username = String::from_str(username);
        let password = String::from_str(password);
        let b = BookingConfig {
            username,
            password,
            from_station: self.from_station.clone(),
            to_station: self.to_station.clone(),
            journey_date,
            class,
            quota,
            train_number: clone_opt(&self.train_number),
            passengers,
            payment,
            auto_upgrade: self.auto_upgrade,
        };
        Ok(b)
    }
}

} // verus!
verus! {

/// A class's dropdown code reads back as that class.
pub proof fn lemma_class_code_reads_back(c: TrainClass)
    ensures
        class_for_code(class_code(c)) == Some(c),
{
    reveal_strlit("1A");
    reveal_strlit("2A");
    reveal_strlit("3A");
    reveal_strlit("3E");
    reveal_strlit("CC");
    reveal_strlit("EC");
    reveal_strlit("SL");
    reveal_strlit("2S");
    assert("2A"@[0] != "1A"@[0]);
    assert("3A"@[0] != "1A"@[0] && "3A"@[0] != "2A"@[0]);
    assert("3E"@[0] != "1A"@[0] && "3E"@[0] != "2A"@[0] && "3E"@[1] != "3A"@[1]);
    assert("CC"@[0] != "1A"@[0] && "CC"@[0] != "2A"@[0] && "CC"@[0] != "3A"@[0] && "CC"@[0] != "3E"@[0]);
    assert("EC"@[0] != "1A"@[0] && "EC"@[0] != "2A"@[0] && "EC"@[0] != "3A"@[0] && "EC"@[0] != "3E"@[0]
        && "EC"@[0] != "CC"@[0]);
    assert("SL"@[0] != "1A"@[0] && "SL"@[0] != "2A"@[0] && "SL"@[0] != "3A"@[0] && "SL"@[0] != "3E"@[0]
        && "SL"@[0] != "CC"@[0] && "SL"@[0] != "EC"@[0]);
    assert("2S"@[1] != "1A"@[1] && "2S"@[1] != "2A"@[1] && "2S"@[0] != "3A"@[0] && "2S"@[0] != "3E"@[0]
        && "2S"@[0] != "CC"@[0] && "2S"@[0] != "EC"@[0] && "2S"@[0] != "SL"@[0]);
}

/// A quota's code reads back as that quota.
pub proof fn lemma_quota_code_reads_back(q: Quota)
    ensures
        quota_for_code(quota_code(q)) == Some(q),
{
    reveal_strlit("TQ");
    reveal_strlit("PT");
    reveal_strlit("TATKAL");
    assert("PT"@[0] != "TQ"@[0]);
}

/// A gender's form code reads back as that gender.
pub proof fn lemma_gender_code_reads_back(g: Gender)
    ensures
        gender_for_code(gender_code(g)) == Some(g),
{
    reveal_strlit("M");
    reveal_strlit("F");
    reveal_strlit("T");
    reveal_strlit("MALE");
    reveal_strlit("FEMALE");
    assert("F"@[0] != "M"@[0]);
    assert("T"@[0] != "M"@[0] && "T"@[0] != "F"@[0]);
}

/// A berth preference's form code reads back as that preference.
pub proof fn lemma_berth_code_reads_back(b: BerthPreference)
    ensures
        berth_for_code(berth_code(b)) == b,
{
    reveal_strlit("LB");
    reveal_strlit("MB");
    reveal_strlit("UB");
    reveal_strlit("SL");
    reveal_strlit("SU");
    reveal_strlit("LOWER");
    reveal_strlit("MIDDLE");
    reveal_strlit("UPPER");
    reveal_strlit("SIDE LOWER");
    reveal_strlit("SIDE UPPER");
    reveal_strlit("No Preference");
    assert("MB"@[0] != "LB"@[0]);
    assert("UB"@[0] != "LB"@[0] && "UB"@[0] != "MB"@[0]);
    assert("SL"@[0] != "LB"@[0] && "SL"@[0] != "MB"@[0] && "SL"@[0] != "UB"@[0]);
    assert("SU"@[0] != "LB"@[0] && "SU"@[0] != "MB"@[0] && "SU"@[0] != "UB"@[0] && "SU"@[1] != "SL"@[1]);
    assert("No Preference"@[0] != "LB"@[0] && "No Preference"@[0] != "MB"@[0]);
}

} // verus!

verus! {

/// The most passengers one booking can hold.
pub const MAX_PASSENGERS: usize = 6;

/// The class chosen at a position of the class menu (First AC, Second AC,
/// Third AC, Third AC Economy, Chair Car, Executive Chair Car, Sleeper,
/// Second Sitting); any other position means Third AC.
pub open spec fn menu_class(i: int) -> TrainClass {
    if i == 0 { TrainClass::FirstAC }
    else if i == 1 { TrainClass::SecondAC }
    else if i == 2 { TrainClass::ThirdAC }
    else if i == 3 { TrainClass::ThirdACEconomy }
    else if i == 4 { TrainClass::ChairCar }
    else if i == 5 { TrainClass::ExecChairCar }
    else if i == 6 { TrainClass::Sleeper }
    else if i == 7 { TrainClass::SecondSitting }
    else { TrainClass::ThirdAC }
}

/// The gender chosen at a position of the gender menu (Male, Female,
/// Transgender); any other position means Male.
pub open spec fn menu_gender(i: int) -> Gender {
    if i == 1 { Gender::Female } else if i == 2 { Gender::Transgender } else { Gender::Male }
}

/// The berth preference chosen at a position of the berth menu (Lower,
/// Middle, Upper, Side Lower, Side Upper, No Preference); any other position
/// means no preference.
pub open spec fn menu_berth(i: int) -> BerthPreference {
    if i == 0 { BerthPreference::Lower }
    else if i == 1 { BerthPreference::Middle }
    else if i == 2 { BerthPreference::Upper }
    else if i == 3 { BerthPreference::SideLower }
    else if i == 4 { BerthPreference::SideUpper }
    else { BerthPreference::NoPreference }
}

/// The class chosen at position `i` of the class menu.
pub fn class_for_menu_index(i: usize) -> (r: TrainClass)
    ensures
        r == menu_class(i as int),
{
    match i {
        0 => TrainClass::FirstAC,
        1 => TrainClass::SecondAC,
        2 => TrainClass::ThirdAC,
        3 => TrainClass::ThirdACEconomy,
        4 => TrainClass::ChairCar,
        5 => TrainClass::ExecChairCar,
        6 => TrainClass::Sleeper,
        7 => TrainClass::SecondSitting,
        _ => TrainClass::ThirdAC,
    }
}

/// The quota chosen at position `i` of the quota menu (Tatkal, Premium
/// Tatkal).
pub fn quota_for_menu_index(i: usize) -> (r: Quota)
    ensures
        r == (if i == 0 { Quota::Tatkal } else { Quota::PremiumTatkal }),
{
    if i == 0 { Quota::Tatkal } else { Quota::PremiumTatkal }
}

/// The gender chosen at position `i` of the gender menu.
pub fn gender_for_menu_index(i: usize) -> (r: Gender)
    ensures
        r == menu_gender(i as int),
{
    match i {
        1 => Gender::Female,
        2 => Gender::Transgender,
        _ => Gender::Male,
    }
}

/// The berth preference chosen at position `i` of the berth menu.
pub fn berth_for_menu_index(i: usize) -> (r: BerthPreference)
    ensures
        r == menu_berth(i as int),
{
    match i {
        0 => BerthPreference::Lower,
        1 => BerthPreference::Middle,
        2 => BerthPreference::Upper,
        3 => BerthPreference::SideLower,
        4 => BerthPreference::SideUpper,
        _ => BerthPreference::NoPreference,
    }
}

/// The train asked for: none (first available) when the answer reads "any"
/// in lowercase, else the answer itself.
pub fn train_number_choice(answer: String) -> (r: Option<String>)
    ensures
        lowercased(answer@) == "any"@ ==> r is None,
        lowercased(answer@) != "any"@ ==> (r matches Some(t) && t@ == answer@),
        is_ascii_text(answer@) ==> (r is None <==> ascii_lower(answer@) == "any"@),
{
    let lower = to_lower(answer.as_str());
    if str_equal(lower.as_str(), "any") {
        None
    } else {
        Some(answer)
    }
}

/// Whether another passenger may be added after `count` passengers: fewer
/// than the maximum have been entered.
pub fn may_add_passenger(count: usize) -> (r: bool)
    ensures
        r == (count < MAX_PASSENGERS),
{
    count < MAX_PASSENGERS
}

/// Whether the answer at position `i` of a Yes/No menu (Yes first) is Yes.
pub fn yes_chosen(i: usize) -> (r: bool)
    ensures
        r == (i == 0),
{
    i == 0
}

/// Whether the payment menu choice at position `i` (UPI first, then the
/// e-wallet) is UPI, for which a UPI id is asked.
pub fn payment_is_upi(i: usize) -> (r: bool)
    ensures
        r == (i == 0),
{
    i == 0
}

/// The payment method chosen at position `i` of the payment menu: UPI with
/// the given UPI id first, the site's e-wallet otherwise.
pub fn payment_for_menu_index(i: usize, vpa: String) -> (r: PaymentMethod)
    ensures
        i == 0 ==> (r matches PaymentMethod::Upi { vpa: v } && v@ == vpa@),
        i != 0 ==> r is IrctcEwallet,
{
    if i == 0 {
        PaymentMethod::Upi { vpa }
    } else {
        PaymentMethod::IrctcEwallet
    }
}

/// The saved form of a passenger: name, age, and the form codes of gender
/// and berth preference.
pub open spec fn saved_passenger_of(p: Passenger, s: SavedPassenger) -> bool {
    &&& s.name@ == p.name@
    &&& s.age == p.age
    &&& s.gender@ == gender_code(p.gender)
    &&& s.berth_preference@ == berth_code(p.berth_preference)
}

/// The saved payment method and UPI id of a payment method.
pub open spec fn saved_payment_of(p: PaymentMethod, method: Seq<char>, upi_id: Option<Seq<char>>) -> bool {
    match p {
        PaymentMethod::Upi { vpa } => method == "UPI"@ && upi_id == Some(vpa@),
        PaymentMethod::IrctcEwallet => method == "EWALLET"@ && upi_id is None,
    }
}

/// Builds the configuration saved for next time from the journey details
/// just entered: stations, date text, class and quota codes, train,
/// passengers with their form codes, payment method ("UPI" with the UPI id,
/// or "EWALLET") and the auto-upgrade choice.
pub fn saved_config_from(
    from: &String,
    to: &String,
    date_text: &String,
    class: TrainClass,
    quota: Quota,
    train_number: &Option<String>,
    passengers: &Vec<Passenger>,
    payment: &PaymentMethod,
    auto_upgrade: bool,
) -> (r: SavedConfig)
    ensures
        r.from_station@ == from@,
        r.to_station@ == to@,
        r.journey_date@ == date_text@,
        r.class@ == class_code(class),
        r.quota@ == quota_code(quota),
        opt_view(r.train_number) == opt_view(*train_number),
        r.passengers@.len() == passengers@.len(),
        forall|i: int| 0 <= i < passengers@.len() ==> saved_passenger_of(#[trigger] passengers@[i], r.passengers@[i]),
        saved_payment_of(*payment, r.payment_method@, opt_view(r.upi_id)),
        r.auto_upgrade == auto_upgrade,
{
    let mut saved: Vec<SavedPassenger> = Vec::new();
    let n = passengers.len();
    let mut i: usize = 0;
    while i < n
        invariant
            n == passengers@.len(),
            i <= n,
            saved@.len() == i,
            forall|j: int| 0 <= j < i ==> saved_passenger_of(#[trigger] passengers@[j], saved@[j]),
        decreases n - i,
    {
        let p = &passengers[i];
        saved.push(SavedPassenger {
            name: p.name.clone(),
            age: p.age,
            gender: String::from_str(p.gender.irctc_value()),
            berth_preference: String::from_str(p.berth_preference.irctc_value()),
        });
        i = i + 1;
    }
    let (method, upi_id) = match payment {
        PaymentMethod::Upi { vpa } => (String::from_str("UPI"), Some(vpa.clone())),
        PaymentMethod::IrctcEwallet => (String::from_str("EWALLET"), None),
    };
    SavedConfig {
        from_station: from.clone(),
        to_station: to.clone(),
        journey_date: date_text.clone(),
        class: String::from_str(class.irctc_value()),
        quota: String::from_str(quota.irctc_value()),
        train_number: clone_opt(train_number),
        passengers: saved,
        payment_method: method,
        upi_id,
        auto_upgrade,
    }
}

/// What is saved for a journey reads back, code by code, as what was
/// chosen: the class, the quota, each passenger's gender and berth
/// preference, and the payment method with its UPI id.
pub proof fn lemma_saved_choices_read_back(
    c: SavedConfig,
    class: TrainClass,
    quota: Quota,
    passengers: Seq<Passenger>,
    payment: PaymentMethod,
)
    requires
        c.class@ == class_code(class),
        c.quota@ == quota_code(quota),
        c.passengers@.len() == passengers.len(),
        forall|i: int| 0 <= i < passengers.len() ==> saved_passenger_of(#[trigger] passengers[i], c.passengers@[i]),
        saved_payment_of(payment, c.payment_method@, opt_view(c.upi_id)),
    ensures
        class_for_code(c.class@) == Some(class),
        quota_for_code(c.quota@) == Some(quota),
        forall|i: int| 0 <= i < passengers.len() ==> gender_for_code(#[trigger] c.passengers@[i].gender@) == Some(passengers[i].gender)
            && berth_for_code(c.passengers@[i].berth_preference@) == passengers[i].berth_preference,
        payment_from_saved(c.payment_method@, c.upi_id, payment),
{
    lemma_class_code_reads_back(class);
    lemma_quota_code_reads_back(quota);
    assert forall|i: int| 0 <= i < passengers.len() implies gender_for_code(#[trigger] c.passengers@[i].gender@) == Some(passengers[i].gender)
        && berth_for_code(c.passengers@[i].berth_preference@) == passengers[i].berth_preference by {
        assert(saved_passenger_of(passengers[i], c.passengers@[i]));
        lemma_gender_code_reads_back(passengers[i].gender);
        lemma_berth_code_reads_back(passengers[i].berth_preference);
    }
    reveal_strlit("UPI");
    reveal_strlit("EWALLET");
    reveal_strlit("WALLET");
    match payment {
        PaymentMethod::Upi { vpa } => {
            assert(c.payment_method@ == "UPI"@);
            assert(c.upi_id is Some);
            assert(text_or_empty(c.upi_id) == vpa@);
            assert(names_upi(c.payment_method@));
        },
        PaymentMethod::IrctcEwallet => {
            assert(c.payment_method@ == "EWALLET"@);
            assert(c.payment_method@.len() != "UPI"@.len());
        },
    }
}

/// Whether a passenger read from a saved configuration is the one chosen:
/// the same name, age, gender and berth preference, and no nationality.
pub open spec fn same_passenger(read: Passenger, chosen: Passenger) -> bool {
    &&& read.name@ == chosen.name@
    &&& read.age == chosen.age
    &&& read.gender == chosen.gender
    &&& read.berth_preference == chosen.berth_preference
    &&& read.nationality is None
}

/// Whether a payment method read from a saved configuration is the one
/// chosen: UPI with the same UPI id, or the e-wallet.
pub open spec fn same_payment(read: PaymentMethod, chosen: PaymentMethod) -> bool {
    match (read, chosen) {
        (PaymentMethod::Upi { vpa: a }, PaymentMethod::Upi { vpa: b }) => a@ == b@,
        (PaymentMethod::IrctcEwallet, PaymentMethod::IrctcEwallet) => true,
        _ => false,
    }
}

/// A configuration saved from the journey choices reads back as those
/// choices.  When its journey date reads as a date (as a date written day
/// first or year first with a four-digit year does, by `to_booking_config`),
/// it is in the saved form, so that converting it succeeds; and the booking
/// configuration it converts to holds that date and the chosen class,
/// quota, passengers (name, age, gender and berth preference, in order) and
/// payment method with its UPI id.
pub proof fn lemma_saved_config_round_trip(
    c: SavedConfig,
    class: TrainClass,
    quota: Quota,
    passengers: Seq<Passenger>,
    payment: PaymentMethod,
    date: JourneyDate,
    username: Seq<char>,
    password: Seq<char>,
    b: BookingConfig,
)
    requires
        c.class@ == class_code(class),
        c.quota@ == quota_code(quota),
        c.passengers@.len() == passengers.len(),
        forall|i: int| 0 <= i < passengers.len() ==> saved_passenger_of(#[trigger] passengers[i], c.passengers@[i]),
        saved_payment_of(payment, c.payment_method@, opt_view(c.upi_id)),
        journey_date_outcome(c.journey_date@) == Ok::<(int, int, int), Seq<char>>(date.ymd()),
    ensures
        client_form(c),
        codes_read_back(c, b) && config_from_saved(c, username, password, b) ==> {
            &&& b.journey_date == date
            &&& b.class == class
            &&& b.quota == quota
            &&& b.passengers@.len() == passengers.len()
            &&& forall|i: int| 0 <= i < passengers.len() ==> same_passenger(#[trigger] b.passengers@[i], passengers[i])
            &&& same_payment(b.payment, payment)
        },
{
    lemma_saved_choices_read_back(c, class, quota, passengers, payment);
    lemma_class_code_reads_back(class);
    assert forall|i: int| 0 <= i < c.passengers@.len() implies passenger_form(#[trigger] c.passengers@[i]) by {
        assert(saved_passenger_of(passengers[i], c.passengers@[i]));
    }
    if codes_read_back(c, b) && config_from_saved(c, username, password, b) {
        assert forall|i: int| 0 <= i < passengers.len() implies same_passenger(#[trigger] b.passengers@[i], passengers[i]) by {
            assert(saved_passenger_of(passengers[i], c.passengers@[i]));
            assert(passenger_from_saved(c.passengers@[i], b.passengers@[i]));
            assert(gender_for_code(c.passengers@[i].gender@) == Some(b.passengers@[i].gender));
        }
        reveal_strlit("UPI");
        reveal_strlit("EWALLET");
        match payment {
            PaymentMethod::Upi { vpa } => {
                assert(names_upi(c.payment_method@));
            },
            PaymentMethod::IrctcEwallet => {
                assert(c.payment_method@.len() != "UPI"@.len());
            },
        }
    }
}

/// Two saved configurations that differ at most in the text of their
/// journey date, where both texts read as the same date (as the day-first
/// and the year-first spelling of one date do, by `to_booking_config`),
/// convert alike: the same problem or none, and the same booking
/// configurations.
pub proof fn lemma_date_spellings_agree(c1: SavedConfig, c2: SavedConfig, username: Seq<char>, password: Seq<char>, b: BookingConfig)
    requires
        c1.from_station@ == c2.from_station@,
        c1.to_station@ == c2.to_station@,
        c1.class@ == c2.class@,
        c1.quota@ == c2.quota@,
        opt_view(c1.train_number) == opt_view(c2.train_number),
        c1.passengers@ == c2.passengers@,
        c1.payment_method@ == c2.payment_method@,
        opt_view(c1.upi_id) == opt_view(c2.upi_id),
        c1.auto_upgrade == c2.auto_upgrade,
        journey_date_outcome(c1.journey_date@) is Ok,
        journey_date_outcome(c1.journey_date@) == journey_date_outcome(c2.journey_date@),
    ensures
        saved_config_issue(c1) == saved_config_issue(c2),
        config_from_saved(c1, username, password, b) <==> config_from_saved(c2, username, password, b),
{
    assert(text_or_empty(c1.upi_id) == text_or_empty(c2.upi_id));
}

/// A gender read from a saved passenger is named either by its one-letter
/// form code or by its full name, in any ASCII case: once uppercased, the
/// name of each gender ("Male", "Female", "Transgender") and its code read
/// as that gender and as no other.
pub proof fn lemma_gender_names_read_back(g: Gender)
    ensures
        gender_for_code(ascii_upper(gender_text(g))) == Some(g),
        gender_for_code(ascii_upper(gender_code(g))) == Some(g),
{
    reveal_strlit("Male");
    reveal_strlit("Female");
    reveal_strlit("Transgender");
    reveal_strlit("MALE");
    reveal_strlit("FEMALE");
    reveal_strlit("TRANSGENDER");
    reveal_strlit("M");
    reveal_strlit("F");
    reveal_strlit("T");
    assert(ascii_upper("Male"@) =~= "MALE"@);
    assert(ascii_upper("Female"@) =~= "FEMALE"@);
    assert(ascii_upper("Transgender"@) =~= "TRANSGENDER"@);
    assert(ascii_upper("M"@) =~= "M"@);
    assert(ascii_upper("F"@) =~= "F"@);
    assert(ascii_upper("T"@) =~= "T"@);
    lemma_gender_code_reads_back(g);
}

/// A saved passenger whose gender is written as a gender's name, in any
/// ASCII case (such as "male"), is read by `to_booking_config` as that
/// gender.
pub proof fn lemma_saved_gender_name(s: SavedPassenger, p: Passenger, g: Gender)
    requires
        passenger_from_saved(s, p),
        ascii_codes_upper(s),
        is_ascii_text(s.gender@),
        ascii_upper(s.gender@) == ascii_upper(gender_text(g)),
    ensures
        p.gender == g,
{
    lemma_gender_names_read_back(g);
}

/// The class menu offers every class once, labelled by its name, in the
/// order First AC, Second AC, Third AC, Third AC Economy, AC Chair Car,
/// Executive Chair Car, Sleeper, Second Sitting: the positions 0 to 7 map
/// one-to-one onto the classes, and each position's class bears the label
/// shown there.
pub proof fn lemma_class_menu(i: int, j: int, c: TrainClass)
    requires
        0 <= i < 8,
        0 <= j < 8,
    ensures
        menu_class(i) == menu_class(j) ==> i == j,
        class_text(menu_class(i)) == seq![
            "First AC (1A)"@,
            "Second AC (2A)"@,
            "Third AC (3A)"@,
            "Third AC Economy (3E)"@,
            "AC Chair Car (CC)"@,
            "Executive Chair Car (EC)"@,
            "Sleeper (SL)"@,
            "Second Sitting (2S)"@,
        ][i],
        exists|k: int| 0 <= k < 8 && #[trigger] menu_class(k) == c,
{
    match c {
        TrainClass::FirstAC => assert(menu_class(0) == c),
        TrainClass::SecondAC => assert(menu_class(1) == c),
        TrainClass::ThirdAC => assert(menu_class(2) == c),
        TrainClass::ThirdACEconomy => assert(menu_class(3) == c),
        TrainClass::ChairCar => assert(menu_class(4) == c),
        TrainClass::ExecChairCar => assert(menu_class(5) == c),
        TrainClass::Sleeper => assert(menu_class(6) == c),
        TrainClass::SecondSitting => assert(menu_class(7) == c),
    }
}

} // verus!
