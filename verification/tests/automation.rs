use bookkar::automation::{
    aadhaar_poll, captcha_detected, captcha_settled, captcha_wait, class_script, confirmation_poll, custom_browser_path,
    dropdown_outcome, element_missed, login_link_missed, login_poll, needs_add_passenger,
    needs_auto_upgrade_click, page_error, passenger_scripts, quota_script, results_poll, sign_in_missed, site_url,
    station_input_script, train_selection_outcome, train_selection_script, AadhaarPoll, ConfirmationPoll,
    CaptchaWait, LoginPoll, ResultsPoll, timed_out,
};
use bookkar::booking::{BookingResult, Quota, TrainClass};
use bookkar::passenger::{BerthPreference, Gender, Passenger};
use bookkar::scripts::{
    auto_upgrade_state_script, class_choice_script, clear_input_script, click_script, first_train_script, numbered_train_script,
    pay_script, select_value_script, train_count_script, vpa_script, LOGIN_STATE_SCRIPT,
};

#[test]
fn quoting_for_scripts() {
    assert!(class_choice_script("3A").contains("select.value = \"3A\";"));
    assert!(class_choice_script("it's \"x\"\n").contains("select.value = \"it's \\\"x\\\"\\n\";"));
    // Control characters are written as short escapes or as \u00 with two
    // lowercase hexadecimal digits; other characters stand as they are.
    assert!(class_choice_script("a\u{8}\u{c}\r\t\u{1f}\u{0}\\/\u{7f}é").contains(
        "select.value = \"a\\b\\f\\r\\t\\u001f\\u0000\\\\/\u{7f}é\";"
    ));
}

#[test]
fn small_scripts() {
    assert_eq!(click_script("button.close"), "document.querySelector('button.close')?.click()");
    assert_eq!(clear_input_script("input#username"), "document.querySelector('input#username').value = ''");
    assert_eq!(train_count_script(), "document.querySelectorAll(\"app-train-avl-enq, .train-card\").length");
    assert_eq!(auto_upgrade_state_script(), "document.querySelector(\"input#autoUpgradation\")?.checked || false");
}

#[test]
fn dropdown_script_embeds_selector_and_value() {
    let s = select_value_script("select#journeyClass", "3A");
    assert!(s.contains("const el = document.querySelector('select#journeyClass');"));
    assert!(s.contains("el.value = '3A';"));
    assert!(s.contains("el.dispatchEvent(new Event('change', { bubbles: true }));"));
}

#[test]
fn choice_scripts() {
    let q = quota_script(&Quota::PremiumTatkal);
    assert!(q.contains("t.includes(\"PREMIUM TATKAL\") || t.includes(\"PT\")"));
    assert!(q.contains("select.value = \"PT\";"));
    let c = class_script(&TrainClass::ThirdAC);
    assert!(c.contains("select.value = \"3A\";"));
    let from = station_input_script(true, "NDLS");
    assert!(from.contains("[aria-label=\"From station\"]"));
    assert!(from.contains("input.value = \"NDLS\";"));
    let to = station_input_script(false, "MAS");
    assert!(to.contains("[aria-label=\"To station\"]"));
    assert!(to.contains("input.to-search-input"));
}

#[test]
fn train_selection() {
    assert_eq!(train_selection_script(Some("12622")), numbered_train_script("12622"));
    assert!(numbered_train_script("12622").contains("text.includes(\"12622\")"));
    assert_eq!(train_selection_script(None), first_train_script());
    assert_eq!(
        train_selection_outcome(Some("12622"), "NOT_FOUND".to_string()),
        Err("Train 12622 not found in results".to_string())
    );
    assert_eq!(train_selection_outcome(None, "NONE".to_string()), Err("No trains available in search results".to_string()));
    assert_eq!(train_selection_outcome(None, "12622 TAMIL NADU".to_string()), Ok("12622 TAMIL NADU".to_string()));
    assert_eq!(train_selection_outcome(Some("1"), "NONE".to_string()), Ok("NONE".to_string()));
}

#[test]
fn passenger_form_scripts() {
    let p = Passenger {
        name: "Asha".to_string(),
        age: 34,
        gender: Gender::Female,
        berth_preference: BerthPreference::Upper,
        nationality: None,
    };
    let s = passenger_scripts(2, &p);
    assert_eq!(s.len(), 4);
    assert!(s[0].contains("document.querySelectorAll(\"input[formcontrolname='passengerName']\")"));
    assert!(s[0].contains("nativeSetter.call(inputs[2], \"Asha\");"));
    assert!(s[1].contains("inputs[2].value = \"34\";"));
    assert!(s[2].contains("selects[2].value = \"F\";"));
    assert!(s[3].contains("selects[2].value = \"UB\";"));
    assert!(!needs_add_passenger(0));
    assert!(needs_add_passenger(1));
}

#[test]
fn payment_scripts() {
    let v = vpa_script("asha@okbank");
    assert!(v.contains("let input = document.querySelector('input[formcontrolname='vpa']');"));
    assert!(v.contains("nativeSetter.call(input, 'asha@okbank');"));
    assert!(pay_script().contains("let btn = document.querySelector('button.btn.btn-primary.pay-btn');"));
}

#[test]
fn auto_upgrade_box() {
    assert!(needs_auto_upgrade_click(true, "false"));
    assert!(!needs_auto_upgrade_click(true, "true"));
    assert!(!needs_auto_upgrade_click(false, "false"));
}

#[test]
fn search_result_states() {
    assert_eq!(results_poll(3, "No trains", 0, 10), ResultsPoll::Found(3));
    assert_eq!(results_poll(0, "No trains found", 0, 10), ResultsPoll::Failed("Search error: No trains found".to_string()));
    assert_eq!(results_poll(0, "", 0, 10), ResultsPoll::Pending);
}

#[test]
fn waits_run_out_only_past_their_limit() {
    assert!(!timed_out(10, 10));
    assert!(timed_out(11, 10));
    assert!(!timed_out(0, 0));
    assert_eq!(results_poll(0, "", 11, 10), ResultsPoll::TimedOut);
    assert_eq!(results_poll(0, "", 10, 10), ResultsPoll::Pending);
    assert_eq!(results_poll(2, "", 99, 10), ResultsPoll::Found(2));
    assert_eq!(results_poll(0, "Down", 99, 10), ResultsPoll::Failed("Search error: Down".to_string()));
    assert_eq!(aadhaar_poll("WAITING", 11, 10), AadhaarPoll::TimedOut);
    assert_eq!(aadhaar_poll("PAYMENT_READY", 11, 10), AadhaarPoll::Verified);
    assert_eq!(confirmation_poll("PROCESSING", 11, 10), ConfirmationPoll::TimedOut);
    assert_eq!(
        confirmation_poll("FAILED:x", 11, 10),
        ConfirmationPoll::Failed("Payment failed: x".to_string())
    );
    // An empty CAPTCHA does not hold the login wait past its limit.
    assert_eq!(login_poll("CAPTCHA_EMPTY", true, 11, 10), LoginPoll::TimedOut);
    assert_eq!(login_poll("WAITING_OTP", false, 11, 10), LoginPoll::TimedOut);
    assert_eq!(login_poll("LOGGED_IN:profile_element", false, 11, 10), LoginPoll::LoggedIn);
    assert_eq!(login_poll("ERROR:Bad", false, 11, 10), LoginPoll::Failed("Login failed: Bad".to_string()));
    assert_eq!(captcha_wait("SOLVED", 500_000_000_000), CaptchaWait::Settled);
    assert_eq!(captcha_wait("WAITING", 120_000_000_000), CaptchaWait::Waiting);
    assert_eq!(captcha_wait("WAITING", 120_000_000_001), CaptchaWait::TimedOut);
}

#[test]
fn aadhaar_states() {
    assert_eq!(aadhaar_poll("PAYMENT_READY", 0, 10), AadhaarPoll::Verified);
    assert_eq!(aadhaar_poll("ERROR:Invalid OTP", 0, 10), AadhaarPoll::Failed("Aadhaar verification failed: Invalid OTP".to_string()));
    assert_eq!(aadhaar_poll("WAITING", 0, 10), AadhaarPoll::Waiting);
    assert_eq!(aadhaar_poll("TRANSITIONING", 0, 10), AadhaarPoll::Waiting);
}

#[test]
fn confirmation_states() {
    assert_eq!(
        confirmation_poll("PNR:4512345678", 0, 10),
        ConfirmationPoll::Confirmed(BookingResult {
            pnr: "4512345678".to_string(),
            train_number: "Unknown".to_string(),
            train_name: "Unknown".to_string(),
            status_message: "Booking confirmed successfully!".to_string(),
        })
    );
    assert_eq!(
        confirmation_poll("SUCCESS_NO_PNR", 0, 10),
        ConfirmationPoll::Confirmed(BookingResult {
            pnr: "CHECK_EMAIL".to_string(),
            train_number: "Unknown".to_string(),
            train_name: "Unknown".to_string(),
            status_message: "Booking confirmed — check your email/SMS for PNR".to_string(),
        })
    );
    assert_eq!(confirmation_poll("FAILED:Transaction failed", 0, 10), ConfirmationPoll::Failed("Payment failed: Transaction failed".to_string()));
    assert_eq!(confirmation_poll("PROCESSING", 0, 10), ConfirmationPoll::Pending);
}

#[test]
fn login_states() {
    assert_eq!(login_poll("LOGGED_IN:greeting", false, 0, 10), LoginPoll::LoggedIn);
    assert_eq!(login_poll("ERROR:Invalid user", false, 0, 10), LoginPoll::Failed("Login failed: Invalid user".to_string()));
    assert_eq!(login_poll("WAITING_OTP", false, 0, 10), LoginPoll::AskForOtp);
    assert_eq!(login_poll("WAITING_OTP", true, 0, 10), LoginPoll::Waiting);
    assert_eq!(login_poll("CAPTCHA_EMPTY", true, 0, 10), LoginPoll::CaptchaMissing);
    assert_eq!(login_poll("LOADING (modal=hidden)", false, 0, 10), LoginPoll::Waiting);
    assert!(captcha_settled("SOLVED"));
    assert!(captcha_settled("LOGGED_IN"));
    assert!(captcha_settled("MODAL_CLOSED"));
    assert!(!captcha_settled("WAITING"));
    assert!(login_link_missed("NOT_FOUND"));
    assert!(!login_link_missed("CLICKED"));
    assert!(sign_in_missed("NOT_FOUND: Cancel, Help"));
    assert!(!sign_in_missed("CLICKED: SIGN IN"));
    assert!(element_missed("NOT_FOUND"));
    assert!(!element_missed("CLICKED_RADIO"));
}

#[test]
fn captcha_reports() {
    assert!(captcha_detected("{\"hasImg\":true,\"hasInput\":false,\"hasValue\":false}"));
    assert!(captcha_detected("{\"hasImg\":false,\"hasInput\":true,\"hasValue\":false}"));
    assert!(!captcha_detected("{\"hasImg\":false,\"hasInput\":false,\"hasValue\":true}"));
    assert!(!captcha_detected("{\"hasImg\":\"yes\"}"));
    assert!(!captcha_detected(""));
}

#[test]
fn page_reports() {
    assert_eq!(dropdown_outcome("NOT_FOUND", "select#x"), Err("Dropdown not found: select#x".to_string()));
    assert_eq!(dropdown_outcome("OK", "select#x"), Ok(()));
    assert_eq!(page_error("Session expired".to_string()), Some("Session expired".to_string()));
    assert_eq!(page_error(String::new()), None);
}

#[test]
fn browser_and_site_settings() {
    assert_eq!(custom_browser_path(Some("  /usr/bin/chromium\n".to_string())), Some("/usr/bin/chromium".to_string()));
    assert_eq!(custom_browser_path(Some(" \t ".to_string())), None);
    assert_eq!(custom_browser_path(None), None);
    assert_eq!(
        custom_browser_path(Some("\u{a0}\u{3000}/opt/chrome\u{85}\u{2028}".to_string())),
        Some("/opt/chrome".to_string())
    );
    assert_eq!(custom_browser_path(Some("\u{200b}x".to_string())), Some("\u{200b}x".to_string()));
    assert_eq!(site_url(Some("https://a".to_string()), Some("https://b".to_string())), "https://a");
    assert_eq!(site_url(None, Some("https://b".to_string())), "https://b");
    assert_eq!(site_url(None, None), "https://www.irctc.co.in/eticket/train-search");
}

#[test]
fn login_state_script_reads_the_names_it_defines() {
    assert!(LOGIN_STATE_SCRIPT.contains("const loginBtnVisible ="));
    assert!(LOGIN_STATE_SCRIPT.contains("!modalVisible && !loginBtnVisible && window.location.href.includes('train-search')"));
    assert!(!LOGIN_STATE_SCRIPT.contains("loginLinkVisible"));
}
