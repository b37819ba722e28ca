//! The scripts run in the booking site's pages, each built from its
//! parameters exactly as stated.
use vstd::prelude::*;
use crate::text::{append_decimal, decimal, push_char};

verus! {

/// The lowercase hexadecimal digit of a number below sixteen.
pub open spec fn hex_digit(n: int) -> char {
    if n < 10 {
        (48 + n) as char
    } else {
        (87 + n) as char
    }
}

/// How a character is written inside a JSON string: the quote and the
/// backslash after a backslash; backspace, form feed, line feed, carriage
/// return and tab as \b, \f, \n, \r and \t; the other characters below
/// U+0020 as \u00 and two lowercase hexadecimal digits; any other character
/// as itself.
pub open spec fn json_escaped_char(c: char) -> Seq<char> {
    if c == '"' {
        seq!['\\', '"']
    } else if c == '\\' {
        seq!['\\', '\\']
    } else if c == '\u{8}' {
        seq!['\\', 'b']
    } else if c == '\u{c}' {
        seq!['\\', 'f']
    } else if c == '\n' {
        seq!['\\', 'n']
    } else if c == '\r' {
        seq!['\\', 'r']
    } else if c == '\t' {
        seq!['\\', 't']
    } else if (c as u32) < 0x20 {
        seq!['\\', 'u', '0', '0', hex_digit((c as int) / 16), hex_digit((c as int) % 16)]
    } else {
        seq![c]
    }
}

/// The characters of a text as written inside a JSON string.
pub open spec fn json_escaped(s: Seq<char>) -> Seq<char>
    decreases s.len(),
{
    if s.len() == 0 {
        Seq::empty()
    } else {
        json_escaped(s.drop_last()) + json_escaped_char(s.last())
    }
}

/// The JSON string literal that denotes a text: its escaped characters
/// between double quotes.  A JSON string literal is also a JavaScript string
/// literal.
pub open spec fn json_string_literal(s: Seq<char>) -> Seq<char> {
    seq!['"'] + json_escaped(s) + seq!['"']
}
/// The lowercase hexadecimal digit of a number below sixteen.
fn hex_char(n: u32) -> (c: char)
    requires
        n < 16,
    ensures
        c == hex_digit(n as int),
{
    if n == 0 { '0' } else if n == 1 { '1' } else if n == 2 { '2' } else if n == 3 { '3' }
    else if n == 4 { '4' } else if n == 5 { '5' } else if n == 6 { '6' } else if n == 7 { '7' }
    else if n == 8 { '8' } else if n == 9 { '9' } else if n == 10 { 'a' } else if n == 11 { 'b' }
    else if n == 12 { 'c' } else if n == 13 { 'd' } else if n == 14 { 'e' } else { 'f' }
}

/// Appends a character as it is written inside a JSON string.
fn push_escaped(out: &mut String, c: char)
    ensures
        final(out)@ == old(out)@ + json_escaped_char(c),
{
    let ghost start = out@;
    let u = c as u32;
    if c == '"' || c == '\\' {
        push_char(out, '\\');
        push_char(out, c);
    } else if c == '\u{8}' {
        push_char(out, '\\');
        push_char(out, 'b');
    } else if c == '\u{c}' {
        push_char(out, '\\');
        push_char(out, 'f');
    } else if c == '\n' {
        push_char(out, '\\');
        push_char(out, 'n');
    } else if c == '\r' {
        push_char(out, '\\');
        push_char(out, 'r');
    } else if c == '\t' {
        push_char(out, '\\');
        push_char(out, 't');
    } else if u < 0x20 {
        push_char(out, '\\');
        push_char(out, 'u');
        push_char(out, '0');
        push_char(out, '0');
        push_char(out, hex_char(u / 16));
        push_char(out, hex_char(u % 16));
    } else {
        push_char(out, c);
    }
    assert(out@ =~= start + json_escaped_char(c));
}

/// Quotes a string as a JSON string literal, which is also a JavaScript
/// string literal, as `serde_json::to_string` writes it: between double
/// quotes, each character escaped as `json_escaped_char` states.
pub(crate) fn js_quote(s: &str) -> (r: String)
    ensures
        r@ == json_string_literal(s@),
{
    let n = s.unicode_len();
    let mut out = String::new();
    push_char(&mut out, '"');
    assert(s@.subrange(0, 0) =~= Seq::<char>::empty());
    assert(out@ =~= seq!['"'] + json_escaped(s@.subrange(0, 0)));
    let mut i: usize = 0;
    while i < n
        invariant
            n == s@.len(),
            i <= n,
            out@ == seq!['"'] + json_escaped(s@.subrange(0, i as int)),
        decreases n - i,
    {
        let c = s.get_char(i);
        let ghost before = out@;
        proof {
            let p = s@.subrange(0, i as int + 1);
            assert(p.drop_last() =~= s@.subrange(0, i as int));
            assert(p.last() == c);
        }
        push_escaped(&mut out, c);
        assert(out@ =~= seq!['"'] + json_escaped(s@.subrange(0, i as int + 1)));
        i = i + 1;
    }
    push_char(&mut out, '"');
    assert(s@.subrange(0, n as int) =~= s@);
    assert(out@ =~= json_string_literal(s@));
    out
}

/// Closes any modal or overlay in the way: close icons, backdrops, and dialog buttons reading OK, Dismiss or Close.
pub const DISMISS_MODALS_SCRIPT: &'static str = "\n        (() => {\n            // Dismiss close icons, backdrops, and modal buttons\n            document.querySelectorAll('.modal .close, button.close, .cdk-overlay-backdrop, .ui-dialog-titlebar-close, button[aria-label=\"Close\"]')\n                .forEach(el => { try { el.click(); } catch(e) {} });\n\n            // On IRCTC, alert dialogs have an OK button inside ui-dialog\n            document.querySelectorAll('.ui-dialog button, .modal-dialog button').forEach(b => {\n                const txt = (b.innerText || '').trim().toUpperCase();\n                if (txt === 'OK' || txt.includes('DISMISS') || txt.includes('CLOSE')) {\n                    try { b.click(); } catch(e) {}\n                }\n            });\n        })()\n    ";

/// Reads the text of a visible error alert, or nothing.
pub const PAGE_ERROR_SCRIPT: &'static str = "\n        (() => {\n            const err = document.querySelector('.alert-danger, .error-message, .toast-error');\n            return err ? err.innerText.trim() : '';\n        })()\n    ";

/// Clicks the search button of the train search form.
pub const SEARCH_CLICK_SCRIPT: &'static str = "\n        (() => {\n            const btn = document.querySelector('button.search-btn, button.search_btn, button[type=\"submit\"].search-btn, form button[type=\"submit\"]');\n            if (btn) {\n                btn.click();\n                return 'CLICKED: ' + btn.className;\n            }\n            return 'NOT_FOUND';\n        })()\n    ";

/// Reads the text of a "no trains" or error notice after a search, or nothing.
pub const SEARCH_ERROR_SCRIPT: &'static str = "\n            (() => {\n                const noTrain = document.querySelector('.alert-danger, .no-train-found');\n                return noTrain ? noTrain.innerText.trim() : '';\n            })()\n        ";

/// Clicks the "Book Now" button of the chosen train.
pub const BOOK_NOW_SCRIPT: &'static str = "\n        (() => {\n            const allButtons = Array.from(document.querySelectorAll('button, .btn, [role=\"button\"], a.btn'));\n            const bookBtn = allButtons.find(b => {\n                const t = (b.innerText || '').trim().toUpperCase();\n                return t === 'BOOK NOW' || t === 'BOOK' || t.includes('BOOK NOW');\n            });\n            if (bookBtn) {\n                bookBtn.click();\n                return 'CLICKED_BOOK_NOW';\n            }\n            return 'NOT_FOUND';\n        })()\n    ";

/// Reports the Aadhaar step: still waiting, payment page reached, an error, or in transition.
pub const AADHAAR_STATE_SCRIPT: &'static str = "\n            (() => {\n                // Check if Aadhaar OTP input is still visible\n                const otpInput = document.querySelector('input[formcontrolname=\"aadhaarOtp\"], input#aadhaarOtp');\n                if (otpInput && otpInput.offsetParent !== null) return 'WAITING';\n\n                // Check if we've moved to the payment page\n                const paymentSection = document.querySelector('.payment-options, .pay-section, .bank-type');\n                if (paymentSection) return 'PAYMENT_READY';\n\n                // Check for error\n                const error = document.querySelector('.alert-danger, .error-message');\n                if (error && error.innerText.trim()) return 'ERROR:' + error.innerText.trim();\n\n                return 'TRANSITIONING';\n            })()\n        ";

/// Chooses the UPI payment option.
pub const UPI_OPTION_SCRIPT: &'static str = "\n                (() => {\n                    // Try various selectors for the UPI option\n                    const options = document.querySelectorAll('.bank-type, .pay-option, .payment-type');\n                    for (const opt of options) {\n                        if (opt.innerText.toLowerCase().includes('upi')) {\n                            opt.click();\n                            return 'CLICKED';\n                        }\n                    }\n                    // Fallback: try radio button or input\n                    const radio = document.querySelector('input[value*=\"UPI\"], input[value*=\"upi\"]');\n                    if (radio) {\n                        radio.click();\n                        return 'CLICKED_RADIO';\n                    }\n                    return 'NOT_FOUND';\n                })()\n            ";

/// Chooses the e-wallet payment option.
pub const WALLET_OPTION_SCRIPT: &'static str = "\n                (() => {\n                    const options = document.querySelectorAll('.bank-type, .pay-option, .payment-type');\n                    for (const opt of options) {\n                        if (opt.innerText.toLowerCase().includes('wallet') ||\n                            opt.innerText.toLowerCase().includes('ewallet')) {\n                            opt.click();\n                            return 'CLICKED';\n                        }\n                    }\n                    return 'NOT_FOUND';\n                })()\n            ";

/// Reports the booking outcome: a PNR, success without a PNR, a failure, or still waiting.
pub const CONFIRMATION_STATE_SCRIPT: &'static str = "\n            (() => {\n                // Check for PNR on the confirmation page\n                const pnrEl = document.querySelector('.pnr-val, .pnr-number, td:has(+ td:contains(\"PNR\"))');\n                if (pnrEl) {\n                    return 'PNR:' + pnrEl.innerText.trim();\n                }\n\n                // Check for success indicators\n                const success = document.querySelector('.booking-confirmed, .ticket-booked, .success-message');\n                if (success) {\n                    // Try to extract PNR from the success page\n                    const text = success.innerText;\n                    const pnrMatch = text.match(/\\b(\\d{10})\\b/);\n                    if (pnrMatch) return 'PNR:' + pnrMatch[1];\n                    return 'SUCCESS_NO_PNR';\n                }\n\n                // Check for payment failure\n                const fail = document.querySelector('.payment-failed, .transaction-failed, .alert-danger');\n                if (fail && fail.innerText.toLowerCase().includes('fail')) {\n                    return 'FAILED:' + fail.innerText.trim();\n                }\n\n                // Check if we're still on the payment processing page\n                const processing = document.querySelector('.payment-processing, .loading, .spinner');\n                if (processing) return 'PROCESSING';\n\n                return 'WAITING';\n            })()\n        ";

/// Reads the train number and name from the confirmation page as JSON.
pub const TRAIN_INFO_SCRIPT: &'static str = "\n                (() => {\n                    const info = {};\n                    const trainNo = document.querySelector('.train-number, .trainNo');\n                    const trainName = document.querySelector('.train-name, .trainName');\n                    info.number = trainNo ? trainNo.innerText.trim() : 'Unknown';\n                    info.name = trainName ? trainName.innerText.trim() : 'Unknown';\n                    return JSON.stringify(info);\n                })()\n            ";

/// Clicks the link that opens the login dialog.
pub const LOGIN_TRIGGER_SCRIPT: &'static str = "\n        (() => {\n            const loginBtn = document.querySelector('a.loginText, a[aria-label*=\"Login\"], button.loginText, a[aria-label=\"Click here to Login in application\"]');\n            if (loginBtn) {\n                loginBtn.click();\n                return 'CLICKED';\n            }\n            return 'NOT_FOUND';\n        })()\n    ";

/// Reports, as JSON, whether the login dialog shows a CAPTCHA image and input, and whether the input holds text.
pub const CAPTCHA_STATUS_SCRIPT: &'static str = "\n        (() => {\n            const img = document.querySelector('img.captcha-img, img[src*=\"captcha\" i], .captcha-img, app-captcha');\n            const input = document.querySelector('input[formcontrolname*=\"captcha\" i], input#captcha, input#nlpAnswer, input[placeholder*=\"captcha\" i]');\n            return JSON.stringify({\n                hasImg: !!img,\n                hasInput: !!input,\n                hasValue: !!(input && input.value && input.value.trim().length > 0)\n            });\n        })()\n    ";

/// Finds and clicks the sign-in button of the login dialog.
pub const LOGIN_SUBMIT_SCRIPT: &'static str = "\n        (() => {\n            const modal = document.querySelector('app-login, .modal-dialog, .modal-content, p-dialog, .login-modal');\n            const container = modal || document;\n\n            // 1. Specifically look for button with text SIGN IN\n            const allButtons = Array.from(container.querySelectorAll('button, input[type=\"submit\"]'));\n            let targetBtn = allButtons.find(b => {\n                const t = (b.innerText || b.value || '').trim().toUpperCase();\n                return t === 'SIGN IN' || t === 'SIGN-IN' || t === 'SIGNIN';\n            });\n\n            // 2. Look for button[type=\"submit\"] inside the form\n            if (!targetBtn) {\n                targetBtn = container.querySelector('form button[type=\"submit\"], form button.search_btn, form button.btnDefault');\n            }\n\n            // 3. Fallback inside modal\n            if (!targetBtn && modal) {\n                targetBtn = Array.from(modal.querySelectorAll('button')).find(b => {\n                    const t = (b.innerText || '').trim().toUpperCase();\n                    return t.includes('SIGN') || t.includes('SUBMIT');\n                });\n            }\n\n            if (!targetBtn) {\n                return 'NOT_FOUND: ' + allButtons.map(b => b.innerText.trim()).join(', ');\n            }\n\n            if (targetBtn.disabled) {\n                targetBtn.disabled = false;\n                targetBtn.removeAttribute('disabled');\n            }\n\n            targetBtn.click();\n            return 'CLICKED: ' + targetBtn.innerText.trim();\n        })()\n    ";

/// Reports whether the CAPTCHA has been entered, the user is already logged in, or the dialog has closed.
pub const CAPTCHA_CHECK_SCRIPT: &'static str = "\n        (() => {\n            // Check if already logged in (user may have clicked SIGN IN manually)\n            const allLinks = Array.from(document.querySelectorAll('a, button, span, strong'));\n            for (const el of allLinks) {\n                const txt = (el.innerText || '').trim().toUpperCase();\n                if (txt === 'LOGOUT' || txt === 'LOG OUT' || txt.includes('LOGOUT')) return 'LOGGED_IN';\n            }\n\n            // Check if captcha input has at least 3 characters\n            const input = document.querySelector('input[formcontrolname*=\"captcha\" i], input#captcha, input#nlpAnswer, input[placeholder*=\"captcha\" i]');\n            if (input && input.value && input.value.trim().length >= 3) {\n                return 'SOLVED';\n            }\n\n            // If captcha input is gone / modal closed\n            const modal = document.querySelector('app-login, .modal-dialog, p-dialog');\n            if (!modal) return 'MODAL_CLOSED';\n\n            return 'WAITING';\n        })()\n    ";

/// Reports the state of the login: logged in, an error, an OTP or CAPTCHA awaited, or loading.
pub const LOGIN_STATE_SCRIPT: &'static str = "\n            (() => {\n                // 1. Check for logged-in menu element or logout icon in header\n                const profile = document.querySelector('a.logoutText, span.user-name, a.dropdown-toggle.profile, .fa-sign-out');\n                if (profile) return 'LOGGED_IN:profile_element';\n\n                // Check for any link or button containing \"Logout\"\n                const elements = Array.from(document.querySelectorAll('a, button, span, strong'));\n                for (const el of elements) {\n                    const txt = (el.innerText || '').trim().toUpperCase();\n                    if (txt === 'LOGOUT' || txt === 'LOG OUT' || txt.includes('LOGOUT')) {\n                        return 'LOGGED_IN:logout_text';\n                    }\n                }\n\n                // Check for user greeting (e.g. \"Welcome <user>\")\n                for (const el of elements) {\n                    const txt = (el.innerText || '').trim();\n                    if (txt.toLowerCase().startsWith('welcome ') && txt.length > 8) {\n                        return 'LOGGED_IN:greeting';\n                    }\n                }\n\n                // Check sessionStorage for authentication tokens\n                try {\n                    if (sessionStorage.getItem('token') || sessionStorage.getItem('userName') || sessionStorage.getItem('userId')) {\n                        return 'LOGGED_IN:storage_token';\n                    }\n                } catch (e) {}\n\n                // Check if login dialog/modal is closed and login button is gone from header\n                const modal = document.querySelector('app-login, .modal-dialog, p-dialog, div[role=\"dialog\"]');\n                const modalVisible = modal && modal.offsetParent !== null && window.getComputedStyle(modal).display !== 'none';\n                const loginBtn = document.querySelector('a.loginText');\n                const loginBtnVisible = loginBtn && loginBtn.offsetParent !== null && window.getComputedStyle(loginBtn).display !== 'none';\n\n                if (!modalVisible && !loginBtnVisible && window.location.href.includes('train-search')) {\n                    return 'LOGGED_IN:modal_closed';\n                }\n\n                // 2. Check for error messages\n                const error = document.querySelector('.alert-danger, .loginError, .toast-error, .ui-messages-error, .ui-toast-detail');\n                if (error && error.innerText && error.innerText.trim().length > 0 && error.offsetParent !== null) {\n                    return 'ERROR:' + error.innerText.trim();\n                }\n\n                // 3. Check if an OTP input is ACTUALLY present and visible in the DOM\n                const otpInput = document.querySelector('input#otp, input[type=\"text\"][placeholder*=\"OTP\" i], input[formcontrolname*=\"otp\" i]');\n                if (otpInput && otpInput.offsetParent !== null) {\n                    return 'WAITING_OTP';\n                }\n\n                // 4. Check if captcha is still visible and empty\n                const captchaInput = document.querySelector('input[formcontrolname*=\"captcha\" i], input#captcha, input#nlpAnswer, input[placeholder*=\"captcha\" i]');\n                if (captchaInput && captchaInput.offsetParent !== null && (!captchaInput.value || captchaInput.value.trim().length === 0)) {\n                    return 'CAPTCHA_EMPTY';\n                }\n\n                return 'LOADING (modal=' + (modalVisible ? 'visible' : 'hidden') + ')';\n            })()\n        ";

/// The script that sets a dropdown found by `selector` to `value` and signals the change; reports NOT_FOUND when there is no such dropdown.
pub open spec fn select_value_script_text(selector: Seq<char>, value: Seq<char>) -> Seq<char> {
    "\n        (() => {\n            const el = document.querySelector('"@
        + selector
        + "');\n            if (!el) return 'NOT_FOUND';\n            el.value = '"@
        + value
        + "';\n            el.dispatchEvent(new Event('change', { bubbles: true }));\n            return 'OK';\n        })()\n        "@
}

/// Sets a dropdown found by `selector` to `value` and signals the change; reports NOT_FOUND when there is no such dropdown.
pub fn select_value_script(selector: &str, value: &str) -> (r: String)
    ensures
        r@ == select_value_script_text(selector@, value@),
{
    let mut s = String::from_str("\n        (() => {\n            const el = document.querySelector('");
    s.append(selector);
    s.append("');\n            if (!el) return 'NOT_FOUND';\n            el.value = '");
    s.append(value);
    s.append("';\n            el.dispatchEvent(new Event('change', { bubbles: true }));\n            return 'OK';\n        })()\n        ");
    s
}

/// The script that empties the input found by `selector`.
pub open spec fn clear_input_script_text(selector: Seq<char>) -> Seq<char> {
    "document.querySelector('"@
        + selector
        + "').value = ''"@
}

/// Empties the input found by `selector`.
pub fn clear_input_script(selector: &str) -> (r: String)
    ensures
        r@ == clear_input_script_text(selector@),
{
    let mut s = String::from_str("document.querySelector('");
    s.append(selector);
    s.append("').value = ''");
    s
}

/// The script that clicks the element found by `selector`, when there is one.
pub open spec fn click_script_text(selector: Seq<char>) -> Seq<char> {
    "document.querySelector('"@
        + selector
        + "')?.click()"@
}

/// Clicks the element found by `selector`, when there is one.
pub fn click_script(selector: &str) -> (r: String)
    ensures
        r@ == click_script_text(selector@),
{
    let mut s = String::from_str("document.querySelector('");
    s.append(selector);
    s.append("')?.click()");
    s
}

/// The script that enters the journey date `date` in the date input, or picks its day in the calendar.
pub open spec fn journey_date_script_text(date: Seq<char>) -> Seq<char> {
    "\n        (() => {\n            const input = document.querySelector('input[formcontrolname=\"journeyDate\"], p-calendar input, input[placeholder*=\"Date\" i]');\n            if (input) {\n                const nativeInputValueSetter = Object.getOwnPropertyDescriptor(\n                    window.HTMLInputElement.prototype, 'value'\n                )?.set;\n                if (nativeInputValueSetter) {\n                    nativeInputValueSetter.call(input, "@
        + json_string_literal(date)
        + ");\n                } else {\n                    input.value = "@
        + json_string_literal(date)
        + ";\n                }\n                input.dispatchEvent(new Event('input', { bubbles: true }));\n                input.dispatchEvent(new Event('change', { bubbles: true }));\n                document.body.click();\n                return 'OK';\n            }\n\n            // On beta site: if there is a calendar date button, click it and try to find matching date cell\n            const dateBtn = document.querySelector('[role=\"button\"][aria-label=\"Select travel date\"]');\n            if (dateBtn) {\n                dateBtn.click();\n                // Extract day number (e.g. \"25\" from \"25-09-2026\" or \"2026-09-25\")\n                const dayMatch = ("@
        + json_string_literal(date)
        + ").match(/^(\\d{1,2})|-(\\d{1,2})-/);\n                const day = dayMatch ? (dayMatch[1] || dayMatch[2]) : '';\n                if (day) {\n                    const cells = Array.from(document.querySelectorAll('table.ui-datepicker-calendar td:not(.ui-state-disabled) a, table.ui-datepicker-calendar td:not(.ui-state-disabled) span'));\n                    const target = cells.find(c => c.innerText.trim() === String(parseInt(day, 10)));\n                    if (target) {\n                        target.click();\n                        return 'CLICKED_CALENDAR_DAY_' + day;\n                    }\n                }\n                // Close calendar if open\n                document.body.click();\n            }\n            return 'FALLBACK';\n        })()\n        "@
}

/// Enters the journey date `date` in the date input, or picks its day in the calendar.
pub fn journey_date_script(date: &str) -> (r: String)
    ensures
        r@ == journey_date_script_text(date@),
{
    let q_date = js_quote(date);
    let mut s = String::from_str("\n        (() => {\n            const input = document.querySelector('input[formcontrolname=\"journeyDate\"], p-calendar input, input[placeholder*=\"Date\" i]');\n            if (input) {\n                const nativeInputValueSetter = Object.getOwnPropertyDescriptor(\n                    window.HTMLInputElement.prototype, 'value'\n                )?.set;\n                if (nativeInputValueSetter) {\n                    nativeInputValueSetter.call(input, ");
    s.append(q_date.as_str());
    s.append(");\n                } else {\n                    input.value = ");
    s.append(q_date.as_str());
    s.append(";\n                }\n                input.dispatchEvent(new Event('input', { bubbles: true }));\n                input.dispatchEvent(new Event('change', { bubbles: true }));\n                document.body.click();\n                return 'OK';\n            }\n\n            // On beta site: if there is a calendar date button, click it and try to find matching date cell\n            const dateBtn = document.querySelector('[role=\"button\"][aria-label=\"Select travel date\"]');\n            if (dateBtn) {\n                dateBtn.click();\n                // Extract day number (e.g. \"25\" from \"25-09-2026\" or \"2026-09-25\")\n                const dayMatch = (");
    s.append(q_date.as_str());
    s.append(").match(/^(\\d{1,2})|-(\\d{1,2})-/);\n                const day = dayMatch ? (dayMatch[1] || dayMatch[2]) : '';\n                if (day) {\n                    const cells = Array.from(document.querySelectorAll('table.ui-datepicker-calendar td:not(.ui-state-disabled) a, table.ui-datepicker-calendar td:not(.ui-state-disabled) span'));\n                    const target = cells.find(c => c.innerText.trim() === String(parseInt(day, 10)));\n                    if (target) {\n                        target.click();\n                        return 'CLICKED_CALENDAR_DAY_' + day;\n                    }\n                }\n                // Close calendar if open\n                document.body.click();\n            }\n            return 'FALLBACK';\n        })()\n        ");
    s
}

/// The script that chooses the quota whose option text holds `name` or `code` (both uppercased), or sets the legacy quota dropdown to `value`.
pub open spec fn quota_choice_script_text(name: Seq<char>, code: Seq<char>, value: Seq<char>) -> Seq<char> {
    "\n        (() => {\n            // 1. Try combobox on beta site\n            const quotaCombobox = document.querySelector('[role=\"combobox\"][aria-label=\"Quota\"]');\n            if (quotaCombobox) {\n                quotaCombobox.click();\n                const options = Array.from(document.querySelectorAll('.custom-dropdown-panel .custom-option, [role=\"option\"].custom-option'));\n                const match = options.find(o => {\n                    const t = (o.innerText || '').toUpperCase();\n                    return t.includes("@
        + json_string_literal(name)
        + ") || t.includes("@
        + json_string_literal(code)
        + ");\n                });\n                if (match) {\n                    match.click();\n                    return 'CLICKED_COMBOBOX_QUOTA';\n                }\n            }\n\n            // 2. Try legacy select#journeyQuota\n            const select = document.querySelector('select#journeyQuota');\n            if (select) {\n                select.value = "@
        + json_string_literal(value)
        + ";\n                select.dispatchEvent(new Event('change', { bubbles: true }));\n                return 'SET_LEGACY_SELECT';\n            }\n            return 'QUOTA_NOT_CHANGED';\n        })()\n        "@
}

/// Chooses the quota whose option text holds `name` or `code` (both uppercased), or sets the legacy quota dropdown to `value`.
pub fn quota_choice_script(name: &str, code: &str, value: &str) -> (r: String)
    ensures
        r@ == quota_choice_script_text(name@, code@, value@),
{
    let q_name = js_quote(name);
    let q_code = js_quote(code);
    let q_value = js_quote(value);
    let mut s = String::from_str("\n        (() => {\n            // 1. Try combobox on beta site\n            const quotaCombobox = document.querySelector('[role=\"combobox\"][aria-label=\"Quota\"]');\n            if (quotaCombobox) {\n                quotaCombobox.click();\n                const options = Array.from(document.querySelectorAll('.custom-dropdown-panel .custom-option, [role=\"option\"].custom-option'));\n                const match = options.find(o => {\n                    const t = (o.innerText || '').toUpperCase();\n                    return t.includes(");
    s.append(q_name.as_str());
    s.append(") || t.includes(");
    s.append(q_code.as_str());
    s.append(");\n                });\n                if (match) {\n                    match.click();\n                    return 'CLICKED_COMBOBOX_QUOTA';\n                }\n            }\n\n            // 2. Try legacy select#journeyQuota\n            const select = document.querySelector('select#journeyQuota');\n            if (select) {\n                select.value = ");
    s.append(q_value.as_str());
    s.append(";\n                select.dispatchEvent(new Event('change', { bubbles: true }));\n                return 'SET_LEGACY_SELECT';\n            }\n            return 'QUOTA_NOT_CHANGED';\n        })()\n        ");
    s
}

/// The script that sets the class dropdown, where there is one, to `code`.
pub open spec fn class_choice_script_text(code: Seq<char>) -> Seq<char> {
    "\n        (() => {\n            const select = document.querySelector('select#journeyClass');\n            if (select) {\n                select.value = "@
        + json_string_literal(code)
        + ";\n                select.dispatchEvent(new Event('change', { bubbles: true }));\n                return 'SET_CLASS';\n            }\n            return 'NO_CLASS_DROPDOWN';\n        })()\n        "@
}

/// Sets the class dropdown, where there is one, to `code`.
pub fn class_choice_script(code: &str) -> (r: String)
    ensures
        r@ == class_choice_script_text(code@),
{
    let q_code = js_quote(code);
    let mut s = String::from_str("\n        (() => {\n            const select = document.querySelector('select#journeyClass');\n            if (select) {\n                select.value = ");
    s.append(q_code.as_str());
    s.append(";\n                select.dispatchEvent(new Event('change', { bubbles: true }));\n                return 'SET_CLASS';\n            }\n            return 'NO_CLASS_DROPDOWN';\n        })()\n        ");
    s
}

/// The script that opens the station box labelled `label` and types the station code `code` into the input found by `selector`.
pub open spec fn station_input_script_for_text(label: Seq<char>, selector: Seq<char>, code: Seq<char>) -> Seq<char> {
    "\n        (() => {\n            // 1. Try to find and click combobox on beta site\n            const combobox = document.querySelector('[role=\"combobox\"][aria-label=\""@
        + label
        + "\"]');\n            if (combobox) {\n                combobox.click();\n            }\n\n            // 2. Find input (new beta input or legacy input)\n            let input = document.querySelector('"@
        + selector
        + "');\n            if (!input) {\n                input = document.querySelector('input.station-search-input, input[placeholder*=\"search\" i], input[type=\"text\"]:focus');\n            }\n            if (input) {\n                input.focus();\n                input.value = "@
        + json_string_literal(code)
        + ";\n                input.dispatchEvent(new Event('input', { bubbles: true }));\n                input.dispatchEvent(new Event('change', { bubbles: true }));\n                return 'TYPED';\n            }\n            return 'INPUT_NOT_FOUND';\n        })()\n        "@
}

/// Opens the station box labelled `label` and types the station code `code` into the input found by `selector`.
pub fn station_input_script_for(label: &str, selector: &str, code: &str) -> (r: String)
    ensures
        r@ == station_input_script_for_text(label@, selector@, code@),
{
    let q_code = js_quote(code);
    let mut s = String::from_str("\n        (() => {\n            // 1. Try to find and click combobox on beta site\n            const combobox = document.querySelector('[role=\"combobox\"][aria-label=\"");
    s.append(label);
    s.append("\"]');\n            if (combobox) {\n                combobox.click();\n            }\n\n            // 2. Find input (new beta input or legacy input)\n            let input = document.querySelector('");
    s.append(selector);
    s.append("');\n            if (!input) {\n                input = document.querySelector('input.station-search-input, input[placeholder*=\"search\" i], input[type=\"text\"]:focus');\n            }\n            if (input) {\n                input.focus();\n                input.value = ");
    s.append(q_code.as_str());
    s.append(";\n                input.dispatchEvent(new Event('input', { bubbles: true }));\n                input.dispatchEvent(new Event('change', { bubbles: true }));\n                return 'TYPED';\n            }\n            return 'INPUT_NOT_FOUND';\n        })()\n        ");
    s
}

/// The script that picks the suggestion that names the station code `code`, else the first suggestion.
pub open spec fn station_choice_script_text(code: Seq<char>) -> Seq<char> {
    "\n        (() => {\n            const options = Array.from(document.querySelectorAll('"@
        + crate::selectors::search::AUTOCOMPLETE_OPTION@
        + "'));\n            const codeUpper = "@
        + json_string_literal(code)
        + ".toUpperCase();\n            const match = options.find(o => (o.innerText || '').toUpperCase().includes(codeUpper));\n            if (match) {\n                match.click();\n                return 'SELECTED_MATCH: ' + match.innerText.trim().replace(/\\n+/g, ' ');\n            }\n            if (options.length > 0) {\n                options[0].click();\n                return 'SELECTED_FIRST: ' + options[0].innerText.trim().replace(/\\n+/g, ' ');\n            }\n            return 'NO_SUGGESTIONS';\n        })()\n        "@
}

/// Picks the suggestion that names the station code `code`, else the first suggestion.
pub fn station_choice_script(code: &str) -> (r: String)
    ensures
        r@ == station_choice_script_text(code@),
{
    let q_code = js_quote(code);
    let mut s = String::from_str("\n        (() => {\n            const options = Array.from(document.querySelectorAll('");
    s.append(crate::selectors::search::AUTOCOMPLETE_OPTION);
    s.append("'));\n            const codeUpper = ");
    s.append(q_code.as_str());
    s.append(".toUpperCase();\n            const match = options.find(o => (o.innerText || '').toUpperCase().includes(codeUpper));\n            if (match) {\n                match.click();\n                return 'SELECTED_MATCH: ' + match.innerText.trim().replace(/\\n+/g, ' ');\n            }\n            if (options.length > 0) {\n                options[0].click();\n                return 'SELECTED_FIRST: ' + options[0].innerText.trim().replace(/\\n+/g, ' ');\n            }\n            return 'NO_SUGGESTIONS';\n        })()\n        ");
    s
}

/// The script that counts the train rows of the search results.
pub open spec fn train_count_script_text() -> Seq<char> {
    "document.querySelectorAll("@
        + json_string_literal(crate::selectors::search::TRAIN_ROW@)
        + ").length"@
}

/// Counts the train rows of the search results.
pub fn train_count_script() -> (r: String)
    ensures
        r@ == train_count_script_text(),
{
    let q_train_row = js_quote(crate::selectors::search::TRAIN_ROW);
    let mut s = String::from_str("document.querySelectorAll(");
    s.append(q_train_row.as_str());
    s.append(").length");
    s
}

/// The script that opens the availability of the train row that names `number`; reports NOT_FOUND when there is none.
pub open spec fn numbered_train_script_text(number: Seq<char>) -> Seq<char> {
    "\n                (() => {\n                    const rows = document.querySelectorAll("@
        + json_string_literal(crate::selectors::search::TRAIN_ROW@)
        + ");\n                    for (const row of rows) {\n                        const text = row.innerText || '';\n                        if (text.includes("@
        + json_string_literal(number)
        + ")) {\n                            // Click availability button or class card\n                            const avail = row.querySelector("@
        + json_string_literal(crate::selectors::search::AVAILABILITY_LINK@)
        + ");\n                            if (avail) {\n                                avail.click();\n                                return text.substring(0, 50).trim().replace(/\\n+/g, ' ');\n                            }\n                        }\n                    }\n                    return 'NOT_FOUND';\n                })()\n                "@
}

/// Opens the availability of the train row that names `number`; reports NOT_FOUND when there is none.
pub fn numbered_train_script(number: &str) -> (r: String)
    ensures
        r@ == numbered_train_script_text(number@),
{
    let q_train_row = js_quote(crate::selectors::search::TRAIN_ROW);
    let q_number = js_quote(number);
    let q_availability_link = js_quote(crate::selectors::search::AVAILABILITY_LINK);
    let mut s = String::from_str("\n                (() => {\n                    const rows = document.querySelectorAll(");
    s.append(q_train_row.as_str());
    s.append(");\n                    for (const row of rows) {\n                        const text = row.innerText || '';\n                        if (text.includes(");
    s.append(q_number.as_str());
    s.append(")) {\n                            // Click availability button or class card\n                            const avail = row.querySelector(");
    s.append(q_availability_link.as_str());
    s.append(");\n                            if (avail) {\n                                avail.click();\n                                return text.substring(0, 50).trim().replace(/\\n+/g, ' ');\n                            }\n                        }\n                    }\n                    return 'NOT_FOUND';\n                })()\n                ");
    s
}

/// The script that opens the availability of the first train neither departed nor cancelled, else of the first row; reports NONE when there are no rows.
pub open spec fn first_train_script_text() -> Seq<char> {
    "\n                (() => {\n                    const rows = document.querySelectorAll("@
        + json_string_literal(crate::selectors::search::TRAIN_ROW@)
        + ");\n                    for (const row of rows) {\n                        const text = row.innerText || '';\n                        if (!text.includes('TRAIN DEPARTED') && !text.includes('CANCELLED')) {\n                            const avail = row.querySelector("@
        + json_string_literal(crate::selectors::search::AVAILABILITY_LINK@)
        + ");\n                            if (avail) {\n                                avail.click();\n                                return text.substring(0, 50).trim().replace(/\\n+/g, ' ');\n                            }\n                        }\n                    }\n                    // Fallback to first row\n                    if (rows.length > 0) {\n                        const avail = rows[0].querySelector("@
        + json_string_literal(crate::selectors::search::AVAILABILITY_LINK@)
        + ");\n                        if (avail) avail.click();\n                        return rows[0].innerText.substring(0, 50).trim().replace(/\\n+/g, ' ');\n                    }\n                    return 'NONE';\n                })()\n                "@
}

/// Opens the availability of the first train neither departed nor cancelled, else of the first row; reports NONE when there are no rows.
pub fn first_train_script() -> (r: String)
    ensures
        r@ == first_train_script_text(),
{
    let q_train_row = js_quote(crate::selectors::search::TRAIN_ROW);
    let q_availability_link = js_quote(crate::selectors::search::AVAILABILITY_LINK);
    let mut s = String::from_str("\n                (() => {\n                    const rows = document.querySelectorAll(");
    s.append(q_train_row.as_str());
    s.append(");\n                    for (const row of rows) {\n                        const text = row.innerText || '';\n                        if (!text.includes('TRAIN DEPARTED') && !text.includes('CANCELLED')) {\n                            const avail = row.querySelector(");
    s.append(q_availability_link.as_str());
    s.append(");\n                            if (avail) {\n                                avail.click();\n                                return text.substring(0, 50).trim().replace(/\\n+/g, ' ');\n                            }\n                        }\n                    }\n                    // Fallback to first row\n                    if (rows.length > 0) {\n                        const avail = rows[0].querySelector(");
    s.append(q_availability_link.as_str());
    s.append(");\n                        if (avail) avail.click();\n                        return rows[0].innerText.substring(0, 50).trim().replace(/\\n+/g, ' ');\n                    }\n                    return 'NONE';\n                })()\n                ");
    s
}

/// The script that writes `value` into the input at position `index` among those found by `selector`.
pub open spec fn indexed_input_script_text(selector: Seq<char>, index: nat, value: Seq<char>) -> Seq<char> {
    "\n        (() => {\n            const inputs = document.querySelectorAll("@
        + json_string_literal(selector)
        + ");\n            if (inputs["@
        + decimal(index)
        + "]) {\n                const nativeSetter = Object.getOwnPropertyDescriptor(\n                    window.HTMLInputElement.prototype, 'value'\n                )?.set;\n                if (nativeSetter) {\n                    nativeSetter.call(inputs["@
        + decimal(index)
        + "], "@
        + json_string_literal(value)
        + ");\n                } else {\n                    inputs["@
        + decimal(index)
        + "].value = "@
        + json_string_literal(value)
        + ";\n                }\n                inputs["@
        + decimal(index)
        + "].dispatchEvent(new Event('input', { bubbles: true }));\n                return 'OK';\n            }\n            return 'NOT_FOUND';\n        })()\n        "@
}

/// Writes `value` into the input at position `index` among those found by `selector`.
pub fn indexed_input_script(selector: &str, index: usize, value: &str) -> (r: String)
    ensures
        r@ == indexed_input_script_text(selector@, index as nat, value@),
{
    let q_selector = js_quote(selector);
    let q_value = js_quote(value);
    let mut s = String::from_str("\n        (() => {\n            const inputs = document.querySelectorAll(");
    s.append(q_selector.as_str());
    s.append(");\n            if (inputs[");
    append_decimal(&mut s, index as u64);
    s.append("]) {\n                const nativeSetter = Object.getOwnPropertyDescriptor(\n                    window.HTMLInputElement.prototype, 'value'\n                )?.set;\n                if (nativeSetter) {\n                    nativeSetter.call(inputs[");
    append_decimal(&mut s, index as u64);
    s.append("], ");
    s.append(q_value.as_str());
    s.append(");\n                } else {\n                    inputs[");
    append_decimal(&mut s, index as u64);
    s.append("].value = ");
    s.append(q_value.as_str());
    s.append(";\n                }\n                inputs[");
    append_decimal(&mut s, index as u64);
    s.append("].dispatchEvent(new Event('input', { bubbles: true }));\n                return 'OK';\n            }\n            return 'NOT_FOUND';\n        })()\n        ");
    s
}

/// The script that sets the dropdown at position `index` among those found by `selector` to `value`.
pub open spec fn indexed_select_script_text(selector: Seq<char>, index: nat, value: Seq<char>) -> Seq<char> {
    "\n        (() => {\n            const selects = document.querySelectorAll("@
        + json_string_literal(selector)
        + ");\n            if (selects["@
        + decimal(index)
        + "]) {\n                selects["@
        + decimal(index)
        + "].value = "@
        + json_string_literal(value)
        + ";\n                selects["@
        + decimal(index)
        + "].dispatchEvent(new Event('change', { bubbles: true }));\n                return 'OK';\n            }\n            return 'NOT_FOUND';\n        })()\n        "@
}

/// Sets the dropdown at position `index` among those found by `selector` to `value`.
pub fn indexed_select_script(selector: &str, index: usize, value: &str) -> (r: String)
    ensures
        r@ == indexed_select_script_text(selector@, index as nat, value@),
{
    let q_selector = js_quote(selector);
    let q_value = js_quote(value);
    let mut s = String::from_str("\n        (() => {\n            const selects = document.querySelectorAll(");
    s.append(q_selector.as_str());
    s.append(");\n            if (selects[");
    append_decimal(&mut s, index as u64);
    s.append("]) {\n                selects[");
    append_decimal(&mut s, index as u64);
    s.append("].value = ");
    s.append(q_value.as_str());
    s.append(";\n                selects[");
    append_decimal(&mut s, index as u64);
    s.append("].dispatchEvent(new Event('change', { bubbles: true }));\n                return 'OK';\n            }\n            return 'NOT_FOUND';\n        })()\n        ");
    s
}

/// The script that reads whether the auto-upgrade box is ticked.
pub open spec fn auto_upgrade_state_script_text() -> Seq<char> {
    "document.querySelector("@
        + json_string_literal(crate::selectors::booking::AUTO_UPGRADE_CHECKBOX@)
        + ")?.checked || false"@
}

/// Reads whether the auto-upgrade box is ticked.
pub fn auto_upgrade_state_script() -> (r: String)
    ensures
        r@ == auto_upgrade_state_script_text(),
{
    let q_auto_upgrade_checkbox = js_quote(crate::selectors::booking::AUTO_UPGRADE_CHECKBOX);
    let mut s = String::from_str("document.querySelector(");
    s.append(q_auto_upgrade_checkbox.as_str());
    s.append(")?.checked || false");
    s
}

/// The script that writes the UPI id `vpa` into the UPI id input.
pub open spec fn vpa_script_text(vpa: Seq<char>) -> Seq<char> {
    "\n                (() => {\n                    // Try the standard VPA input\n                    let input = document.querySelector('"@
        + crate::selectors::payment::UPI_VPA_INPUT@
        + "');\n                    // Fallback: try any input with placeholder containing 'upi' or 'vpa'\n                    if (!input) {\n                        input = document.querySelector('input[placeholder*=\"UPI\"], input[placeholder*=\"VPA\"], input[placeholder*=\"upi\"]');\n                    }\n                    if (input) {\n                        const nativeSetter = Object.getOwnPropertyDescriptor(\n                            window.HTMLInputElement.prototype, 'value'\n                        ).set;\n                        nativeSetter.call(input, '"@
        + vpa
        + "');\n                        input.dispatchEvent(new Event('input', { bubbles: true }));\n                        input.dispatchEvent(new Event('change', { bubbles: true }));\n                        return 'OK';\n                    }\n                    return 'NOT_FOUND';\n                })()\n                "@
}

/// Writes the UPI id `vpa` into the UPI id input.
pub fn vpa_script(vpa: &str) -> (r: String)
    ensures
        r@ == vpa_script_text(vpa@),
{
    let mut s = String::from_str("\n                (() => {\n                    // Try the standard VPA input\n                    let input = document.querySelector('");
    s.append(crate::selectors::payment::UPI_VPA_INPUT);
    s.append("');\n                    // Fallback: try any input with placeholder containing 'upi' or 'vpa'\n                    if (!input) {\n                        input = document.querySelector('input[placeholder*=\"UPI\"], input[placeholder*=\"VPA\"], input[placeholder*=\"upi\"]');\n                    }\n                    if (input) {\n                        const nativeSetter = Object.getOwnPropertyDescriptor(\n                            window.HTMLInputElement.prototype, 'value'\n                        ).set;\n                        nativeSetter.call(input, '");
    s.append(vpa);
    s.append("');\n                        input.dispatchEvent(new Event('input', { bubbles: true }));\n                        input.dispatchEvent(new Event('change', { bubbles: true }));\n                        return 'OK';\n                    }\n                    return 'NOT_FOUND';\n                })()\n                ");
    s
}

/// The script that clicks the pay button.
pub open spec fn pay_script_text() -> Seq<char> {
    "\n        (() => {\n            let btn = document.querySelector('"@
        + crate::selectors::payment::PAY_BUTTON@
        + "');\n            if (!btn) {\n                // Fallback: try any submit-like button in the payment section\n                btn = document.querySelector('button[type=\"submit\"], button.btn-primary.pay, input[type=\"submit\"]');\n            }\n            if (btn) {\n                btn.click();\n                return 'CLICKED';\n            }\n            return 'NOT_FOUND';\n        })()\n        "@
}

/// Clicks the pay button.
pub fn pay_script() -> (r: String)
    ensures
        r@ == pay_script_text(),
{
    let mut s = String::from_str("\n        (() => {\n            let btn = document.querySelector('");
    s.append(crate::selectors::payment::PAY_BUTTON);
    s.append("');\n            if (!btn) {\n                // Fallback: try any submit-like button in the payment section\n                btn = document.querySelector('button[type=\"submit\"], button.btn-primary.pay, input[type=\"submit\"]');\n            }\n            if (btn) {\n                btn.click();\n                return 'CLICKED';\n            }\n            return 'NOT_FOUND';\n        })()\n        ");
    s
}

/// The script that writes `username` and `password` into the login dialog's inputs and signals the changes (used to inspect the login dialog).
pub open spec fn credentials_script_text(username: Seq<char>, password: Seq<char>) -> Seq<char> {
    "\n        (() => {\n            const uInput = document.querySelector('input#username, input[formcontrolname=\"userid\"]');\n            const pInput = document.querySelector('input#password, input[formcontrolname=\"password\"]');\n            if (!uInput || !pInput) {\n                return 'INPUTS_NOT_FOUND: u=' + !!uInput + ', p=' + !!pInput;\n            }\n\n            const nativeSetter = Object.getOwnPropertyDescriptor(window.HTMLInputElement.prototype, 'value')?.set;\n            if (nativeSetter) {\n                nativeSetter.call(uInput, "@
        + json_string_literal(username)
        + ");\n                nativeSetter.call(pInput, "@
        + json_string_literal(password)
        + ");\n            } else {\n                uInput.value = "@
        + json_string_literal(username)
        + ";\n                pInput.value = "@
        + json_string_literal(password)
        + ";\n            }\n\n            uInput.dispatchEvent(new Event('input', { bubbles: true }));\n            uInput.dispatchEvent(new Event('change', { bubbles: true }));\n            uInput.dispatchEvent(new Event('blur', { bubbles: true }));\n\n            pInput.dispatchEvent(new Event('input', { bubbles: true }));\n            pInput.dispatchEvent(new Event('change', { bubbles: true }));\n            pInput.dispatchEvent(new Event('blur', { bubbles: true }));\n\n            return 'FILLED';\n        })()\n        "@
}

/// Writes `username` and `password` into the login dialog's inputs and signals the changes (used to inspect the login dialog).
pub fn credentials_script(username: &str, password: &str) -> (r: String)
    ensures
        r@ == credentials_script_text(username@, password@),
{
    let q_username = js_quote(username);
    let q_password = js_quote(password);
    let mut s = String::from_str("\n        (() => {\n            const uInput = document.querySelector('input#username, input[formcontrolname=\"userid\"]');\n            const pInput = document.querySelector('input#password, input[formcontrolname=\"password\"]');\n            if (!uInput || !pInput) {\n                return 'INPUTS_NOT_FOUND: u=' + !!uInput + ', p=' + !!pInput;\n            }\n\n            const nativeSetter = Object.getOwnPropertyDescriptor(window.HTMLInputElement.prototype, 'value')?.set;\n            if (nativeSetter) {\n                nativeSetter.call(uInput, ");
    s.append(q_username.as_str());
    s.append(");\n                nativeSetter.call(pInput, ");
    s.append(q_password.as_str());
    s.append(");\n            } else {\n                uInput.value = ");
    s.append(q_username.as_str());
    s.append(";\n                pInput.value = ");
    s.append(q_password.as_str());
    s.append(";\n            }\n\n            uInput.dispatchEvent(new Event('input', { bubbles: true }));\n            uInput.dispatchEvent(new Event('change', { bubbles: true }));\n            uInput.dispatchEvent(new Event('blur', { bubbles: true }));\n\n            pInput.dispatchEvent(new Event('input', { bubbles: true }));\n            pInput.dispatchEvent(new Event('change', { bubbles: true }));\n            pInput.dispatchEvent(new Event('blur', { bubbles: true }));\n\n            return 'FILLED';\n        })()\n        ");
    s
}

} // verus!
