//! Selectors of the login dialog.
use vstd::prelude::*;

verus! {

/// Login trigger button / link to open modal dialog
pub const LOGIN_TRIGGER: &'static str = "button.btn-login, a.loginText, button[aria-label*='Login'], a[aria-label*='Login']";
/// Username text input on the login page / dialog
pub const USERNAME_INPUT: &'static str = "input#username, input[formcontrolname='userid']";
/// Password text input on the login page / dialog
pub const PASSWORD_INPUT: &'static str = "input#password, input[formcontrolname='password']";
/// The main login submit button
pub const LOGIN_BUTTON: &'static str = ".login-dialog button[type='submit'], button.btn-action.btn-login[type='submit'], button.btn-action.btn-login, app-login button[type='submit']";
/// CAPTCHA image element (may not always be present)
pub const CAPTCHA_IMAGE: &'static str = "img.captcha-img, img[src*='captcha'], .captcha-img, app-captcha";
/// CAPTCHA text input
pub const CAPTCHA_INPUT: &'static str = "input[formcontrolname='captcha'], input#captcha, input#nlpAnswer, input[placeholder*='captcha' i]";
/// OTP input field (appears after login submit)
pub const OTP_INPUT: &'static str = "input#otp";
/// OTP submit button
pub const OTP_SUBMIT: &'static str = "button.btn.btn-primary";
/// Element that indicates successful login (e.g., username badge, user menu, logout)
pub const LOGGED_IN_INDICATOR: &'static str = ".nav-link-1, a.logoutText, span.user-name, a.dropdown-toggle.profile, a.loginText";
/// Login modal container
pub const MODAL_CONTAINER: &'static str = "p-dialog#newLogin, .login-dialog, app-login, .modal-dialog";
/// Login page URL fragment
pub const LOGIN_URL: &'static str = "/eticket/train-search";

} // verus!
