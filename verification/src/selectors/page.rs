//! General page indicators.
use vstd::prelude::*;

verus! {

/// Loading spinner / overlay
pub const LOADING_SPINNER: &'static str = "div.loadingText";
/// Error message toast/alert
pub const ERROR_ALERT: &'static str = "div.alert-danger";
/// Success message toast/alert
pub const SUCCESS_ALERT: &'static str = "div.alert-success";
/// Session timeout modal
pub const SESSION_TIMEOUT: &'static str = "div.modal-content";
/// Any modal close button
pub const MODAL_CLOSE: &'static str = "button.close";

} // verus!
