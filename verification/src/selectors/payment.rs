//! Selectors of the payment page.
use vstd::prelude::*;

verus! {

/// UPI payment radio button / option
pub const UPI_OPTION: &'static str = "div.bank-type";
/// UPI fallback — often a specific bank type container
pub const UPI_OPTION_ALT: &'static str = "div[class*='upi']";
/// eWallet payment option
pub const EWALLET_OPTION: &'static str = "div.bank-type";
/// UPI VPA (Virtual Payment Address) input
pub const UPI_VPA_INPUT: &'static str = "input[formcontrolname='vpa']";
/// Pay / submit payment button
pub const PAY_BUTTON: &'static str = "button.btn.btn-primary.pay-btn";
/// Payment processing overlay/indicator
pub const PAYMENT_PROCESSING: &'static str = "div.payment-processing";
/// PNR number on confirmation page
pub const CONFIRMATION_PNR: &'static str = "td.pnr-val";
/// Booking success message container
pub const SUCCESS_CONTAINER: &'static str = "div.booking-confirmed";
/// Alternative PNR display
pub const PNR_TEXT: &'static str = "span.pnr-number";

} // verus!
