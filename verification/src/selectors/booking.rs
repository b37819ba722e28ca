//! Selectors of the passenger form.
use vstd::prelude::*;

verus! {

/// Passenger name input (indexed per passenger)
pub const PASSENGER_NAME: &'static str = "input[formcontrolname='passengerName']";
/// Passenger age input
pub const PASSENGER_AGE: &'static str = "input[formcontrolname='passengerAge']";
/// Passenger gender dropdown
pub const PASSENGER_GENDER: &'static str = "select[formcontrolname='passengerGender']";
/// Berth preference dropdown
pub const BERTH_PREFERENCE: &'static str = "select[formcontrolname='passengerBerthChoice']";
/// Nationality input (auto-filled as "Indian" usually)
pub const NATIONALITY: &'static str = "select[formcontrolname='passengerNationality']";
/// "Add Passenger" link/button
pub const ADD_PASSENGER_BUTTON: &'static str = "span.add_passenger";
/// Auto-upgrade checkbox
pub const AUTO_UPGRADE_CHECKBOX: &'static str = "input#autoUpgradation";
/// "Continue" / submit passenger details button
pub const CONTINUE_BUTTON: &'static str = "button.train_Search.btnDefault";
/// Aadhaar OTP input field
pub const AADHAAR_OTP_INPUT: &'static str = "input[formcontrolname='aadhaarOtp']";
/// Aadhaar OTP verify/submit button
pub const AADHAAR_VERIFY_BUTTON: &'static str = "button.btn.btn-primary";
/// Master list passenger selection (if using pre-saved passengers)
pub const MASTER_LIST_CHECKBOX: &'static str = "input[type='checkbox'].master-passenger";

} // verus!
