use bookkar::booking::{BookingStatus, PaymentMethod, Quota, TrainClass};
use bookkar::passenger::{BerthPreference, Gender, Passenger};

const CLASSES: [TrainClass; 8] = [
    TrainClass::FirstAC,
    TrainClass::SecondAC,
    TrainClass::ThirdAC,
    TrainClass::ThirdACEconomy,
    TrainClass::ChairCar,
    TrainClass::ExecChairCar,
    TrainClass::Sleeper,
    TrainClass::SecondSitting,
];

#[test]
fn class_codes_match_the_site() {
    let codes: Vec<&str> = CLASSES.iter().map(|c| c.irctc_value()).collect();
    assert_eq!(codes, vec!["1A", "2A", "3A", "3E", "CC", "EC", "SL", "2S"]);
}

#[test]
fn class_labels() {
    assert_eq!(TrainClass::FirstAC.to_string(), "First AC (1A)");
    assert_eq!(TrainClass::ThirdACEconomy.to_string(), "Third AC Economy (3E)");
    assert_eq!(TrainClass::ChairCar.to_string(), "AC Chair Car (CC)");
    assert_eq!(TrainClass::ExecChairCar.to_string(), "Executive Chair Car (EC)");
    assert_eq!(TrainClass::SecondSitting.to_string(), "Second Sitting (2S)");
}

#[test]
fn ac_classes_open_at_ten_others_at_eleven() {
    for c in CLASSES.iter() {
        let non_ac = matches!(c, TrainClass::Sleeper | TrainClass::SecondSitting);
        assert_eq!(c.is_ac(), !non_ac);
        assert_eq!(c.tatkal_hour(), if non_ac { 11 } else { 10 });
    }
}

#[test]
fn quota_codes_and_names() {
    assert_eq!(Quota::Tatkal.irctc_value(), "TQ");
    assert_eq!(Quota::PremiumTatkal.irctc_value(), "PT");
    assert_eq!(Quota::Tatkal.to_string(), "Tatkal");
    assert_eq!(Quota::PremiumTatkal.to_string(), "Premium Tatkal");
}

#[test]
fn payment_descriptions() {
    let upi = PaymentMethod::Upi { vpa: "asha@okbank".to_string() };
    assert_eq!(upi.to_string(), "UPI (asha@okbank)");
    assert_eq!(PaymentMethod::IrctcEwallet.to_string(), "IRCTC eWallet");
}

#[test]
fn status_lines() {
    assert_eq!(BookingStatus::Configured.to_string(), "⚙️  Configured");
    assert_eq!(BookingStatus::WaitingForPaymentApproval.to_string(), "⏳ Approve payment on your app");
    assert_eq!(BookingStatus::Success.to_string(), "🎉 Booking confirmed!");
    let failed = BookingStatus::Failed { reason: "timeout".to_string() };
    assert_eq!(failed.to_string(), "❌ Failed: timeout");
}

#[test]
fn gender_and_berth_codes() {
    assert_eq!(Gender::Male.irctc_value(), "M");
    assert_eq!(Gender::Female.irctc_value(), "F");
    assert_eq!(Gender::Transgender.irctc_value(), "T");
    assert_eq!(Gender::Transgender.to_string(), "Transgender");
    assert_eq!(BerthPreference::Lower.irctc_value(), "LB");
    assert_eq!(BerthPreference::Middle.irctc_value(), "MB");
    assert_eq!(BerthPreference::Upper.irctc_value(), "UB");
    assert_eq!(BerthPreference::SideLower.irctc_value(), "SL");
    assert_eq!(BerthPreference::SideUpper.irctc_value(), "SU");
    assert_eq!(BerthPreference::NoPreference.irctc_value(), "No Preference");
    assert_eq!(BerthPreference::SideUpper.to_string(), "Side Upper");
}

#[test]
fn passenger_summary() {
    let p = Passenger {
        name: "Asha Rao".to_string(),
        age: 34,
        gender: Gender::Female,
        berth_preference: BerthPreference::SideLower,
        nationality: None,
    };
    assert_eq!(p.to_string(), "Asha Rao | Female | 34 | Side Lower");
    let infant = Passenger { age: 0, ..p.clone() };
    assert_eq!(infant.to_string(), "Asha Rao | Female | 0 | Side Lower");
    let elder = Passenger { age: 255, ..p };
    assert_eq!(elder.to_string(), "Asha Rao | Female | 255 | Side Lower");
}
