use bookkar::booking::{PaymentMethod, Quota, TrainClass};
use bookkar::config::{
    berth_for_menu_index, class_for_menu_index, gender_for_menu_index, may_add_passenger, quota_for_menu_index,
    saved_config_from, train_number_choice, ConfigError, SavedConfig, SavedPassenger, MAX_PASSENGERS,
};
use bookkar::config::day_month_year_date;
use bookkar::date::JourneyDate;
use bookkar::passenger::{BerthPreference, Gender, Passenger};

fn saved() -> SavedConfig {
    SavedConfig {
        from_station: "NDLS".to_string(),
        to_station: "MAS".to_string(),
        journey_date: "25-12-2025".to_string(),
        class: "3a".to_string(),
        quota: "tatkal".to_string(),
        train_number: Some("12622".to_string()),
        passengers: vec![
            SavedPassenger {
                name: "Asha".to_string(),
                age: 34,
                gender: "female".to_string(),
                berth_preference: "side lower".to_string(),
            },
            SavedPassenger {
                name: "Ravi".to_string(),
                age: 36,
                gender: "m".to_string(),
                berth_preference: "window".to_string(),
            },
        ],
        payment_method: "upi".to_string(),
        upi_id: Some("asha@okbank".to_string()),
        auto_upgrade: true,
    }
}

#[test]
fn saved_config_becomes_booking_config() {
    let b = saved().to_booking_config("asha01", "secret").unwrap();
    assert_eq!(b.username, "asha01");
    assert_eq!(b.password, "secret");
    assert_eq!(b.from_station, "NDLS");
    assert_eq!(b.to_station, "MAS");
    assert_eq!(b.journey_date, JourneyDate { year: 2025, month: 12, day: 25 });
    assert_eq!(b.class, TrainClass::ThirdAC);
    assert_eq!(b.quota, Quota::Tatkal);
    assert_eq!(b.train_number, Some("12622".to_string()));
    assert_eq!(b.passengers.len(), 2);
    assert_eq!(b.passengers[0].gender, Gender::Female);
    assert_eq!(b.passengers[0].berth_preference, BerthPreference::SideLower);
    assert_eq!(b.passengers[0].nationality, None);
    assert_eq!(b.passengers[1].gender, Gender::Male);
    assert_eq!(b.passengers[1].berth_preference, BerthPreference::NoPreference);
    assert_eq!(b.passengers[1].age, 36);
    assert_eq!(b.payment, PaymentMethod::Upi { vpa: "asha@okbank".to_string() });
    assert!(b.auto_upgrade);
}

#[test]
fn year_first_dates_are_accepted() {
    let mut c = saved();
    c.journey_date = "2026-01-05".to_string();
    let b = c.to_booking_config("u", "p").unwrap();
    assert_eq!(b.journey_date, JourneyDate { year: 2026, month: 1, day: 5 });
}

#[test]
fn other_spellings_of_choices() {
    let mut c = saved();
    c.class = "ec".to_string();
    c.quota = "Premium_Tatkal".to_string();
    c.payment_method = "Wallet".to_string();
    c.upi_id = None;
    let b = c.to_booking_config("u", "p").unwrap();
    assert_eq!(b.class, TrainClass::ExecChairCar);
    assert_eq!(b.quota, Quota::PremiumTatkal);
    assert_eq!(b.payment, PaymentMethod::IrctcEwallet);
    let mut c = saved();
    c.quota = "premium".to_string();
    c.upi_id = None;
    let b = c.to_booking_config("u", "p").unwrap();
    assert_eq!(b.quota, Quota::PremiumTatkal);
    assert_eq!(b.payment, PaymentMethod::Upi { vpa: String::new() });
}

#[test]
fn uppercasing_follows_unicode() {
    // 'ſ' (long s) uppercases to 'S', so "ſl" names the Sleeper class.
    let mut c = saved();
    c.class = "ſl".to_string();
    assert_eq!(c.to_booking_config("u", "p").unwrap().class, TrainClass::Sleeper);
}

#[test]
fn unknown_class() {
    let mut c = saved();
    c.class = "4a".to_string();
    let e = c.to_booking_config("u", "p").unwrap_err();
    assert_eq!(e, ConfigError::UnknownClass("4A".to_string()));
    assert_eq!(e.message(), "Unknown class: 4A");
}

#[test]
fn unknown_quota() {
    let mut c = saved();
    c.quota = "general".to_string();
    let e = c.to_booking_config("u", "p").unwrap_err();
    assert_eq!(e, ConfigError::UnknownQuota("GENERAL".to_string()));
    assert_eq!(e.message(), "Unknown quota: GENERAL");
}

#[test]
fn unknown_payment_method() {
    let mut c = saved();
    c.payment_method = "card".to_string();
    let e = c.to_booking_config("u", "p").unwrap_err();
    assert_eq!(e, ConfigError::UnknownPaymentMethod("CARD".to_string()));
    assert_eq!(e.message(), "Unknown payment method: CARD");
}

#[test]
fn invalid_journey_date() {
    let mut c = saved();
    c.journey_date = "31-02-2025".to_string();
    let e = c.to_booking_config("u", "p").unwrap_err();
    assert!(matches!(e, ConfigError::InvalidJourneyDate(_)));
    assert!(!e.message().is_empty());
}

#[test]
fn unknown_gender() {
    let mut c = saved();
    c.passengers[1].gender = "x".to_string();
    let e = c.to_booking_config("u", "p").unwrap_err();
    assert_eq!(e, ConfigError::UnknownGender("X".to_string()));
    assert_eq!(e.message(), "Unknown gender: X");
}

#[test]
fn first_unknown_gender_is_reported() {
    let mut c = saved();
    c.passengers[0].gender = "q".to_string();
    c.passengers[1].gender = "z".to_string();
    assert_eq!(c.to_booking_config("u", "p").unwrap_err(), ConfigError::UnknownGender("Q".to_string()));
}

#[test]
fn error_order_class_quota_payment_date_gender() {
    let mut c = saved();
    c.class = "zz".to_string();
    c.quota = "zz".to_string();
    c.payment_method = "zz".to_string();
    c.journey_date = "never".to_string();
    c.passengers[0].gender = "zz".to_string();
    assert!(matches!(c.to_booking_config("u", "p").unwrap_err(), ConfigError::UnknownClass(_)));
    c.class = "SL".to_string();
    assert!(matches!(c.to_booking_config("u", "p").unwrap_err(), ConfigError::UnknownQuota(_)));
    c.quota = "TQ".to_string();
    assert!(matches!(c.to_booking_config("u", "p").unwrap_err(), ConfigError::UnknownPaymentMethod(_)));
    c.payment_method = "EWALLET".to_string();
    // The date is checked before the passengers' genders.
    assert!(matches!(c.to_booking_config("u", "p").unwrap_err(), ConfigError::InvalidJourneyDate(_)));
    c.journey_date = "01-01-2026".to_string();
    assert!(matches!(c.to_booking_config("u", "p").unwrap_err(), ConfigError::UnknownGender(_)));
}

#[test]
fn date_parser_reports_chrono_outcomes() {
    assert_eq!(day_month_year_date("05-09-2015"), Ok(JourneyDate { year: 2015, month: 9, day: 5 }));
    assert_eq!(day_month_year_date("29-02-2024"), Ok(JourneyDate { year: 2024, month: 2, day: 29 }));
    assert!(day_month_year_date("29-02-2023").is_err());
    assert!(day_month_year_date("2024-02-29").is_err());
    let mut c = saved();
    c.journey_date = "2024-02-29".to_string();
    assert_eq!(c.to_booking_config("u", "p").unwrap().journey_date, JourneyDate { year: 2024, month: 2, day: 29 });
    c.journey_date = "2023-02-29".to_string();
    assert!(c.to_booking_config("u", "p").is_err());
}

#[test]
fn menu_positions() {
    assert_eq!(class_for_menu_index(0), TrainClass::FirstAC);
    assert_eq!(class_for_menu_index(6), TrainClass::Sleeper);
    assert_eq!(class_for_menu_index(7), TrainClass::SecondSitting);
    assert_eq!(class_for_menu_index(99), TrainClass::ThirdAC);
    assert_eq!(quota_for_menu_index(0), Quota::Tatkal);
    assert_eq!(quota_for_menu_index(1), Quota::PremiumTatkal);
    assert_eq!(gender_for_menu_index(1), Gender::Female);
    assert_eq!(gender_for_menu_index(2), Gender::Transgender);
    assert_eq!(gender_for_menu_index(7), Gender::Male);
    assert_eq!(berth_for_menu_index(4), BerthPreference::SideUpper);
    assert_eq!(berth_for_menu_index(5), BerthPreference::NoPreference);
    assert_eq!(berth_for_menu_index(0), BerthPreference::Lower);
}

#[test]
fn train_number_answers() {
    assert_eq!(train_number_choice("any".to_string()), None);
    assert_eq!(train_number_choice("ANY".to_string()), None);
    assert_eq!(train_number_choice("12951".to_string()), Some("12951".to_string()));
    assert_eq!(train_number_choice("any train".to_string()), Some("any train".to_string()));
}

#[test]
fn at_most_six_passengers() {
    assert_eq!(MAX_PASSENGERS, 6);
    assert!(may_add_passenger(0));
    assert!(may_add_passenger(5));
    assert!(!may_add_passenger(6));
}

#[test]
fn saved_journey_reads_back() {
    let passengers = vec![
        Passenger {
            name: "Asha".to_string(),
            age: 34,
            gender: Gender::Female,
            berth_preference: BerthPreference::NoPreference,
            nationality: None,
        },
        Passenger {
            name: "Ravi".to_string(),
            age: 3,
            gender: Gender::Transgender,
            berth_preference: BerthPreference::SideUpper,
            nationality: None,
        },
    ];
    let payment = PaymentMethod::Upi { vpa: "ravi@upi".to_string() };
    let c = saved_config_from(
        &"NDLS".to_string(),
        &"MAS".to_string(),
        &"25-12-2025".to_string(),
        TrainClass::SecondSitting,
        Quota::PremiumTatkal,
        &None,
        &passengers,
        &payment,
        false,
    );
    assert_eq!(c.class, "2S");
    assert_eq!(c.quota, "PT");
    assert_eq!(c.payment_method, "UPI");
    assert_eq!(c.upi_id, Some("ravi@upi".to_string()));
    assert_eq!(c.passengers[0].gender, "F");
    assert_eq!(c.passengers[0].berth_preference, "No Preference");
    let b = c.to_booking_config("u", "p").unwrap();
    assert_eq!(b.class, TrainClass::SecondSitting);
    assert_eq!(b.quota, Quota::PremiumTatkal);
    assert_eq!(b.passengers, passengers);
    assert_eq!(b.payment, payment);
    assert_eq!(b.train_number, None);
    assert!(!b.auto_upgrade);
    let w = saved_config_from(
        &"A".to_string(),
        &"B".to_string(),
        &"2025-01-02".to_string(),
        TrainClass::FirstAC,
        Quota::Tatkal,
        &Some("1".to_string()),
        &vec![],
        &PaymentMethod::IrctcEwallet,
        true,
    );
    assert_eq!(w.payment_method, "EWALLET");
    assert_eq!(w.upi_id, None);
    assert_eq!(w.to_booking_config("u", "p").unwrap().payment, PaymentMethod::IrctcEwallet);
}

#[test]
fn every_saved_choice_reads_back() {
    let mut passengers = Vec::new();
    for g in 0..3 {
        for b in 0..6 {
            passengers.push(Passenger {
                name: format!("P{g}{b}"),
                age: (10 * g + b) as u8,
                gender: gender_for_menu_index(g),
                berth_preference: berth_for_menu_index(b),
                nationality: None,
            });
        }
    }
    for class_index in 0..8 {
        for quota_index in 0..2 {
            let class = class_for_menu_index(class_index);
            let quota = quota_for_menu_index(quota_index);
            let payment = if class_index % 2 == 0 {
                PaymentMethod::Upi { vpa: "x@y".to_string() }
            } else {
                PaymentMethod::IrctcEwallet
            };
            let c = saved_config_from(
                &"NDLS".to_string(),
                &"BCT".to_string(),
                &"01-03-2026".to_string(),
                class.clone(),
                quota.clone(),
                &None,
                &passengers,
                &payment,
                true,
            );
            let b = c.to_booking_config("me", "secret").unwrap();
            assert_eq!(b.class, class);
            assert_eq!(b.quota, quota);
            assert_eq!(b.passengers, passengers);
            assert_eq!(b.payment, payment);
            assert_eq!(b.journey_date, JourneyDate { year: 2026, month: 3, day: 1 });
            assert_eq!((b.username.as_str(), b.password.as_str()), ("me", "secret"));
        }
    }
}

#[test]
fn both_spellings_of_a_date_give_the_same_booking() {
    let mut day_first = saved();
    day_first.journey_date = "25-12-2025".to_string();
    let mut year_first = saved();
    year_first.journey_date = "2025-12-25".to_string();
    let a = day_first.to_booking_config("u", "p").unwrap();
    let b = year_first.to_booking_config("u", "p").unwrap();
    assert_eq!(a, b);
    assert_eq!(a.journey_date, JourneyDate { year: 2025, month: 12, day: 25 });
    let mut slashed = saved();
    slashed.journey_date = "25/12/2025".to_string();
    assert!(matches!(slashed.to_booking_config("u", "p"), Err(ConfigError::InvalidJourneyDate(_))));
}

#[test]
fn lowercase_ascii_codes_are_read_as_uppercase() {
    let mut c = saved();
    c.class = "sl".to_string();
    c.quota = "tq".to_string();
    c.payment_method = "ewallet".to_string();
    c.passengers[0].gender = "m".to_string();
    c.passengers[0].berth_preference = "no preference".to_string();
    let b = c.to_booking_config("u", "p").unwrap();
    assert_eq!(b.class, TrainClass::Sleeper);
    assert_eq!(b.quota, Quota::Tatkal);
    assert_eq!(b.payment, PaymentMethod::IrctcEwallet);
    assert_eq!(b.passengers[0].gender, Gender::Male);
    assert_eq!(b.passengers[0].berth_preference, BerthPreference::NoPreference);
}

#[test]
fn menu_answers_for_payment_and_yes_no() {
    assert!(bookkar::config::payment_is_upi(0));
    assert!(!bookkar::config::payment_is_upi(1));
    assert_eq!(
        bookkar::config::payment_for_menu_index(0, "a@b".to_string()),
        PaymentMethod::Upi { vpa: "a@b".to_string() }
    );
    assert_eq!(bookkar::config::payment_for_menu_index(1, "a@b".to_string()), PaymentMethod::IrctcEwallet);
    assert!(bookkar::config::yes_chosen(0));
    assert!(!bookkar::config::yes_chosen(1));
    assert_eq!(train_number_choice("ANY".to_string()), None);
    assert_eq!(train_number_choice("aNy".to_string()), None);
    assert_eq!(train_number_choice("12951".to_string()), Some("12951".to_string()));
}
