//! Booking choices (class, quota, payment), the booking lifecycle and the
//! full booking configuration.
use vstd::prelude::*;
use crate::date::JourneyDate;
use crate::passenger::Passenger;

verus! {

/// Train class categories offered for Tatkal booking.
#[derive(Clone, Copy, Debug, PartialEq, Eq, Structural)]
pub enum TrainClass {
    /// First AC (1A)
    FirstAC,
    /// Second AC (2A)
    SecondAC,
    /// Third AC (3A)
    ThirdAC,
    /// Third AC Economy (3E)
    ThirdACEconomy,
    /// AC Chair Car (CC)
    ChairCar,
    /// Executive Chair Car (EC)
    ExecChairCar,
    /// Sleeper (SL)
    Sleeper,
    /// Second Sitting (2S)
    SecondSitting,
}

/// The code of a class in the booking site's class dropdown.
pub open spec fn class_code(c: TrainClass) -> Seq<char> {
    match c {
        TrainClass::FirstAC => "1A"@,
        TrainClass::SecondAC => "2A"@,
        TrainClass::ThirdAC => "3A"@,
        TrainClass::ThirdACEconomy => "3E"@,
        TrainClass::ChairCar => "CC"@,
        TrainClass::ExecChairCar => "EC"@,
        TrainClass::Sleeper => "SL"@,
        TrainClass::SecondSitting => "2S"@,
    }
}

/// The label of a class shown to the user.
pub open spec fn class_text(c: TrainClass) -> Seq<char> {
    match c {
        TrainClass::FirstAC => "First AC (1A)"@,
        TrainClass::SecondAC => "Second AC (2A)"@,
        TrainClass::ThirdAC => "Third AC (3A)"@,
        TrainClass::ThirdACEconomy => "Third AC Economy (3E)"@,
        TrainClass::ChairCar => "AC Chair Car (CC)"@,
        TrainClass::ExecChairCar => "Executive Chair Car (EC)"@,
        TrainClass::Sleeper => "Sleeper (SL)"@,
        TrainClass::SecondSitting => "Second Sitting (2S)"@,
    }
}

/// Whether a class is air-conditioned: every class but Sleeper and Second
/// Sitting.
pub open spec fn class_is_ac(c: TrainClass) -> bool {
    !(c == TrainClass::Sleeper || c == TrainClass::SecondSitting)
}

/// The hour at which Tatkal booking opens for a class: 10 for AC classes,
/// 11 for the others.
pub open spec fn opening_hour(c: TrainClass) -> u32 {
    if class_is_ac(c) { 10 } else { 11 }
}

impl TrainClass {
    /// Returns the value used in the booking site's class dropdown.
    pub fn irctc_value(&self) -> (r: &'static str)
        ensures
            r@ == class_code(*self),
    {
        match self {
            TrainClass::FirstAC => "1A",
            TrainClass::SecondAC => "2A",
            TrainClass::ThirdAC => "3A",
            TrainClass::ThirdACEconomy => "3E",
            TrainClass::ChairCar => "CC",
            TrainClass::ExecChairCar => "EC",
            TrainClass::Sleeper => "SL",
            TrainClass::SecondSitting => "2S",
        }
    }

    /// Whether this is an AC class (Tatkal opens at 10 AM) or non-AC (11 AM).
    pub fn is_ac(&self) -> (r: bool)
        ensures
            r == class_is_ac(*self),
    {
        !matches!(self, TrainClass::Sleeper | TrainClass::SecondSitting)
    }

    /// Hour when Tatkal booking opens for this class.
    pub fn tatkal_hour(&self) -> (r: u32)
        ensures
            r == opening_hour(*self),
    {
        if self.is_ac() { 10 } else { 11 }
    }

    /// The label of the class shown to the user.
    pub fn to_string(&self) -> (r: String)
        ensures
            r@ == class_text(*self),
    {
        let s = match self {
            TrainClass::FirstAC => "First AC (1A)",
            TrainClass::SecondAC => "Second AC (2A)",
            TrainClass::ThirdAC => "Third AC (3A)",
            TrainClass::ThirdACEconomy => "Third AC Economy (3E)",
            TrainClass::ChairCar => "AC Chair Car (CC)",
            TrainClass::ExecChairCar => "Executive Chair Car (EC)",
            TrainClass::Sleeper => "Sleeper (SL)",
            TrainClass::SecondSitting => "Second Sitting (2S)",
        };
        String::from_str(s)
    }
}

/// Tatkal booking opens at 10 for AC classes and at 11 for the others, and
/// at no other hour.
pub proof fn lemma_opening_hours(c: TrainClass)
    ensures
        opening_hour(c) == 10 <==> class_is_ac(c),
        opening_hour(c) == 11 <==> !class_is_ac(c),
        class_is_ac(c) <==> !(c == TrainClass::Sleeper || c == TrainClass::SecondSitting),
{
}

/// Booking quota.
#[derive(Clone, Copy, Debug, PartialEq, Eq, Structural)]
pub enum Quota {
    Tatkal,
    PremiumTatkal,
}

/// The code of a quota on the booking site.
pub open spec fn quota_code(q: Quota) -> Seq<char> {
    match q {
        Quota::Tatkal => "TQ"@,
        Quota::PremiumTatkal => "PT"@,
    }
}

/// The name of a quota shown to the user.
pub open spec fn quota_text(q: Quota) -> Seq<char> {
    match q {
        Quota::Tatkal => "Tatkal"@,
        Quota::PremiumTatkal => "Premium Tatkal"@,
    }
}

impl Quota {
    /// Returns the quota's code on the booking site.
    pub fn irctc_value(&self) -> (r: &'static str)
        ensures
            r@ == quota_code(*self),
    {
        match self {
            Quota::Tatkal => "TQ",
            Quota::PremiumTatkal => "PT",
        }
    }

    /// The name of the quota shown to the user.
    pub fn to_string(&self) -> (r: String)
        ensures
            r@ == quota_text(*self),
    {
        match self {
            Quota::Tatkal => String::from_str("Tatkal"),
            Quota::PremiumTatkal => String::from_str("Premium Tatkal"),
        }
    }
}

/// Payment method for a booking.
#[derive(Clone, Debug, PartialEq)]
pub enum PaymentMethod {
    Upi { vpa: String },
    IrctcEwallet,
}

/// The description of a payment method shown to the user.
pub open spec fn payment_text(p: PaymentMethod) -> Seq<char> {
    match p {
        PaymentMethod::Upi { vpa } => "UPI ("@ + vpa@ + ")"@,
        PaymentMethod::IrctcEwallet => "IRCTC eWallet"@,
    }
}

impl PaymentMethod {
    /// The description of the payment method shown to the user.
    pub fn to_string(&self) -> (r: String)
        ensures
            r@ == payment_text(*self),
    {
        match self {
            PaymentMethod::Upi { vpa } => {
                let mut s = String::from_str("UPI (");
                s.append(vpa.as_str());
                s.append(")");
                s
            },
            PaymentMethod::IrctcEwallet => String::from_str("IRCTC eWallet"),
        }
    }
}

/// Booking status lifecycle.
#[derive(Clone, Debug, PartialEq)]
pub enum BookingStatus {
    Configured,
    BrowserLaunched,
    LoggingIn,
    WaitingForLoginOtp,
    LoggedIn,
    SearchReady,
    WaitingForTatkalWindow,
    Searching,
    TrainSelected,
    FillingPassengers,
    WaitingForAadhaarOtp,
    AadhaarVerified,
    ProcessingPayment,
    WaitingForPaymentApproval,
    Success,
    Failed { reason: String },
}

/// The status line shown for each stage of a booking.
pub open spec fn status_text(s: BookingStatus) -> Seq<char> {
    match s {
        BookingStatus::Configured => "⚙️  Configured"@,
        BookingStatus::BrowserLaunched => "🌐 Browser launched"@,
        BookingStatus::LoggingIn => "🔐 Logging in..."@,
        BookingStatus::WaitingForLoginOtp => "⏳ Waiting for login OTP"@,
        BookingStatus::LoggedIn => "✅ Logged in"@,
        BookingStatus::SearchReady => "📝 Search form ready"@,
        BookingStatus::WaitingForTatkalWindow => "⏰ Waiting for Tatkal window"@,
        BookingStatus::Searching => "🔍 Searching trains..."@,
        BookingStatus::TrainSelected => "🚂 Train selected"@,
        BookingStatus::FillingPassengers => "👥 Filling passenger details"@,
        BookingStatus::WaitingForAadhaarOtp => "⏳ Waiting for Aadhaar OTP"@,
        BookingStatus::AadhaarVerified => "✅ Aadhaar verified"@,
        BookingStatus::ProcessingPayment => "💳 Processing payment"@,
        BookingStatus::WaitingForPaymentApproval => "⏳ Approve payment on your app"@,
        BookingStatus::Success => "🎉 Booking confirmed!"@,
        BookingStatus::Failed { reason } => "❌ Failed: "@ + reason@,
    }
}

impl BookingStatus {
    /// The status line shown for this stage.
    pub fn to_string(&self) -> (r: String)
        ensures
            r@ == status_text(*self),
    {
        let s = match self {
            BookingStatus::Configured => "⚙️  Configured",
            BookingStatus::BrowserLaunched => "🌐 Browser launched",
            BookingStatus::LoggingIn => "🔐 Logging in...",
            BookingStatus::WaitingForLoginOtp => "⏳ Waiting for login OTP",
            BookingStatus::LoggedIn => "✅ Logged in",
            BookingStatus::SearchReady => "📝 Search form ready",
            BookingStatus::WaitingForTatkalWindow => "⏰ Waiting for Tatkal window",
            BookingStatus::Searching => "🔍 Searching trains...",
            BookingStatus::TrainSelected => "🚂 Train selected",
            BookingStatus::FillingPassengers => "👥 Filling passenger details",
            BookingStatus::WaitingForAadhaarOtp => "⏳ Waiting for Aadhaar OTP",
            BookingStatus::AadhaarVerified => "✅ Aadhaar verified",
            BookingStatus::ProcessingPayment => "💳 Processing payment",
            BookingStatus::WaitingForPaymentApproval => "⏳ Approve payment on your app",
            BookingStatus::Success => "🎉 Booking confirmed!",
            BookingStatus::Failed { reason } => {
                let mut s = String::from_str("❌ Failed: ");
                s.append(reason.as_str());
                return s;
            },
        };
        String::from_str(s)
    }
}

/// Full booking configuration provided by the user.
#[derive(Clone, Debug, PartialEq)]
pub struct BookingConfig {
    /// Booking-site username
    pub username: String,
    /// Booking-site password
    pub password: String,
    /// Source station code (e.g., "NDLS")
    pub from_station: String,
    /// Destination station code (e.g., "MAS")
    pub to_station: String,
    /// Journey date
    pub journey_date: JourneyDate,
    /// Train class
    pub class: TrainClass,
    /// Booking quota
    pub quota: Quota,
    /// Specific train number (None = first available)
    pub train_number: Option<String>,
    /// List of passengers (1-6)
    pub passengers: Vec<Passenger>,
    /// Payment method
    pub payment: PaymentMethod,
    /// Whether to auto-upgrade if a higher class is available
    pub auto_upgrade: bool,
}

/// Result of a successful booking.
#[derive(Clone, Debug, PartialEq)]
pub struct BookingResult {
    /// PNR number
    pub pnr: String,
    /// Train number
    pub train_number: String,
    /// Train name
    pub train_name: String,
    /// Booking status message
    pub status_message: String,
}

} // verus!
