//! Passenger details as entered for a booking.
use vstd::prelude::*;
use crate::text::{append_decimal, decimal};

verus! {

/// Gender options for passenger details.
#[derive(Clone, Copy, Debug, PartialEq, Eq, Structural)]
pub enum Gender {
    Male,
    Female,
    Transgender,
}

/// The value of a gender in the booking site's form dropdown.
pub open spec fn gender_code(g: Gender) -> Seq<char> {
    match g {
        Gender::Male => "M"@,
        Gender::Female => "F"@,
        Gender::Transgender => "T"@,
    }
}

/// The human-readable name of a gender.
pub open spec fn gender_text(g: Gender) -> Seq<char> {
    match g {
        Gender::Male => "Male"@,
        Gender::Female => "Female"@,
        Gender::Transgender => "Transgender"@,
    }
}

impl Gender {
    /// Returns the value used in the booking site's form dropdown.
    pub fn irctc_value(&self) -> (r: &'static str)
        ensures
            r@ == gender_code(*self),
    {
        match self {
            Gender::Male => "M",
            Gender::Female => "F",
            Gender::Transgender => "T",
        }
    }

    /// The human-readable name of the gender.
    pub fn to_string(&self) -> (r: String)
        ensures
            r@ == gender_text(*self),
    {
        let s = match self {
            Gender::Male => "Male",
            Gender::Female => "Female",
            Gender::Transgender => "Transgender",
        };
        String::from_str(s)
    }
}

/// Berth preference for sleeping accommodation.
#[derive(Clone, Copy, Debug, PartialEq, Eq, Structural)]
pub enum BerthPreference {
    Lower,
    Middle,
    Upper,
    SideLower,
    SideUpper,
    NoPreference,
}

/// The value of a berth preference in the booking site's form dropdown.
pub open spec fn berth_code(b: BerthPreference) -> Seq<char> {
    match b {
        BerthPreference::Lower => "LB"@,
        BerthPreference::Middle => "MB"@,
        BerthPreference::Upper => "UB"@,
        BerthPreference::SideLower => "SL"@,
        BerthPreference::SideUpper => "SU"@,
        BerthPreference::NoPreference => "No Preference"@,
    }
}

/// The human-readable name of a berth preference.
pub open spec fn berth_text(b: BerthPreference) -> Seq<char> {
    match b {
        BerthPreference::Lower => "Lower"@,
        BerthPreference::Middle => "Middle"@,
        BerthPreference::Upper => "Upper"@,
        BerthPreference::SideLower => "Side Lower"@,
        BerthPreference::SideUpper => "Side Upper"@,
        BerthPreference::NoPreference => "No Preference"@,
    }
}

impl BerthPreference {
    /// Returns the value used in the booking site's form dropdown.
    pub fn irctc_value(&self) -> (r: &'static str)
        ensures
            r@ == berth_code(*self),
    {
        match self {
            BerthPreference::Lower => "LB",
            BerthPreference::Middle => "MB",
            BerthPreference::Upper => "UB",
            BerthPreference::SideLower => "SL",
            BerthPreference::SideUpper => "SU",
            BerthPreference::NoPreference => "No Preference",
        }
    }

    /// The human-readable name of the preference.
    pub fn to_string(&self) -> (r: String)
        ensures
            r@ == berth_text(*self),
    {
        let s = match self {
            BerthPreference::Lower => "Lower",
            BerthPreference::Middle => "Middle",
            BerthPreference::Upper => "Upper",
            BerthPreference::SideLower => "Side Lower",
            BerthPreference::SideUpper => "Side Upper",
            BerthPreference::NoPreference => "No Preference",
        };
        String::from_str(s)
    }
}

/// A single passenger entry for booking.
#[derive(Clone, Debug, PartialEq)]
pub struct Passenger {
    pub name: String,
    pub age: u8,
    pub gender: Gender,
    pub berth_preference: BerthPreference,
    /// Optional nationality (the site assumes "Indian" when absent).
    pub nationality: Option<String>,
}

/// The one-line summary of a passenger: name, gender, age and berth,
/// separated by vertical bars.
pub open spec fn passenger_text(p: Passenger) -> Seq<char> {
    p.name@ + " | "@ + gender_text(p.gender) + " | "@ + decimal(p.age as nat) + " | "@
        + berth_text(p.berth_preference)
}

impl Passenger {
    /// The one-line summary shown in the booking overview.
    pub fn to_string(&self) -> (r: String)
        ensures
            r@ == passenger_text(*self),
    {
        let mut s = self.name.clone();
        s.append(" | ");
        let g = self.gender.to_string();
        s.append(g.as_str());
        s.append(" | ");
        append_decimal(&mut s, self.age as u64);
        s.append(" | ");
        let b = self.berth_preference.to_string();
        s.append(b.as_str());
        s
    }
}

} // verus!
