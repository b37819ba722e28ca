//! Verified core of the Tatkal booking assistant: booking models, saved
//! configuration parsing, licence-token rules, countdown decisions and the
//! page scripts the browser automation sends.

pub mod text;
pub mod date;
pub mod booking;
pub mod passenger;
pub mod config;
pub mod license;
pub mod jwt;
pub mod bot;
pub mod timer;
pub mod selectors;
pub mod scripts;
pub mod automation;
pub mod words;
