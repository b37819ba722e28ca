//! CSS selectors of the booking site, kept in one place: when the site
//! changes its pages, these are the first thing to check.

pub mod login;
pub mod search;
pub mod booking;
pub mod payment;
pub mod page;
