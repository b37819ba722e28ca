//! Selectors of the train search form and its results.
use vstd::prelude::*;

verus! {

/// "From" station combobox trigger (beta site)
pub const FROM_STATION_COMBOBOX: &'static str = "[role='combobox'][aria-label='From station'], [aria-label*='From' i]";
/// "From" station autocomplete input
pub const FROM_STATION_INPUT: &'static str = "input.from-search-input, input[formcontrolname='origin'], input[aria-label='From']";
/// "To" station combobox trigger (beta site)
pub const TO_STATION_COMBOBOX: &'static str = "[role='combobox'][aria-label='To station'], [aria-label*='To' i]";
/// "To" station autocomplete input
pub const TO_STATION_INPUT: &'static str = "input.to-search-input, input[formcontrolname='destination'], input[aria-label='To']";
/// Autocomplete dropdown suggestion items
pub const AUTOCOMPLETE_OPTION: &'static str = "div[role='option'].custom-option, .custom-dropdown-panel .custom-option, span.ui-autocomplete-list-item";
/// Journey date picker input or button
pub const DATE_INPUT: &'static str = "[role='button'][aria-label='Select travel date'], input[formcontrolname='journeyDate'], p-calendar input";
/// Class selection dropdown
pub const CLASS_DROPDOWN: &'static str = "select#journeyClass";
/// Quota selection combobox or dropdown
pub const QUOTA_DROPDOWN: &'static str = "[role='combobox'][aria-label='Quota'], select#journeyQuota";
/// Quota option items
pub const QUOTA_OPTION: &'static str = "div[role='option'].custom-option, .custom-dropdown-panel .custom-option";
/// "Find Trains" / search button
pub const SEARCH_BUTTON: &'static str = "button.search-btn, button.search_btn, button[type='submit'].search-btn";
/// Train list container (appears after search)
pub const TRAIN_LIST_CONTAINER: &'static str = "div.train-list, div.train-list-container";
/// Individual train row in results
pub const TRAIN_ROW: &'static str = "app-train-avl-enq, .train-card";
/// Train number text within a row
pub const TRAIN_NUMBER: &'static str = "strong.train-heading, strong, span.train-number";
/// Availability link/button for a specific class in a train row
pub const AVAILABILITY_LINK: &'static str = "button.btn-availability, td.pre-avl, .class-card, span.date-badge";
/// "Book Now" button (appears after clicking availability)
pub const BOOK_NOW_BUTTON: &'static str = "button.btn-book, button.btn-action.btn-book, button.btnDefault.train_Search, button.search-btn";

} // verus!
