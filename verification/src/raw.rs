//! The calendar as the service sends it, before anything is checked.

use vstd::prelude::*;

verus! {

/// One year of one country, as received.
#[derive(Debug)]
pub struct Calendar {
    pub country_code: String,
    pub country_text: String,
    pub dt_start: String,
    pub dt_end: String,
    pub work_week_type: String,
    pub period: String,
    pub days: Vec<CalendarDay>,
}

/// One day, as received: a date written `DD.MM.YYYY`, a type code and two
/// labels for display.
#[derive(Debug)]
pub struct CalendarDay {
    pub date: String,
    pub type_id: u8,
    pub type_text: String,
    pub week_day: String,
}

} // verus!
