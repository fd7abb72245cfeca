//! Classification of a year's production calendar.
//!
//! A production calendar says of every day of a year whether it is a working
//! day, a weekend, a holiday or a shortened day before a holiday. This crate
//! turns the records of the calendar service into typed days, and says in
//! contracts exactly which records it accepts and what each becomes.

pub mod country;
pub mod date;
pub mod day;
pub mod decimal;
pub mod laws;
pub mod loader;
pub mod raw;

pub use country::Country;
pub use date::CalendarDate;
pub use day::{ClassifiedCalendar, ClassifiedDay, ClassifyError, DayType};
pub use loader::{Async, Init, ProductionCalendarLoader, Sync};
pub use raw::{Calendar, CalendarDay};
