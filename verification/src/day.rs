//! The kinds of day and the rule that reads them from the service's codes.

use vstd::prelude::*;

use crate::date::{denoted_date, denotes_date, is_calendar_date, CalendarDate};
use crate::raw::CalendarDay;

verus! {

/// What a day of the calendar is.
#[derive(Debug, Clone, Copy, PartialEq, Eq, Structural)]
pub enum DayType {
    Working,
    Weekend,
    Holiday,
    PreHoliday,
}

/// Why a record of the service is not a day.
#[derive(Debug, Clone, Copy, PartialEq, Eq, Structural)]
pub enum ClassifyError {
    /// The date is not written as `DD.MM.YYYY`, or no such day exists.
    DateParse,
    /// The type code is none of 1 to 6.
    UnknownDayType,
}

/// The kind of day that a type code of the service stands for: 1 is a
/// working day, 2 and 6 a weekend, 3 and 4 a holiday, 5 a day before a
/// holiday. No other code stands for anything.
pub open spec fn day_type_of_code(code: u8) -> Option<DayType> {
    if code == 1 {
        Some(DayType::Working)
    } else if code == 2 || code == 6 {
        Some(DayType::Weekend)
    } else if code == 3 || code == 4 {
        Some(DayType::Holiday)
    } else if code == 5 {
        Some(DayType::PreHoliday)
    } else {
        None
    }
}

/// A day of the calendar, as a record that was found valid describes it:
/// the date that was read, its day, month and year, and the kind of day.
#[derive(Debug, Clone, Copy, PartialEq, Eq, Structural)]
pub struct ClassifiedDay {
    pub date: CalendarDate,
    pub day: u8,
    pub month: u8,
    pub year: i32,
    pub day_type: DayType,
}

impl ClassifiedDay {
    /// The calendar has this day, and day, month and year are those of the
    /// date.
    pub open spec fn wf(&self) -> bool {
        &&& is_calendar_date(self.date.year as int, self.date.month as int, self.date.day as int)
        &&& self.day == self.date.day
        &&& self.month == self.date.month
        &&& self.year == self.date.year
    }

    /// The day that this date is, of this kind.
    pub open spec fn of(date: CalendarDate, day_type: DayType) -> ClassifiedDay {
        ClassifiedDay { date, day: date.day, month: date.month, year: date.year, day_type }
    }
}

/// What a record with this date and this type code is: the date is judged
/// first, the code only when the date stands.
pub open spec fn classify(date: Seq<char>, code: u8) -> Result<ClassifiedDay, ClassifyError> {
    if !denotes_date(date) {
        Err(ClassifyError::DateParse)
    } else {
        match day_type_of_code(code) {
            None => Err(ClassifyError::UnknownDayType),
            Some(day_type) => Ok(ClassifiedDay::of(denoted_date(date), day_type)),
        }
    }
}

impl CalendarDay {
    /// What this record is; the labels play no part.
    pub open spec fn classification(&self) -> Result<ClassifiedDay, ClassifyError> {
        classify(self.date@, self.type_id)
    }
}

/// Whether the record was found to be this day.
pub open spec fn is_day(found: Result<ClassifiedDay, ClassifyError>, day: ClassifiedDay) -> bool {
    found matches Ok(d) && d == day
}

/// Whether the record was refused with this error.
pub open spec fn is_refusal(
    found: Result<ClassifiedDay, ClassifyError>,
    error: ClassifyError,
) -> bool {
    found matches Err(e) && e == error
}

/// A year of classified days, in the order in which they were received.
#[derive(Debug)]
pub struct ClassifiedCalendar {
    year: u32,
    days: Vec<ClassifiedDay>,
}

/// How many days of the sequence are of the given kind.
pub open spec fn count_of_type(days: Seq<ClassifiedDay>, day_type: DayType) -> nat
    decreases days.len(),
{
    if days.len() == 0 {
        0
    } else {
        count_of_type(days.drop_last(), day_type) + if days.last().day_type == day_type {
            1nat
        } else {
            0nat
        }
    }
}

impl ClassifiedCalendar {
    /// The year that the calendar is for.
    pub closed spec fn year_view(&self) -> u32 {
        self.year
    }

    /// The days, in order.
    pub closed spec fn days_view(&self) -> Seq<ClassifiedDay> {
        self.days@
    }

    /// A calendar of these days for this year. The days are kept as given:
    /// nothing is sorted, dropped or compared with the year.
    pub fn new(year: u32, days: Vec<ClassifiedDay>) -> (calendar: ClassifiedCalendar)
        ensures
            calendar.year_view() == year,
            calendar.days_view() == days@,
    {
        ClassifiedCalendar { year, days }
    }

    pub fn get_year(&self) -> (year: u32)
        ensures
            year == self.year_view(),
    {
        self.year
    }

    pub fn get_days(&self) -> (days: &Vec<ClassifiedDay>)
        ensures
            days@ == self.days_view(),
    {
        &self.days
    }

    pub fn get_days_count(&self) -> (count: usize)
        ensures
            count == self.days_view().len(),
    {
        self.days.len()
    }

    /// How many days are of the given kind.
    pub fn count_days_of_type(&self, day_type: DayType) -> (count: usize)
        ensures
            count == count_of_type(self.days_view(), day_type),
    {
        let mut count: usize = 0;
        let mut i: usize = 0;
        while i < self.days.len()
            invariant
                i <= self.days.len(),
                count <= i,
                count == count_of_type(self.days@.take(i as int), day_type),
            decreases self.days.len() - i,
        {
            assert(self.days@.take(i + 1).drop_last() == self.days@.take(i as int));
            if self.days[i].day_type == day_type {
                count += 1;
            }
            i += 1;
        }
        assert(self.days@.take(i as int) == self.days@);
        count
    }

    /// How many days are full working days.
    pub fn get_work_days_count(&self) -> (count: usize)
        ensures
            count == count_of_type(self.days_view(), DayType::Working),
    {
        self.count_days_of_type(DayType::Working)
    }
}

} // verus!
