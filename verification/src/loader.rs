//! The loader: which mode it was built for, the address it asks, and how it
//! turns what the service sent into a calendar.

use std::marker::PhantomData;
use vstd::prelude::*;
use vstd::string::*;

use crate::country::Country;
use crate::date::parse_date;
use crate::day::{
    day_type_of_code, is_day, is_refusal, ClassifiedCalendar, ClassifiedDay, ClassifyError,
    DayType,
};
use crate::decimal::{append_decimal, decimal};
use crate::raw::{Calendar, CalendarDay};

verus! {

/// No mode chosen yet: only the two constructors are offered.
pub struct Init;

/// The mode in which the caller is suspended while the service answers.
pub struct Async;

/// The mode in which the calling thread waits for the service.
pub struct Sync;

/// A loader of production calendars. Its mode is part of its type, fixed by
/// the constructor and never changed; what is sent and how the answer is
/// read is the same in every mode.
pub struct ProductionCalendarLoader<Type = Init> {
    _type: PhantomData<Type>,
}

impl ProductionCalendarLoader<Init> {
    /// A loader that suspends the caller while it waits.
    pub fn new() -> ProductionCalendarLoader<Async> {
        ProductionCalendarLoader::<Async> { _type: PhantomData }
    }

    /// A loader that blocks the calling thread while it waits.
    pub fn new_sync() -> ProductionCalendarLoader<Sync> {
        ProductionCalendarLoader::<Sync> { _type: PhantomData }
    }
}

/// The address at which the service keeps the calendar of a country for a
/// year.
pub open spec fn request_url_view(country: Country, year: u32) -> Seq<char> {
    "https://production-calendar.ru/get/"@ + country.name_view() + seq!['/'] + decimal(year as nat)
        + "/json"@
}

/// Whether `outcome` is what the records of a year assemble to: a calendar
/// of all the days in the order received when every record is a day, and
/// else the error of the first record that is none.
pub open spec fn is_assembly_of(
    year: u32,
    records: Seq<CalendarDay>,
    outcome: Result<ClassifiedCalendar, ClassifyError>,
) -> bool {
    match outcome {
        Ok(calendar) => {
            &&& calendar.year_view() == year
            &&& calendar.days_view().len() == records.len()
            &&& forall|i: int|
                0 <= i < records.len() ==> is_day(
                    #[trigger] records[i].classification(),
                    calendar.days_view()[i],
                )
        },
        Err(error) => exists|i: int|
            {
                &&& 0 <= i < records.len()
                &&& is_refusal(#[trigger] records[i].classification(), error)
                &&& forall|j: int| 0 <= j < i ==> (#[trigger] records[j].classification()) is Ok
            },
    }
}

impl<T> ProductionCalendarLoader<T> {
    /// The address that a loader of this mode asks: the same in every mode.
    pub open spec fn url_view(&self, country: Country, year: u32) -> Seq<char> {
        request_url_view(country, year)
    }

    /// Whether `outcome` is what a loader of this mode makes of the records
    /// that the service sent for `year`: the same in every mode.
    pub open spec fn maps(
        &self,
        year: u32,
        records: Seq<CalendarDay>,
        outcome: Result<ClassifiedCalendar, ClassifyError>,
    ) -> bool {
        is_assembly_of(year, records, outcome)
    }

    /// The address to ask for the calendar of `country` for `year`: the
    /// service's host, the country by its name and the year in decimal.
    pub fn request_url(&self, country: Country, year: u32) -> (url: String)
        ensures
            url@ == self.url_view(country, year),
    {
        let mut url = String::from_str("https://production-calendar.ru/get/");
        url.append(country.name().as_str());
        proof {
            reveal_strlit("/");
        }
        url.append("/");
        append_decimal(&mut url, year);
        url.append("/json");
        assert(url@ =~= request_url_view(country, year));
        url
    }

    /// Turns what the service sent for `year` into a calendar. Every record
    /// is checked in the order received; the first that is no day ends the
    /// work with its error, and nothing is returned for the records before it.
    pub fn map_to_production_calendar(&self, year: u32, calendar: Calendar) -> (r: Result<
        ClassifiedCalendar,
        ClassifyError,
    >)
        ensures
            self.maps(year, calendar.days@, r),
    {
        let ghost records = calendar.days@;
        let mut days: Vec<ClassifiedDay> = Vec::new();
        for record in iter: calendar.days
            invariant
                iter.seq() == records,
                days@.len() == iter.index(),
                forall|j: int|
                    0 <= j < iter.index() ==> is_day(#[trigger] records[j].classification(), days@[j]),
        {
            match self.map_to_day(record) {
                Ok(day) => {
                    days.push(day);
                },
                Err(error) => {
                    return Err(error);
                },
            }
        }
        Ok(ClassifiedCalendar::new(year, days))
    }

    /// Checks one record and gives the day it describes. Day, month and year
    /// come from the date that was read, the kind of day from the type code.
    /// The date is judged first.
    pub fn map_to_day(&self, day: CalendarDay) -> (r: Result<ClassifiedDay, ClassifyError>)
        ensures
            r == day.classification(),
            r matches Ok(classified) ==> classified.wf(),
    {
        let date = match parse_date(day.date.as_str()) {
            Some(date) => date,
            None => {
                return Err(ClassifyError::DateParse);
            },
        };
        let day_type = match self.map_to_day_type(day.type_id) {
            Ok(day_type) => day_type,
            Err(error) => {
                return Err(error);
            },
        };
        Ok(ClassifiedDay { date, day: date.day, month: date.month, year: date.year, day_type })
    }

    /// Reads a type code: 1 is a working day, 2 and 6 a weekend, 3 and 4 a
    /// holiday, 5 a day before a holiday; every other code is refused.
    pub fn map_to_day_type(&self, day_type: u8) -> (r: Result<DayType, ClassifyError>)
        ensures
            r == match day_type_of_code(day_type) {
                Some(t) => Ok::<DayType, ClassifyError>(t),
                None => Err(ClassifyError::UnknownDayType),
            },
    {
        match day_type {
            1 => Ok(DayType::Working),
            2 | 6 => Ok(DayType::Weekend),
            3 | 4 => Ok(DayType::Holiday),
            5 => Ok(DayType::PreHoliday),
            _ => Err(ClassifyError::UnknownDayType),
        }
    }
}

} // verus!
