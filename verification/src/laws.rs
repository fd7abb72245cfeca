//! What holds of every record and of every calendar, proved from the
//! definitions that the contracts of the loader use.

use vstd::prelude::*;

use crate::country::Country;
use crate::date::{
    denoted_date, denotes_date, has_date_shape, is_calendar_date, written_day, written_month, written_year,
};
use crate::day::{
    count_of_type, day_type_of_code, is_day, is_refusal, ClassifiedCalendar, ClassifiedDay,
    ClassifyError, DayType,
};
use crate::loader::{is_assembly_of, Async, ProductionCalendarLoader, Sync};
use crate::raw::CalendarDay;

verus! {

/// A record is found to be a day only when its date is a date of the
/// service and its type code stands for a kind of day. The day then carries
/// the numbers that the date writes and the kind that the code stands for,
/// and the calendar has it.
pub proof fn lemma_day_is_what_the_record_writes(record: CalendarDay, day: ClassifiedDay)
    requires
        is_day(record.classification(), day),
    ensures
        denotes_date(record.date@),
        day.date == denoted_date(record.date@),
        day.day == written_day(record.date@),
        day.month == written_month(record.date@),
        day.year == written_year(record.date@),
        day_type_of_code(record.type_id) == Some(day.day_type),
        day.wf(),
{
}

/// A record with a date of the service and a type code from 1 to 6 is a day,
/// and the code alone decides its kind: 1 is a working day, 2 and 6 are a
/// weekend, 3 and 4 a holiday, 5 a day before a holiday.
pub proof fn lemma_code_decides_day_type(record: CalendarDay)
    requires
        denotes_date(record.date@),
        1 <= record.type_id <= 6,
    ensures
        record.classification() is Ok,
        record.type_id == 1 ==> record.classification()->Ok_0.day_type == DayType::Working,
        record.type_id == 2 || record.type_id == 6 ==> record.classification()->Ok_0.day_type
            == DayType::Weekend,
        record.type_id == 3 || record.type_id == 4 ==> record.classification()->Ok_0.day_type
            == DayType::Holiday,
        record.type_id == 5 ==> record.classification()->Ok_0.day_type == DayType::PreHoliday,
{
}

/// A record whose date stands and whose type code is none of 1 to 6 is
/// refused for its code.
pub proof fn lemma_unknown_code_is_refused(record: CalendarDay)
    requires
        denotes_date(record.date@),
        !(1 <= record.type_id <= 6),
    ensures
        is_refusal(record.classification(), ClassifyError::UnknownDayType),
{
}

/// A record whose date is not written as `DD.MM.YYYY`, or writes a day that
/// the calendar does not have, is refused for its date, whatever its type
/// code.
pub proof fn lemma_bad_date_is_refused(record: CalendarDay)
    requires
        !has_date_shape(record.date@) || !is_calendar_date(
            written_year(record.date@),
            written_month(record.date@),
            written_day(record.date@),
        ),
    ensures
        is_refusal(record.classification(), ClassifyError::DateParse),
{
}

/// How many of the records carry a type code that stands for the given kind
/// of day.
pub open spec fn count_of_code_type(records: Seq<CalendarDay>, day_type: DayType) -> nat
    decreases records.len(),
{
    if records.len() == 0 {
        0
    } else {
        count_of_code_type(records.drop_last(), day_type) + if day_type_of_code(
            records.last().type_id,
        ) == Some(day_type) {
            1nat
        } else {
            0nat
        }
    }
}

proof fn lemma_counts_follow_codes(
    records: Seq<CalendarDay>,
    days: Seq<ClassifiedDay>,
    day_type: DayType,
)
    requires
        days.len() == records.len(),
        forall|i: int|
            0 <= i < records.len() ==> is_day(#[trigger] records[i].classification(), days[i]),
    ensures
        count_of_type(days, day_type) == count_of_code_type(records, day_type),
    decreases records.len(),
{
    if records.len() > 0 {
        let last = records.len() - 1;
        assert(is_day(records[last].classification(), days[last]));
        assert forall|i: int| 0 <= i < records.drop_last().len() implies is_day(
            #[trigger] records.drop_last()[i].classification(),
            days.drop_last()[i],
        ) by {
            assert(records.drop_last()[i] == records[i]);
            assert(is_day(records[i].classification(), days[i]));
        }
        lemma_counts_follow_codes(records.drop_last(), days.drop_last(), day_type);
    }
}

/// When every record is a day, the records assemble to a calendar: it is
/// for the year asked, it holds as many days as there were records, each day
/// stands where its record stood, and of every kind of day it holds as many
/// as there were records with a code for that kind.
pub proof fn lemma_valid_records_assemble(
    year: u32,
    records: Seq<CalendarDay>,
    outcome: Result<ClassifiedCalendar, ClassifyError>,
)
    requires
        is_assembly_of(year, records, outcome),
        forall|i: int| 0 <= i < records.len() ==> (#[trigger] records[i].classification()) is Ok,
    ensures
        outcome is Ok,
        outcome->Ok_0.year_view() == year,
        outcome->Ok_0.days_view().len() == records.len(),
        forall|i: int|
            0 <= i < records.len() ==> is_day(
                #[trigger] records[i].classification(),
                outcome->Ok_0.days_view()[i],
            ),
        forall|day_type: DayType|
            count_of_type(outcome->Ok_0.days_view(), day_type) == count_of_code_type(
                records,
                day_type,
            ),
{
    assert(outcome is Ok);
    let calendar = outcome->Ok_0;
    assert forall|day_type: DayType|
        count_of_type(calendar.days_view(), day_type) == count_of_code_type(
            records,
            day_type,
        ) by {
        lemma_counts_follow_codes(records, calendar.days_view(), day_type);
    }
}

/// One record that is no day is enough for no calendar to be assembled,
/// however many days stand before or after it; the error is that of the
/// first such record.
pub proof fn lemma_one_bad_record_fails_all(
    year: u32,
    records: Seq<CalendarDay>,
    bad: int,
    outcome: Result<ClassifiedCalendar, ClassifyError>,
)
    requires
        is_assembly_of(year, records, outcome),
        0 <= bad < records.len(),
        records[bad].classification() is Err,
    ensures
        outcome is Err,
        exists|first: int|
            {
                &&& 0 <= first <= bad
                &&& is_refusal(#[trigger] records[first].classification(), outcome->Err_0)
                &&& forall|j: int| 0 <= j < first ==> (#[trigger] records[j].classification()) is Ok
            },
{
    assert(outcome is Err);
    let first = choose|i: int|
        {
            &&& 0 <= i < records.len()
            &&& is_refusal(#[trigger] records[i].classification(), outcome->Err_0)
            &&& forall|j: int| 0 <= j < i ==> (#[trigger] records[j].classification()) is Ok
        };
    assert(first <= bad);
}

/// What a year's records assemble to is decided by the year and the records
/// alone: two outcomes for the same input fail alike or hold the same year
/// and the same days.
pub proof fn lemma_assembly_is_unique(
    year: u32,
    records: Seq<CalendarDay>,
    one: Result<ClassifiedCalendar, ClassifyError>,
    other: Result<ClassifiedCalendar, ClassifyError>,
)
    requires
        is_assembly_of(year, records, one),
        is_assembly_of(year, records, other),
    ensures
        one is Ok <==> other is Ok,
        one is Ok ==> one->Ok_0.year_view() == other->Ok_0.year_view() && one->Ok_0.days_view()
            == other->Ok_0.days_view(),
        one is Err ==> one->Err_0 == other->Err_0,
{
    if one is Ok {
        lemma_calendar_shows_all_days(year, records, one);
    }
    if other is Ok {
        lemma_calendar_shows_all_days(year, records, other);
    }
    if one is Ok && other is Ok {
        let a = one->Ok_0.days_view();
        let b = other->Ok_0.days_view();
        assert forall|i: int| 0 <= i < a.len() implies a[i] == b[i] by {
            assert(is_day(records[i].classification(), a[i]));
            assert(is_day(records[i].classification(), b[i]));
        }
        assert(a =~= b);
    }
    if one is Err && other is Err {
        let i = choose|i: int|
            {
                &&& 0 <= i < records.len()
                &&& is_refusal(#[trigger] records[i].classification(), one->Err_0)
                &&& forall|j: int| 0 <= j < i ==> (#[trigger] records[j].classification()) is Ok
            };
        let k = choose|k: int|
            {
                &&& 0 <= k < records.len()
                &&& is_refusal(#[trigger] records[k].classification(), other->Err_0)
                &&& forall|j: int| 0 <= j < k ==> (#[trigger] records[j].classification()) is Ok
            };
        assert(i == k);
    }
}

/// An outcome that is a calendar shows that every record is a day.
proof fn lemma_calendar_shows_all_days(
    year: u32,
    records: Seq<CalendarDay>,
    outcome: Result<ClassifiedCalendar, ClassifyError>,
)
    requires
        is_assembly_of(year, records, outcome),
        outcome is Ok,
    ensures
        forall|i: int| 0 <= i < records.len() ==> (#[trigger] records[i].classification()) is Ok,
{
    assert forall|i: int| 0 <= i < records.len() implies (
    #[trigger] records[i].classification()) is Ok by {
        assert(is_day(records[i].classification(), outcome->Ok_0.days_view()[i]));
    }
}

/// A loader that blocks and one that suspends, given the same country and
/// year and the same answer of the service, ask the same address and come
/// to the same result: both fail with the same error, or both give a
/// calendar of the same year and the same days.
pub proof fn lemma_modes_agree(
    blocking: ProductionCalendarLoader<Sync>,
    suspending: ProductionCalendarLoader<Async>,
    country: Country,
    year: u32,
    records: Seq<CalendarDay>,
    blocking_outcome: Result<ClassifiedCalendar, ClassifyError>,
    suspending_outcome: Result<ClassifiedCalendar, ClassifyError>,
)
    requires
        blocking.maps(year, records, blocking_outcome),
        suspending.maps(year, records, suspending_outcome),
    ensures
        blocking.url_view(country, year) == suspending.url_view(country, year),
        blocking_outcome is Ok <==> suspending_outcome is Ok,
        blocking_outcome is Ok ==> blocking_outcome->Ok_0.year_view()
            == suspending_outcome->Ok_0.year_view() && blocking_outcome->Ok_0.days_view()
            == suspending_outcome->Ok_0.days_view(),
        blocking_outcome is Err ==> blocking_outcome->Err_0 == suspending_outcome->Err_0,
{
    lemma_assembly_is_unique(year, records, blocking_outcome, suspending_outcome);
}

} // verus!
