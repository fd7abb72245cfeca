use production_calendar_loader::{
    Calendar, CalendarDate, CalendarDay, ClassifiedCalendar, ClassifiedDay, ClassifyError,
    Country, DayType, ProductionCalendarLoader,
};

fn classified(day: u8, month: u8, year: i32, day_type: DayType) -> ClassifiedDay {
    ClassifiedDay { date: CalendarDate { year, month, day }, day, month, year, day_type }
}

fn record(date: &str, type_id: u8) -> CalendarDay {
    CalendarDay {
        date: date.to_string(),
        type_id,
        type_text: String::new(),
        week_day: String::new(),
    }
}

fn response(period: &str, days: Vec<CalendarDay>) -> Calendar {
    Calendar {
        country_code: String::from("ru"),
        country_text: String::from("Россия"),
        dt_start: format!("01.01.{period}"),
        dt_end: format!("31.12.{period}"),
        work_week_type: String::from("5-ти дневная рабочая неделя"),
        period: period.to_string(),
        days,
    }
}

/// The type code of a day of 2024 in the answer that stands in for the
/// service: weekends by the weekday, the public holidays, the shortened days
/// before them, the days of rest that were moved and the Saturdays worked in
/// exchange.
fn code_in_2024(month: u8, day: u8, weekday: usize) -> u8 {
    match (month, day) {
        (1, 1..=8) | (2, 23) | (3, 8) | (5, 1) | (5, 9) | (6, 12) | (11, 4) => 3,
        (2, 22) | (3, 7) | (5, 8) | (6, 11) | (11, 2) => 5,
        (4, 29) | (4, 30) | (5, 10) | (12, 30) | (12, 31) => 6,
        (4, 10) | (6, 17) => 4,
        (4, 27) | (12, 28) => 1,
        _ if weekday >= 5 => 2,
        _ => 1,
    }
}

fn response_for_2024() -> Calendar {
    let lengths = [31u8, 29, 31, 30, 31, 30, 31, 31, 30, 31, 30, 31];
    let mut days = Vec::new();
    let mut weekday = 0;
    for (index, length) in lengths.iter().enumerate() {
        let month = index as u8 + 1;
        for day in 1..=*length {
            days.push(record(
                &format!("{day:02}.{month:02}.2024"),
                code_in_2024(month, day, weekday),
            ));
            weekday = (weekday + 1) % 7;
        }
    }
    response("2024", days)
}

#[test]
fn test_async_load() {
    let loader = ProductionCalendarLoader::new();

    let calendar = loader.map_to_production_calendar(2024, response_for_2024()).unwrap();

    assert_eq!(366, calendar.get_days_count());
}

#[test]
fn test_sync_load() {
    let loader = ProductionCalendarLoader::new_sync();

    let calendar = loader.map_to_production_calendar(2024, response_for_2024()).unwrap();

    assert_eq!(366, calendar.get_days_count());
}

#[test]
fn a_leap_year_of_the_service_is_counted_by_kind() {
    let loader = ProductionCalendarLoader::new_sync();
    assert_eq!(
        loader.request_url(Country::Ru, 2024),
        "https://production-calendar.ru/get/Ru/2024/json"
    );
    let answer = response_for_2024();
    let working = answer.days.iter().filter(|day| day.type_id == 1).count();
    let calendar = loader.map_to_production_calendar(2024, answer).unwrap();
    assert_eq!(calendar.get_year(), 2024);
    assert_eq!(calendar.get_days_count(), 366);
    assert_eq!(calendar.get_work_days_count(), working);
    assert_eq!(calendar.get_work_days_count(), 241);
    assert_eq!(calendar.count_days_of_type(DayType::Working), 241);
    assert_eq!(calendar.count_days_of_type(DayType::Weekend), 104);
    assert_eq!(calendar.count_days_of_type(DayType::Holiday), 16);
    assert_eq!(calendar.count_days_of_type(DayType::PreHoliday), 5);
    assert_eq!(
        calendar.get_days()[0],
        classified(1, 1, 2024, DayType::Holiday)
    );
    assert_eq!(
        calendar.get_days()[59],
        classified(29, 2, 2024, DayType::Working)
    );
    assert_eq!(
        calendar.get_days()[365],
        classified(31, 12, 2024, DayType::Weekend)
    );
}

#[test]
fn every_kind_is_counted_as_its_codes_occur() {
    let loader = ProductionCalendarLoader::new();
    let answer = response_for_2024();
    let with_code = |code: u8| answer.days.iter().filter(|day| day.type_id == code).count();
    let expected = [
        (DayType::Working, with_code(1)),
        (DayType::Weekend, with_code(2) + with_code(6)),
        (DayType::Holiday, with_code(3) + with_code(4)),
        (DayType::PreHoliday, with_code(5)),
    ];
    let calendar = loader.map_to_production_calendar(2024, answer).unwrap();
    for (kind, count) in expected {
        assert_eq!(calendar.count_days_of_type(kind), count);
    }
}

#[test]
fn the_days_keep_the_order_received() {
    let loader = ProductionCalendarLoader::new();
    let answer = response(
        "2024",
        vec![record("03.01.2024", 1), record("01.01.2024", 3), record("02.01.2023", 5)],
    );
    let calendar = loader.map_to_production_calendar(2024, answer).unwrap();
    assert_eq!(
        calendar.get_days(),
        &vec![
            classified(3, 1, 2024, DayType::Working),
            classified(1, 1, 2024, DayType::Holiday),
            classified(2, 1, 2023, DayType::PreHoliday),
        ]
    );
}

#[test]
fn the_year_is_the_one_asked_for() {
    let loader = ProductionCalendarLoader::new_sync();
    let answer = response("2024", vec![record("01.01.2024", 3)]);
    let calendar = loader.map_to_production_calendar(1987, answer).unwrap();
    assert_eq!(calendar.get_year(), 1987);
    assert_eq!(calendar.get_days_count(), 1);
}

#[test]
fn no_records_make_an_empty_calendar() {
    let loader = ProductionCalendarLoader::new_sync();
    let calendar = loader.map_to_production_calendar(2024, response("2024", Vec::new())).unwrap();
    assert_eq!(calendar.get_year(), 2024);
    assert_eq!(calendar.get_days_count(), 0);
    assert_eq!(calendar.get_work_days_count(), 0);
    assert!(calendar.get_days().is_empty());
}

#[test]
fn one_bad_record_fails_the_whole_year() {
    let loader = ProductionCalendarLoader::new_sync();
    for position in [0usize, 1, 59, 200, 364, 365] {
        let mut answer = response_for_2024();
        answer.days[position].date = String::from("31.02.2024");
        let outcome = loader.map_to_production_calendar(2024, answer);
        assert_eq!(outcome.err(), Some(ClassifyError::DateParse));

        let mut answer = response_for_2024();
        answer.days[position].type_id = 7;
        let outcome = loader.map_to_production_calendar(2024, answer);
        assert_eq!(outcome.err(), Some(ClassifyError::UnknownDayType));
    }
}

#[test]
fn the_first_bad_record_gives_the_error() {
    let loader = ProductionCalendarLoader::new();
    let answer = response(
        "2024",
        vec![
            record("01.01.2024", 3),
            record("02.01.2024", 0),
            record("2024-01-03", 1),
            record("04.01.2024", 1),
        ],
    );
    assert_eq!(
        loader.map_to_production_calendar(2024, answer).err(),
        Some(ClassifyError::UnknownDayType)
    );
    let answer = response(
        "2024",
        vec![
            record("01.01.2024", 3),
            record("2024-01-02", 1),
            record("03.01.2024", 0),
            record("04.01.2024", 1),
        ],
    );
    assert_eq!(
        loader.map_to_production_calendar(2024, answer).err(),
        Some(ClassifyError::DateParse)
    );
}

#[test]
fn both_modes_make_the_same_calendar() {
    let blocking = ProductionCalendarLoader::new_sync();
    let suspending = ProductionCalendarLoader::new();
    let one = blocking.map_to_production_calendar(2024, response_for_2024()).unwrap();
    let other = suspending.map_to_production_calendar(2024, response_for_2024()).unwrap();
    assert_eq!(one.get_year(), other.get_year());
    assert_eq!(one.get_days(), other.get_days());

    let mut broken = response_for_2024();
    broken.days[100].type_id = 9;
    let one = blocking.map_to_production_calendar(2024, broken).err();
    let mut broken = response_for_2024();
    broken.days[100].type_id = 9;
    let other = suspending.map_to_production_calendar(2024, broken).err();
    assert_eq!(one, Some(ClassifyError::UnknownDayType));
    assert_eq!(one, other);
}

#[test]
fn a_calendar_counts_the_days_it_was_given() {
    let day = |day: u8, day_type: DayType| classified(day, 5, 2024, day_type);
    let calendar = ClassifiedCalendar::new(
        2024,
        vec![
            day(8, DayType::PreHoliday),
            day(9, DayType::Holiday),
            day(10, DayType::Weekend),
            day(11, DayType::Weekend),
            day(12, DayType::Weekend),
            day(13, DayType::Working),
            day(13, DayType::Working),
        ],
    );
    assert_eq!(calendar.get_year(), 2024);
    assert_eq!(calendar.get_days_count(), 7);
    assert_eq!(calendar.get_work_days_count(), 2);
    assert_eq!(calendar.count_days_of_type(DayType::Working), 2);
    assert_eq!(calendar.count_days_of_type(DayType::Weekend), 3);
    assert_eq!(calendar.count_days_of_type(DayType::Holiday), 1);
    assert_eq!(calendar.count_days_of_type(DayType::PreHoliday), 1);
    assert_eq!(calendar.get_days()[6], day(13, DayType::Working));
}
