use berechenbarkeit::InvoiceParseError;
use berechenbarkeit::assemble_date;
use berechenbarkeit::days_in_month;

fn some(s: &str) -> Option<String> {
    Some(s.to_string())
}

#[test]
fn month_lengths_follow_the_calendar() {
    assert_eq!(days_in_month(2024, 1), 31);
    assert_eq!(days_in_month(2024, 4), 30);
    assert_eq!(days_in_month(2024, 2), 29);
    assert_eq!(days_in_month(2023, 2), 28);
    // century years are leap years only every four hundred years
    assert_eq!(days_in_month(1900, 2), 28);
    assert_eq!(days_in_month(2000, 2), 29);
    assert_eq!(days_in_month(-400, 2), 29);
}

#[test]
fn assemble_date_defaults_time_to_zero() {
    let dt = assemble_date(&some("2024"), &some("03"), &some("05"), &None, &None, &None).unwrap();
    assert_eq!((dt.year, dt.month, dt.day), (2024, 3, 5));
    assert_eq!((dt.hour, dt.minute, dt.second), (0, 0, 0));
}

#[test]
fn assemble_date_reads_time_groups() {
    let dt = assemble_date(
        &some("2024"),
        &some("12"),
        &some("31"),
        &some("23"),
        &some("59"),
        &some("58"),
    )
    .unwrap();
    assert_eq!((dt.hour, dt.minute, dt.second), (23, 59, 58));
}

#[test]
fn assemble_date_reports_each_failure_kind() {
    match assemble_date(&None, &some("03"), &some("05"), &None, &None, &None) {
        Err(InvoiceParseError::DateFieldMissing(name)) => assert_eq!(name, "year"),
        other => panic!("expected a missing year, got {other:?}"),
    }
    match assemble_date(&some("2024"), &some("03"), &None, &None, &None, &None) {
        Err(InvoiceParseError::DateFieldMissing(name)) => assert_eq!(name, "day"),
        other => panic!("expected a missing day, got {other:?}"),
    }
    match assemble_date(&some("2024"), &some("3x"), &some("05"), &None, &None, &None) {
        Err(InvoiceParseError::NumberFormat(raw)) => assert_eq!(raw, "3x"),
        other => panic!("expected a number format error, got {other:?}"),
    }
    // a group that parses but denotes no real timestamp
    for (y, m, d, h, mi, s) in [
        ("2024", "13", "01", "00", "00", "00"),
        ("2024", "02", "30", "00", "00", "00"),
        ("2024", "01", "01", "24", "00", "00"),
        ("2024", "01", "01", "00", "61", "00"),
        ("99999", "01", "01", "00", "00", "00"),
    ] {
        match assemble_date(&some(y), &some(m), &some(d), &some(h), &some(mi), &some(s)) {
            Err(InvoiceParseError::InvalidCalendarDate) => {},
            other => panic!("expected an invalid calendar date, got {other:?}"),
        }
    }
}
