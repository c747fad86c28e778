use pinepods_web::dates::format_date;

#[test]
fn iso_date_shows_as_month_day_year() {
    assert_eq!(format_date("2024-03-05T10:20:30"), "03-05-2024");
    assert_eq!(format_date("1999-12-31T23:59:59"), "12-31-1999");
}

#[test]
fn small_years_are_padded() {
    assert_eq!(format_date("0999-01-09T00:00:00"), "01-09-0999");
}

#[test]
fn unreadable_date_shows_as_epoch() {
    assert_eq!(format_date("not a date"), "01-01-1970");
    assert_eq!(format_date("2024-03-05"), "01-01-1970");
    assert_eq!(format_date("2023-02-29T00:00:00"), "01-01-1970");
    assert_eq!(format_date(""), "01-01-1970");
}

#[test]
fn leap_day_is_read() {
    assert_eq!(format_date("2024-02-29T12:00:00"), "02-29-2024");
}
