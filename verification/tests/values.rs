use chrono::NaiveDate;
use onyx_core_builders::values::{to_signed, to_unsigned, Date};

fn date(year: i32, month: u32, day: u32) -> Date {
    Date { year, month, day }
}

#[test]
fn dates_order_as_the_calendar_does() {
    assert!(date(2024, 1, 1).before(&date(2024, 1, 2)));
    assert!(date(2024, 1, 31).before(&date(2024, 2, 1)));
    assert!(date(2023, 12, 31).before(&date(2024, 1, 1)));
    assert!(!date(2024, 1, 1).before(&date(2024, 1, 1)));
    assert!(!date(2024, 3, 1).before(&date(2024, 2, 28)));
    assert!(date(-1, 12, 31).before(&date(0, 1, 1)));
    assert!(date(2024, 3, 1).after(&date(2024, 2, 28)));
    assert!(!date(2024, 3, 1).after(&date(2024, 3, 1)));
    assert!(!date(2024, 2, 1).after(&date(2024, 3, 1)));
}

#[test]
fn dates_order_as_chrono_orders_them() {
    let days = [
        (1999, 12, 31),
        (2000, 1, 1),
        (2000, 2, 29),
        (2000, 3, 1),
        (2024, 6, 15),
        (2024, 6, 16),
        (2024, 7, 1),
        (2025, 1, 1),
    ];
    for a in days {
        for b in days {
            let ours = date(a.0, a.1, a.2).before(&date(b.0, b.1, b.2));
            let theirs = NaiveDate::from_ymd_opt(a.0, a.1, a.2).unwrap()
                < NaiveDate::from_ymd_opt(b.0, b.1, b.2).unwrap();
            assert_eq!(ours, theirs);
        }
    }
}

#[test]
fn dates_as_text() {
    assert_eq!(date(2024, 6, 5).iso_text().as_deref(), Some("2024-06-05"));
    assert_eq!(date(2024, 12, 31).iso_text().as_deref(), Some("2024-12-31"));
    assert_eq!(date(987, 1, 1).iso_text().as_deref(), Some("0987-01-01"));
    assert_eq!(date(12, 10, 9).iso_text().as_deref(), Some("0012-10-09"));
    assert_eq!(date(0, 1, 1).iso_text().as_deref(), Some("0000-01-01"));
    assert_eq!(date(-1, 1, 1).iso_text().as_deref(), Some("-0001-01-01"));
    assert_eq!(date(-12345, 5, 6).iso_text().as_deref(), Some("-12345-05-06"));
    assert_eq!(date(12345, 1, 1).iso_text().as_deref(), Some("+12345-01-01"));
    assert_eq!(date(9999, 1, 1).iso_text().as_deref(), Some("9999-01-01"));
    assert_eq!(date(10000, 1, 1).iso_text().as_deref(), Some("+10000-01-01"));
}

#[test]
fn dates_as_text_agree_with_chrono() {
    for (y, m, d) in [
        (2024, 6, 5),
        (1, 1, 1),
        (0, 2, 29),
        (-1, 12, 31),
        (-123, 3, 4),
        (-1234, 5, 6),
        (-12345, 7, 8),
        (999, 9, 9),
        (1000, 10, 10),
        (9999, 12, 31),
        (10000, 1, 1),
        (262142, 11, 30),
        (-262143, 1, 1),
    ] {
        let theirs = NaiveDate::from_ymd_opt(y, m, d).unwrap().format("%Y-%m-%d").to_string();
        assert_eq!(date(y, m, d).iso_text(), Some(theirs));
    }
}

#[test]
fn what_is_no_day_of_the_calendar_has_no_text() {
    for (y, m, d) in [
        (2023, 2, 29),
        (1900, 2, 29),
        (2024, 4, 31),
        (2024, 0, 1),
        (2024, 13, 1),
        (2024, 1, 0),
        (2024, 1, 32),
        (262143, 1, 1),
        (-262144, 12, 31),
    ] {
        assert_eq!(date(y, m, d).iso_text(), None);
        assert!(NaiveDate::from_ymd_opt(y, m, d).is_none());
    }
    assert_eq!(date(2024, 2, 29).iso_text().as_deref(), Some("2024-02-29"));
    assert_eq!(date(2000, 2, 29).iso_text().as_deref(), Some("2000-02-29"));
    assert_eq!(date(-4, 2, 29).iso_text().as_deref(), Some("-0004-02-29"));
}

#[test]
fn counts_keep_their_bits() {
    assert_eq!(to_unsigned(0), 0);
    assert_eq!(to_unsigned(5), 5);
    assert_eq!(to_unsigned(i32::MAX), 2147483647);
    assert_eq!(to_unsigned(-1), u32::MAX);
    assert_eq!(to_unsigned(i32::MIN), 2147483648);
    assert_eq!(to_signed(0), 0);
    assert_eq!(to_signed(7), 7);
    assert_eq!(to_signed(2147483647), i32::MAX);
    assert_eq!(to_signed(2147483648), i32::MIN);
    assert_eq!(to_signed(u32::MAX), -1);
    for v in [0i32, 1, -1, 100, -100, i32::MAX, i32::MIN] {
        assert_eq!(to_unsigned(v), v as u32);
        assert_eq!(to_signed(to_unsigned(v)), v);
    }
    for v in [0u32, 1, 100, 2147483647, 2147483648, u32::MAX] {
        assert_eq!(to_signed(v), v as i32);
        assert_eq!(to_unsigned(to_signed(v)), v);
    }
}
