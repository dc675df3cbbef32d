use chrono::{DateTime, Local, NaiveDateTime, TimeZone};
use readyset_scheduler::clock::Moment;

#[test]
fn an_instant_is_read_in_the_zone_of_its_offset() {
    assert_eq!(Moment::instant("1970-01-01 00:00:00", "+0000"), Some(0));
    assert_eq!(Moment::instant("2024-01-01 00:00:00", "+0000"), Some(1704067200));
    assert_eq!(Moment::instant("2024-01-01 00:00:00", "+0100"), Some(1704063600));
    assert_eq!(Moment::instant("2024-01-01 00:00:00", "-0530"), Some(1704087000));
}

#[test]
fn an_instant_is_what_chrono_reads() {
    let expected = DateTime::parse_from_str("2023-07-09 18:45:12 +0200", "%Y-%m-%d %H:%M:%S %z")
        .unwrap()
        .timestamp();
    assert_eq!(Moment::instant("2023-07-09 18:45:12", "+0200"), Some(expected));
}

#[test]
fn what_is_no_date_is_no_instant() {
    assert_eq!(Moment::instant("", "+0000"), None);
    assert_eq!(Moment::instant("2024-13-01 00:00:00", "+0000"), None);
    assert_eq!(Moment::instant("2024-01-01 00:00:00", ""), None);
    assert_eq!(Moment::instant("2024-01-01", "+0000"), None);
    assert_eq!(Moment::instant("yesterday", "+0000"), None);
}

#[test]
fn now_reads_back_as_itself() {
    let now = Moment::now();
    assert_eq!(now.stamp.len(), 19);
    assert_eq!(now.offset.len(), 5);
    let read = Moment::instant(&now.stamp, &now.offset);
    assert_eq!(read, Some(now.seconds));
    let naive = NaiveDateTime::parse_from_str(&now.stamp, "%Y-%m-%d %H:%M:%S").unwrap();
    let local = Local.from_local_datetime(&naive).earliest().unwrap();
    assert!((local.timestamp() - now.seconds).abs() <= 3600);
}
