use chrono::{Datelike, NaiveDate, NaiveDateTime, NaiveTime, Timelike};
use nowpayments::time::{Timestamp, FIRST_DAY, LAST_DAY};

fn timestamp_of(t: NaiveDateTime) -> Timestamp {
    Timestamp::from_parts(t.num_days_from_ce(), t.num_seconds_from_midnight(), t.nanosecond())
        .unwrap()
}

#[test]
fn range_of_days_matches_chrono() {
    assert_eq!(NaiveDate::MIN.num_days_from_ce(), FIRST_DAY);
    assert_eq!(NaiveDate::MAX.num_days_from_ce(), LAST_DAY);
    assert!(Timestamp::from_parts(FIRST_DAY, 0, 0).is_some());
    assert!(Timestamp::from_parts(LAST_DAY, 86399, 999_999_999).is_some());
    assert!(Timestamp::from_parts(FIRST_DAY - 1, 0, 0).is_none());
    assert!(Timestamp::from_parts(LAST_DAY + 1, 0, 0).is_none());
    assert!(Timestamp::from_parts(0, 86400, 0).is_none());
    assert!(Timestamp::from_parts(0, 59, 1_500_000_000).is_some());
    assert!(Timestamp::from_parts(0, 58, 1_500_000_000).is_none());
    assert!(Timestamp::from_parts(0, 59, 2_000_000_000).is_none());
}

#[test]
fn parse_api_times() {
    let t = Timestamp::parse("2026-01-10T17:56:15.327Z").unwrap();
    assert_eq!(t.parts(), (739626, 17 * 3600 + 56 * 60 + 15, 327_000_000));
    assert_eq!(t.date_text(), "2026-01-10");
    for text in ["2026-01-10T17:56:15Z", "2026-01-10T17:56:15.3Z", "2026-13-10T17:56:15.327Z"] {
        let chrono_reads = NaiveDateTime::parse_from_str(text, "%Y-%m-%dT%H:%M:%S%.3fZ");
        assert_eq!(Timestamp::parse(text).is_some(), chrono_reads.is_ok());
        if let Ok(t) = chrono_reads {
            assert_eq!(Timestamp::parse(text), Some(timestamp_of(t)));
        }
    }
    assert!(Timestamp::parse("yesterday").is_none());
}

#[test]
fn days_since_matches_chrono() {
    let times = [
        "2026-01-10T17:56:15.327Z",
        "2026-01-15T17:56:15.326Z",
        "2026-01-15T17:56:15.327Z",
        "2025-12-31T23:59:59.999Z",
        "2000-02-29T00:00:00.000Z",
        "1969-07-20T20:17:40.000Z",
    ];
    for a in times {
        for b in times {
            let x = NaiveDateTime::parse_from_str(a, "%Y-%m-%dT%H:%M:%S%.3fZ").unwrap();
            let y = NaiveDateTime::parse_from_str(b, "%Y-%m-%dT%H:%M:%S%.3fZ").unwrap();
            let ta = Timestamp::parse(a).unwrap();
            let tb = Timestamp::parse(b).unwrap();
            assert_eq!(ta.days_since(&tb), (x - y).num_days());
            assert_eq!(ta.days_since(&tb), -tb.days_since(&ta));
        }
    }
    let day = NaiveDate::from_ymd_opt(2016, 12, 31).unwrap();
    let leap = day.and_time(NaiveTime::from_hms_milli_opt(23, 59, 59, 1_500).unwrap());
    let later = NaiveDate::from_ymd_opt(2017, 1, 5).unwrap().and_hms_opt(23, 59, 59).unwrap();
    let earlier = NaiveDate::from_ymd_opt(2016, 12, 26).unwrap().and_hms_opt(23, 59, 59).unwrap();
    for (p, q) in [(later, leap), (leap, later), (leap, earlier), (earlier, leap), (leap, leap)] {
        assert_eq!(timestamp_of(p).days_since(&timestamp_of(q)), (p - q).num_days());
    }
}

#[test]
fn now_is_today() {
    let now = Timestamp::now().unwrap();
    assert_eq!(now.days_since(&now), 0);
}
