use chrono::{DateTime, Utc};
use microgrid_kernel::clock::Timestamp;
use microgrid_kernel::text::{push_decimal, push_fixed, push_signed};

fn fixed(v: i64, shift: u32, decimals: u32) -> String {
    let mut s = String::from(">");
    push_fixed(&mut s, v, shift, decimals);
    s
}

#[test]
fn fixed_point_text() {
    assert_eq!(fixed(0, 2, 1), ">0.0");
    assert_eq!(fixed(1_000, 2, 1), ">1.0");
    assert_eq!(fixed(-1_250, 2, 1), ">-1.2");
    assert_eq!(fixed(1_350, 2, 1), ">1.4");
    assert_eq!(fixed(123_456, 2, 1), ">123.5");
    assert_eq!(fixed(5, 2, 1), ">0.0");
    assert_eq!(fixed(-4, 2, 1), ">-0.0");
    assert_eq!(fixed(50_000_000, 6, 0), ">50");
    assert_eq!(fixed(12_500_000, 6, 0), ">12");
    assert_eq!(fixed(7, 0, 3), ">0.007");
    assert_eq!(fixed(i64::MIN, 0, 0), ">-9223372036854775808");
}

#[test]
fn integer_text() {
    let mut s = String::new();
    push_decimal(&mut s, 0);
    push_decimal(&mut s, 907);
    assert_eq!(s, "0907");
    let mut t = String::new();
    push_signed(&mut t, -42);
    push_signed(&mut t, 7);
    assert_eq!(t, "-427");
    let mut u = String::new();
    push_signed(&mut u, i64::MIN);
    assert_eq!(u, "-9223372036854775808");
}

#[test]
fn timestamps_chrono_accepts() {
    let t = Timestamp::from_unix(1_431_648_000, 5).unwrap();
    assert_eq!(t.secs(), 1_431_648_000);
    assert_eq!(t.nanos(), 5);
    assert!(Timestamp::from_unix(i64::MAX, 0).is_none());
    assert!(Timestamp::from_unix(0, 2_000_000_000).is_none());
}

#[test]
fn rfc3339_text_of_timestamps() {
    assert_eq!(Timestamp::from_unix(0, 0).unwrap().to_rfc3339(), "1970-01-01T00:00:00+00:00");
    assert_eq!(
        Timestamp::from_unix(1_431_648_000, 500_000_000).unwrap().to_rfc3339(),
        "2015-05-15T00:00:00.500+00:00"
    );
}

#[test]
fn nanos_since_epoch_as_chrono() {
    assert_eq!(Timestamp::from_unix(1, 5).unwrap().nanos_since_epoch(), Some(1_000_000_005));
    assert_eq!(Timestamp::from_unix(-1, 500_000_000).unwrap().nanos_since_epoch(), Some(-500_000_000));
    assert_eq!(Timestamp::from_unix(10_000_000_000, 0).unwrap().nanos_since_epoch(), None);
    assert_eq!(Timestamp::from_unix(-10_000_000_000, 0).unwrap().nanos_since_epoch(), None);
}

#[test]
fn now_is_after_epoch() {
    let t = Timestamp::now();
    assert!(t.secs() > 1_600_000_000);
    assert!(t.nanos() < 1_000_000_000);
    let c = t;
    assert_eq!((c.secs(), c.nanos()), (t.secs(), t.nanos()));
}

#[test]
fn chrono_range_matches_chrono() {
    let min = -96_465_292i64 * 86_400;
    let max = 95_026_236i64 * 86_400 + 86_399;
    let cases: [(i64, u32); 14] = [
        (min, 0),
        (min - 1, 999_999_999),
        (max, 999_999_999),
        (max + 1, 0),
        (59, 1_500_000_000),
        (58, 1_500_000_000),
        (-1, 1_999_999_999),
        (-2, 1_000_000_000),
        (0, 2_000_000_000),
        (1_700_000_000, 0),
        (i64::MIN, 0),
        (i64::MAX, 0),
        (-86_400 * 365 * 3000, 5),
        (86_400 * 365 * 3000 + 119, 1_234_567_890),
    ];
    for (secs, nanos) in cases {
        assert_eq!(
            Timestamp::from_unix(secs, nanos).is_some(),
            DateTime::<Utc>::from_timestamp(secs, nanos).is_some(),
            "secs={secs} nanos={nanos}"
        );
    }
    assert!(Timestamp::from_unix(min, 0).is_some());
    assert!(Timestamp::from_unix(max, 999_999_999).is_some());
}
