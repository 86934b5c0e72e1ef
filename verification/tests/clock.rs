use chrono::{DateTime, SecondsFormat};
use sensor_net::clock::{rfc3339_millis, shift_seconds, utc_now, UtcTime, MAX_DELTA_SECONDS, MAX_TIMESTAMP, MIN_TIMESTAMP};

fn chrono_text(secs: i64, nanos: u32) -> String {
    match DateTime::from_timestamp(secs, nanos) {
        Some(t) => t.to_rfc3339_opts(SecondsFormat::Millis, true),
        None => panic!("chrono has no instant at {} {}", secs, nanos),
    }
}

#[test]
fn rfc3339_text_matches_chrono() {
    let mut samples: Vec<(i64, u32)> = vec![
        (0, 0),
        (1_516_991_409, 453_829_000),
        (951_782_400, 999_999_999),
        (-1, 1),
        (-86_400, 0),
        (-62_167_219_200, 0),
        (-62_167_219_201, 5_000_000),
        (253_402_300_799, 999_000_000),
        (253_402_300_800, 0),
        (MIN_TIMESTAMP, 0),
        (MAX_TIMESTAMP, 999_999_999),
    ];
    let mut x: u64 = 0x9e37_79b9_7f4a_7c15;
    for _ in 0..20_000 {
        x ^= x << 13;
        x ^= x >> 7;
        x ^= x << 17;
        let span = (MAX_TIMESTAMP - MIN_TIMESTAMP) as u64;
        let secs = MIN_TIMESTAMP + (x % span) as i64;
        samples.push((secs, (x % 1_000_000_000) as u32));
        samples.push(((x % 4_102_444_800) as i64, (x % 997) as u32 * 1_000_000));
    }
    for (secs, nanos) in samples {
        assert_eq!(rfc3339_millis(UtcTime { secs, nanos }), chrono_text(secs, nanos), "at {} {}", secs, nanos);
    }
}

#[test]
fn the_clock_reads_an_instant() {
    let now = utc_now().unwrap();
    assert!(now.secs > 1_600_000_000);
    assert!(now.nanos < 1_000_000_000);
    assert_eq!(rfc3339_millis(now), chrono_text(now.secs, now.nanos));
}

#[test]
fn shifts_stop_at_chronos_range() {
    let low = UtcTime { secs: MIN_TIMESTAMP + 5, nanos: 7 };
    assert_eq!(shift_seconds(low, -5), Some(UtcTime { secs: MIN_TIMESTAMP, nanos: 7 }));
    assert_eq!(shift_seconds(low, -6), None);
    let high = UtcTime { secs: MAX_TIMESTAMP - 5, nanos: 999_999_999 };
    assert_eq!(shift_seconds(high, 5), Some(UtcTime { secs: MAX_TIMESTAMP, nanos: 999_999_999 }));
    assert_eq!(shift_seconds(high, 6), None);
    let zero = UtcTime { secs: 0, nanos: 0 };
    assert_eq!(shift_seconds(zero, MAX_DELTA_SECONDS), None);
    assert_eq!(shift_seconds(zero, -MAX_DELTA_SECONDS), None);
    assert_eq!(shift_seconds(zero, 3600), Some(UtcTime { secs: 3600, nanos: 0 }));
}
