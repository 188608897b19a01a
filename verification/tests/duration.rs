use access_logger::duration::{format_duration, push_duration};

#[test]
fn microseconds_below_one_millisecond() {
    assert_eq!(format_duration(0), "0\u{b5}s");
    assert_eq!(format_duration(42), "42\u{b5}s");
    assert_eq!(format_duration(999), "999\u{b5}s");
}

#[test]
fn tiers_change_exactly_at_their_boundaries() {
    assert_eq!(format_duration(999), "999\u{b5}s");
    assert_eq!(format_duration(1000), "1.00ms");
    assert_eq!(format_duration(999999), "1000.00ms");
    assert_eq!(format_duration(1000000), "1.00s");
}

#[test]
fn milliseconds_have_two_places() {
    assert_eq!(format_duration(1500), "1.50ms");
    assert_eq!(format_duration(12340), "12.34ms");
    assert_eq!(format_duration(250000), "250.00ms");
}

#[test]
fn seconds_have_two_places() {
    assert_eq!(format_duration(2500000), "2.50s");
    assert_eq!(format_duration(61230000), "61.23s");
    assert_eq!(format_duration(3600000000), "3600.00s");
}

#[test]
fn amounts_round_to_the_nearest_hundredth() {
    assert_eq!(format_duration(1004), "1.00ms");
    assert_eq!(format_duration(1005), "1.01ms");
    assert_eq!(format_duration(1006), "1.01ms");
    assert_eq!(format_duration(999994), "999.99ms");
    assert_eq!(format_duration(999995), "1000.00ms");
    assert_eq!(format_duration(1004999), "1.00s");
    assert_eq!(format_duration(1005000), "1.01s");
}

#[test]
fn negative_latency_is_shown_in_microseconds() {
    assert_eq!(format_duration(-1), "-1\u{b5}s");
    assert_eq!(format_duration(-2500000), "-2500000\u{b5}s");
}

#[test]
fn largest_latency_does_not_overflow() {
    assert_eq!(format_duration(i64::MAX), "9223372036854.78s");
}

#[test]
fn duration_is_appended_to_what_is_there() {
    let mut out = String::from("took ");
    push_duration(&mut out, 42);
    assert_eq!(out, "took 42\u{b5}s");
}

fn hundredths(amount: &str) -> i128 {
    let (whole, fraction) = amount.split_once('.').unwrap();
    assert_eq!(fraction.len(), 2);
    whole.parse::<i128>().unwrap() * 100 + fraction.parse::<i128>().unwrap()
}

fn denoted_micros(text: &str) -> i128 {
    if let Some(amount) = text.strip_suffix("\u{b5}s") {
        amount.parse::<i128>().unwrap()
    } else if let Some(amount) = text.strip_suffix("ms") {
        hundredths(amount) * 10
    } else {
        hundredths(text.strip_suffix("s").unwrap()) * 10000
    }
}

#[test]
fn longer_latency_never_reads_shorter() {
    let samples: [i64; 16] = [
        i64::MIN, -7, 0, 1, 998, 999, 1000, 1001, 1004, 1005, 999994, 999999, 1000000, 1004999,
        1005000, i64::MAX,
    ];
    for pair in samples.windows(2) {
        let shorter = denoted_micros(&format_duration(pair[0]));
        let longer = denoted_micros(&format_duration(pair[1]));
        assert!(shorter <= longer, "{} then {}", pair[0], pair[1]);
    }
}
