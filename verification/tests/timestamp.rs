use access_logger::timestamp::{Timestamp, MAX_SECS, MIN_SECS, NANOS_PER_SEC};

fn at(secs: i64, nanos: u32) -> Timestamp {
    Timestamp::new(secs, nanos).unwrap()
}

#[test]
fn timestamp_keeps_its_parts() {
    let t = at(1696946136, 123456789);
    assert_eq!(t.unix_seconds(), 1696946136);
    assert_eq!(t.subsec_nanos(), 123456789);
}

#[test]
fn timestamp_range_is_the_four_digit_years() {
    assert!(Timestamp::new(MIN_SECS, 0).is_some());
    assert!(Timestamp::new(MAX_SECS, NANOS_PER_SEC - 1).is_some());
    assert!(Timestamp::new(MIN_SECS - 1, 0).is_none());
    assert!(Timestamp::new(MAX_SECS + 1, 0).is_none());
    assert!(Timestamp::new(i64::MIN, 0).is_none());
    assert!(Timestamp::new(i64::MAX, 0).is_none());
}

#[test]
fn timestamp_rejects_a_full_second_of_nanos() {
    assert!(Timestamp::new(0, NANOS_PER_SEC).is_none());
    assert!(Timestamp::new(59, 1_500_000_000).is_none());
    assert!(Timestamp::new(0, u32::MAX).is_none());
}

#[test]
fn clf_text_of_a_known_instant() {
    assert_eq!(at(1696946136, 0).clf_text(), "10/Oct/2023:13:55:36 +0000");
}

#[test]
fn clf_text_does_not_show_fractions() {
    assert_eq!(at(1696946136, 999_999_999).clf_text(), "10/Oct/2023:13:55:36 +0000");
}

#[test]
fn clf_text_of_the_epoch() {
    assert_eq!(at(0, 0).clf_text(), "01/Jan/1970:00:00:00 +0000");
    assert_eq!(at(-1, 0).clf_text(), "31/Dec/1969:23:59:59 +0000");
}

#[test]
fn clf_text_at_the_ends_of_the_range() {
    assert_eq!(at(MIN_SECS, 0).clf_text(), "01/Jan/0000:00:00:00 +0000");
    assert_eq!(at(MAX_SECS, 0).clf_text(), "31/Dec/9999:23:59:59 +0000");
}

#[test]
fn clf_text_names_every_month() {
    let months = [
        "Jan", "Feb", "Mar", "Apr", "May", "Jun", "Jul", "Aug", "Sep", "Oct", "Nov", "Dec",
    ];
    let starts: [i64; 12] = [
        1672531200, 1675209600, 1677628800, 1680307200, 1682899200, 1685577600, 1688169600,
        1690848000, 1693526400, 1696118400, 1698796800, 1701388800,
    ];
    for (month, start) in months.iter().zip(starts) {
        assert_eq!(at(start, 0).clf_text(), format!("01/{}/2023:00:00:00 +0000", month));
    }
}

#[test]
fn clf_text_agrees_with_chrono() {
    for secs in [MIN_SECS, -86401, 0, 951782400, 1696946136, 4102444799, MAX_SECS] {
        let expected = chrono::DateTime::from_timestamp(secs, 0)
            .unwrap()
            .format("%d/%b/%Y:%H:%M:%S %z")
            .to_string();
        assert_eq!(at(secs, 0).clf_text(), expected);
    }
}

#[test]
fn micros_until_a_later_instant() {
    assert_eq!(at(100, 0).micros_until(&at(100, 42_000)), 42);
    assert_eq!(at(100, 0).micros_until(&at(101, 0)), 1_000_000);
    assert_eq!(at(100, 999_999_000).micros_until(&at(101, 1_000)), 2);
    assert_eq!(at(100, 5).micros_until(&at(100, 5)), 0);
}

#[test]
fn micros_until_an_earlier_instant_is_negative() {
    assert_eq!(at(100, 42_000).micros_until(&at(100, 0)), -42);
    assert_eq!(at(101, 0).micros_until(&at(100, 0)), -1_000_000);
    assert_eq!(at(101, 1_000).micros_until(&at(100, 999_999_000)), -2);
}

#[test]
fn micros_until_drops_fractions_towards_zero() {
    assert_eq!(at(0, 0).micros_until(&at(0, 999)), 0);
    assert_eq!(at(0, 0).micros_until(&at(0, 1_999)), 1);
    assert_eq!(at(0, 999).micros_until(&at(0, 0)), 0);
    assert_eq!(at(0, 1_999).micros_until(&at(0, 0)), -1);
    assert_eq!(at(5, 0).micros_until(&at(3, 999_999_999)), -1_000_000);
}

#[test]
fn micros_until_spans_the_whole_range() {
    let first = at(MIN_SECS, 0);
    let last = at(MAX_SECS, NANOS_PER_SEC - 1);
    assert_eq!(first.micros_until(&last), 315_569_519_999_999_999);
    assert_eq!(last.micros_until(&first), -315_569_519_999_999_999);
}

fn next_sample(state: &mut u64) -> u64 {
    *state = state.wrapping_mul(6364136223846793005).wrapping_add(1442695040888963407);
    *state >> 11
}

fn sample_timestamp(state: &mut u64) -> (i64, u32) {
    let span = (MAX_SECS - MIN_SECS + 1) as u64;
    let secs = MIN_SECS + (next_sample(state) % span) as i64;
    let nanos = (next_sample(state) % NANOS_PER_SEC as u64) as u32;
    (secs, nanos)
}

#[test]
fn micros_until_agrees_with_exact_arithmetic() {
    let mut state = 2023;
    for _ in 0..2000 {
        let (start_secs, start_nanos) = sample_timestamp(&mut state);
        let (end_secs, end_nanos) = sample_timestamp(&mut state);
        let nanos = (end_secs as i128 - start_secs as i128) * 1_000_000_000
            + (end_nanos as i128 - start_nanos as i128);
        let expected = nanos / 1_000;
        let measured = at(start_secs, start_nanos).micros_until(&at(end_secs, end_nanos));
        assert_eq!(measured as i128, expected);
    }
}

#[test]
fn micros_until_agrees_with_exact_arithmetic_within_a_second() {
    let mut state = 7;
    for _ in 0..2000 {
        let (secs, start_nanos) = sample_timestamp(&mut state);
        let end_nanos = (next_sample(&mut state) % NANOS_PER_SEC as u64) as u32;
        let expected = (end_nanos as i64 - start_nanos as i64) / 1_000;
        assert_eq!(at(secs, start_nanos).micros_until(&at(secs, end_nanos)), expected);
    }
}

fn civil_from_days(days: i64) -> (i64, u32, u32) {
    let shifted = days + 719468;
    let era = shifted.div_euclid(146097);
    let day_of_era = shifted.rem_euclid(146097);
    let year_of_era =
        (day_of_era - day_of_era / 1460 + day_of_era / 36524 - day_of_era / 146096) / 365;
    let day_of_year = day_of_era - (365 * year_of_era + year_of_era / 4 - year_of_era / 100);
    let shifted_month = (5 * day_of_year + 2) / 153;
    let day = (day_of_year - (153 * shifted_month + 2) / 5 + 1) as u32;
    let month = if shifted_month < 10 { shifted_month + 3 } else { shifted_month - 9 } as u32;
    let year = year_of_era + era * 400 + if month <= 2 { 1 } else { 0 };
    (year, month, day)
}

#[test]
fn clf_text_has_the_common_log_date_shape() {
    let months = [
        "Jan", "Feb", "Mar", "Apr", "May", "Jun", "Jul", "Aug", "Sep", "Oct", "Nov", "Dec",
    ];
    let mut state = 19700101;
    for _ in 0..2000 {
        let (secs, nanos) = sample_timestamp(&mut state);
        let (year, month, day) = civil_from_days(secs.div_euclid(86400));
        let second_of_day = secs.rem_euclid(86400);
        let expected = format!(
            "{:02}/{}/{:04}:{:02}:{:02}:{:02} +0000",
            day,
            months[(month - 1) as usize],
            year,
            second_of_day / 3600,
            second_of_day / 60 % 60,
            second_of_day % 60
        );
        assert_eq!(at(secs, nanos).clf_text(), expected);
        assert_eq!(expected.len(), 26);
    }
}
