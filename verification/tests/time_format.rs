use pbrt::time_format::format_time;
use pbrt::time_format::split_time;

#[test]
fn format_time_seconds_only() {
    assert_eq!(format_time(0), "0s");
    assert_eq!(format_time(7), "7s");
    assert_eq!(format_time(59), "59s");
}

#[test]
fn format_time_minutes_and_seconds() {
    assert_eq!(format_time(60), "1m 0s");
    assert_eq!(format_time(61), "1m 1s");
    assert_eq!(format_time(3599), "59m 59s");
}

#[test]
fn format_time_hours_and_minutes() {
    assert_eq!(format_time(3600), "1h 0m");
    assert_eq!(format_time(3725), "1h 2m");
    assert_eq!(format_time(36_000 + 59), "10h 0m");
    assert_eq!(format_time(u32::MAX), "1193046h 28m");
}

#[test]
fn split_time_reassembles() {
    assert_eq!(split_time(3725), (1, 2, 5));
    assert_eq!(split_time(59), (0, 0, 59));
    for seconds in [0u32, 1, 59, 60, 3599, 3600, 86_399, 1_000_000, u32::MAX] {
        let (h, m, s) = split_time(seconds);
        assert!(m < 60 && s < 60);
        assert_eq!(h as u64 * 3600 + m as u64 * 60 + s as u64, seconds as u64);
    }
}
