use measure::report::{compose_rate_line, rate_line, SelectedUnit};
use measure::units::Unit;

#[test]
fn zero_bytes_auto_line() {
    let line = compose_rate_line(0, SelectedUnit::Auto, None);
    assert_eq!(line, "0B/s\n");
}

#[test]
fn auto_line_scales() {
    assert_eq!(compose_rate_line(2048, SelectedUnit::Auto, None), "2.0K/s\n");
    assert_eq!(compose_rate_line(999, SelectedUnit::Auto, None), "999B/s\n");
    assert_eq!(compose_rate_line(1024, SelectedUnit::Auto, None), "1.0K/s\n");
}

#[test]
fn explicit_unit_overrides_auto_detect() {
    let line = compose_rate_line(500, SelectedUnit::Unit(Unit::Mega), None);
    assert_eq!(line, "0.0M/s\n");
    let big = compose_rate_line(2500000, SelectedUnit::Unit(Unit::Byte), None);
    assert_eq!(big, "2500000B/s\n");
}

#[test]
fn stamped_line_layout() {
    let line = compose_rate_line(
        2048,
        SelectedUnit::Auto,
        Some("1996-12-19T16:39:57-08:00"),
    );
    assert_eq!(line, "[1996-12-19T16:39:57-08:00] 2.0K/s\n");
}

#[test]
fn line_without_timestamp_has_no_bracket() {
    for bytes in [0u64, 500, 999, 1024, 2500000, u64::MAX] {
        for mode in [
            SelectedUnit::Auto,
            SelectedUnit::Unit(Unit::Byte),
            SelectedUnit::Unit(Unit::Mega),
        ] {
            let line = rate_line(bytes, mode, false);
            assert!(!line.contains('['));
            assert!(line.ends_with("/s\n"));
        }
    }
}

#[test]
fn timestamped_line_starts_with_parseable_rfc3339() {
    let line = rate_line(1024, SelectedUnit::Auto, true);
    assert!(line.starts_with('['));
    let close = line.find(']').expect("no closing bracket");
    let ts = &line[1..close];
    assert!(chrono::DateTime::parse_from_rfc3339(ts).is_ok());
    assert_eq!(&line[close..close + 2], "] ");
    assert!(line.ends_with("1.0K/s\n"));
}
