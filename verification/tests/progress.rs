use dj_ferris::get_progress;
use dj_ferris::text::u64_to_string;

#[test]
fn progress_halfway() {
    assert_eq!(
        get_progress(150, 300),
        "[\u{25ae}\u{25ae}\u{25ae}\u{25ae}\u{25ae}\u{25ae}\u{25ae}\u{25ae}\u{25ae}\u{25ae}\u{25cf}\u{25af}\u{25af}\u{25af}\u{25af}\u{25af}\u{25af}\u{25af}\u{25af}\u{25af}]\t02:30/05:00"
    );
}

#[test]
fn progress_zero_duration_has_marker_at_first_cell() {
    let bar = get_progress(0, 0);
    assert_eq!(
        bar,
        "[\u{25cf}\u{25af}\u{25af}\u{25af}\u{25af}\u{25af}\u{25af}\u{25af}\u{25af}\u{25af}\u{25af}\u{25af}\u{25af}\u{25af}\u{25af}\u{25af}\u{25af}\u{25af}\u{25af}\u{25af}]\t00:00/00:00"
    );
    assert_eq!(bar.chars().nth(1), Some('\u{25cf}'));
}

#[test]
fn progress_start_of_track() {
    let bar = get_progress(0, 300);
    assert!(bar.starts_with("[\u{25cf}"));
    assert!(bar.ends_with("\t00:00/05:00"));
}

#[test]
fn progress_past_the_end_fills_every_cell() {
    let bar = get_progress(400, 300);
    assert_eq!(
        bar,
        "[\u{25ae}\u{25ae}\u{25ae}\u{25ae}\u{25ae}\u{25ae}\u{25ae}\u{25ae}\u{25ae}\u{25ae}\u{25ae}\u{25ae}\u{25ae}\u{25ae}\u{25ae}\u{25ae}\u{25ae}\u{25ae}\u{25ae}\u{25ae}]\t06:40/05:00"
    );
}

#[test]
fn progress_pads_minutes_and_seconds() {
    let bar = get_progress(61, 3661);
    assert!(bar.ends_with("\t01:01/61:01"));
}

#[test]
fn renders_digits() {
    assert_eq!(u64_to_string(0), "0");
    assert_eq!(u64_to_string(7), "7");
    assert_eq!(u64_to_string(120), "120");
    assert_eq!(u64_to_string(u64::MAX), "18446744073709551615");
}
