use portfolio::clock::{second_of, unix_seconds};

#[test]
fn reading_after_the_epoch_is_its_seconds() {
    assert_eq!(second_of(Some(0)), 0);
    assert_eq!(second_of(Some(1_700_000_000)), 1_700_000_000);
    assert_eq!(second_of(Some(u64::MAX)), u64::MAX);
}

#[test]
fn reading_before_the_epoch_is_zero() {
    assert_eq!(second_of(None), 0);
}

#[test]
fn wall_clock_reads_a_plausible_second() {
    let first = unix_seconds();
    let second = unix_seconds();
    // Well after 2020-01-01 and well before the year 2100.
    assert!(first > 1_577_836_800 && second < 4_102_444_800);
}
