use jsentinel::clock::{nanos_or_zero, seconds_or_zero};
use jsentinel::ids::IdSequence;

#[test]
fn sequence_numbers_increase_and_never_repeat() {
    let mut ids = IdSequence::starting_at(1);
    assert_eq!(ids.next(), Some(1));
    assert_eq!(ids.next(), Some(2));
    assert_eq!(ids.reserve(7), Some(3));
    assert_eq!(ids.next(), Some(10));
}

#[test]
fn an_exhausted_sequence_hands_out_nothing() {
    let mut ids = IdSequence::starting_at(u64::MAX - 1);
    assert_eq!(ids.reserve(2), None);
    assert_eq!(ids.next(), Some(u64::MAX - 1));
    assert_eq!(ids.next(), None);
    assert_eq!(ids.next(), None);
}

#[test]
fn a_clock_before_the_epoch_reads_as_zero() {
    assert_eq!(seconds_or_zero(None), 0);
    assert_eq!(seconds_or_zero(Some(1_700_000_000)), 1_700_000_000);
    assert_eq!(nanos_or_zero(None), 0);
    assert_eq!(nanos_or_zero(Some(5)), 5);
}
