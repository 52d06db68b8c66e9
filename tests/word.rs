use rw_lease::word::{counted_reader, drained_step, mark_step, read_step};
use rw_lease::Blocked;

#[test]
fn read_step_adds_a_reader() {
    assert_eq!(read_step(0, 0x80), Ok(1));
    assert_eq!(read_step(125, 0x80), Ok(126));
    assert_eq!(read_step(0x7fff_fffd, 0x8000_0000), Ok(0x7fff_fffe));
}

#[test]
fn read_step_refuses_saturated_count() {
    assert_eq!(read_step(126, 0x80), Ok(127));
    assert_eq!(read_step(127, 0x80), Err(Blocked::Readers));
    assert_eq!(read_step(0x7fff, 0x8000), Err(Blocked::Readers));
}

#[test]
fn read_step_refuses_marked_writer() {
    assert_eq!(read_step(128, 0x80), Err(Blocked::Writer));
    assert_eq!(read_step(128 + 126, 0x80), Err(Blocked::Writer));
    assert_eq!(read_step(255, 0x80), Err(Blocked::Writer));
    assert_eq!(
        read_step(u64::MAX, 0x8000_0000_0000_0000),
        Err(Blocked::Writer)
    );
}

#[test]
fn mark_step_classifies_previous_word() {
    assert_eq!(mark_step(0, 0x80), Ok(true));
    assert_eq!(mark_step(1, 0x80), Ok(false));
    assert_eq!(mark_step(127, 0x80), Ok(false));
    assert_eq!(mark_step(128, 0x80), Err(Blocked::Writer));
    assert_eq!(mark_step(130, 0x80), Err(Blocked::Writer));
}

#[test]
fn drained_step_needs_mark_and_no_reader() {
    assert!(drained_step(0x80, 0x80));
    assert!(!drained_step(0x81, 0x80));
    assert!(!drained_step(0, 0x80));
    assert!(!drained_step(5, 0x80));
}

#[test]
fn counted_reader_ignores_the_mark() {
    assert!(counted_reader(1, 0x80));
    assert!(counted_reader(0x81, 0x80));
    assert!(!counted_reader(0x80, 0x80));
    assert!(!counted_reader(0, 0x80));
}
