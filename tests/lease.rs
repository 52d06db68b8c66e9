use core::cell::Cell;
use core::sync::atomic::{AtomicU16, AtomicU32, AtomicU64, AtomicU8, AtomicUsize};

use rw_lease::{Blocked, RWLease};

#[test]
fn solo_reading() {
    let rw: RWLease<usize, AtomicUsize> = RWLease::new(123);
    let r = rw.read().expect("read guard");
    assert_eq!(*r, 123);
}

#[test]
fn read_with_writer() {
    // writer bit, no readers
    let rw: RWLease<u8, AtomicU8> = RWLease::new_with_state(128, 123);
    assert_eq!(rw.read().err(), Some(Blocked::Writer));
}

#[test]
fn read_all_ones() {
    // maximum readers, writer bit
    let rw: RWLease<u8, AtomicU8> = RWLease::new_with_state(255, 123);
    assert_eq!(rw.read().err(), Some(Blocked::Writer));
}

#[test]
fn read_with_max_readers() {
    let rw: RWLease<u8, AtomicU8> = RWLease::new_with_state(127, 123);
    assert_eq!(rw.read().err(), Some(Blocked::Readers));
}

#[test]
fn solo_writing() {
    let rw: RWLease<Cell<usize>> = RWLease::new(Cell::new(123));
    {
        let d = rw.write().expect("drain guard");
        let w = d.upgrade().ok().expect("write guard");
        assert_eq!(w.get(), 123);
        w.set(124);
        assert_eq!(w.get(), 124);
        assert_eq!(rw.read().err(), Some(Blocked::Writer));
        w.release();
    }
    let r = rw.read().expect("read guard");
    assert_eq!(r.get(), 124);
}

#[test]
fn read_near_saturation_with_writer() {
    // writer bit and one reader short of the maximum
    let rw: RWLease<u8, AtomicU8> = RWLease::new_with_state(128 + 126, 7);
    assert_eq!(rw.read().err(), Some(Blocked::Writer));
}

#[test]
fn read_below_saturation() {
    let rw: RWLease<u8, AtomicU8> = RWLease::new_with_state(126, 7);
    let r = rw.read().expect("read guard");
    assert_eq!(*r, 7);
    assert_eq!(rw.read().err(), Some(Blocked::Readers));
    assert!(r.release().0);
    assert!(rw.read().is_ok());
}

#[test]
fn write_on_idle_is_ready() {
    let rw: RWLease<u32, AtomicU16> = RWLease::new(9);
    let d = rw.write().expect("drain guard");
    let w = d.upgrade().ok().expect("write guard");
    assert_eq!(*w, 9);
}

#[test]
fn upgrade_waits_for_reader() {
    let rw: RWLease<u32, AtomicU32> = RWLease::new(5);
    let r = rw.read().expect("read guard");
    let d = rw.write().expect("drain guard");
    let d = match d.upgrade() {
        Ok(_) => panic!("upgraded while a reader holds the lease"),
        Err(d) => d,
    };
    assert!(r.release().0);
    let w = d.upgrade().ok().expect("write guard");
    assert_eq!(*w, 5);
}

#[test]
fn no_reader_joins_while_writer_waits() {
    let rw: RWLease<u8, AtomicU8> = RWLease::new(1);
    let r = rw.read().expect("read guard");
    let _d = rw.write().expect("drain guard");
    assert_eq!(rw.read().err(), Some(Blocked::Writer));
    assert_eq!(rw.read().err(), Some(Blocked::Writer));
    assert!(r.release().0);
    assert_eq!(rw.read().err(), Some(Blocked::Writer));
}

#[test]
fn second_writer_is_refused() {
    let rw: RWLease<u8, AtomicU64> = RWLease::new(1);
    let d = rw.write().expect("drain guard");
    assert_eq!(rw.write().err(), Some(Blocked::Writer));
    let w = d.upgrade().ok().expect("write guard");
    assert_eq!(rw.write().err(), Some(Blocked::Writer));
    assert_eq!(rw.read().err(), Some(Blocked::Writer));
    w.release();
    assert!(rw.read().is_ok());
}

#[test]
fn reads_then_releases_restore_idle() {
    let rw: RWLease<u8, AtomicU8> = RWLease::new(3);
    let a = rw.read().expect("read guard");
    let b = rw.read().expect("read guard");
    let c = rw.read().expect("read guard");
    assert!(a.release().0);
    assert!(b.release().0);
    assert!(c.release().0);
    // the word is idle again: a writer owns the lease at once
    let d = rw.write().expect("drain guard");
    assert!(d.upgrade().is_ok());
}

#[test]
fn drain_needs_every_reader_gone() {
    let rw: RWLease<u8, AtomicU8> = RWLease::new(3);
    let a = rw.read().expect("read guard");
    let b = rw.read().expect("read guard");
    let d = rw.write().expect("drain guard");
    let d = d.upgrade().err().expect("still draining");
    assert!(a.release().0);
    let d = d.upgrade().err().expect("still draining");
    assert!(b.release().0);
    assert!(d.upgrade().is_ok());
}

#[test]
fn cancel_then_reopen() {
    let rw: RWLease<u8, AtomicU8> = RWLease::new(4);
    let r = rw.read().expect("read guard");
    let d = rw.write().expect("drain guard");
    assert_eq!(rw.read().err(), Some(Blocked::Writer));
    d.cancel();
    let r2 = rw.read().expect("read guard");
    assert_eq!(*r2, 4);
    assert!(r.release().0);
    assert!(r2.release().0);
}

#[test]
fn into_inner_gives_value_back() {
    let rw: RWLease<u32> = RWLease::new(77);
    {
        let r = rw.read().expect("read guard");
        assert!(r.release().0);
    }
    assert_eq!(rw.into_inner(), 77);
}

#[test]
fn widest_words() {
    let rw: RWLease<u8, AtomicU64> = RWLease::new_with_state(0x7fff_ffff_ffff_ffff, 1);
    assert_eq!(rw.read().err(), Some(Blocked::Readers));
    let rw: RWLease<u8, AtomicU64> = RWLease::new_with_state(0xffff_ffff_ffff_ffff, 1);
    assert_eq!(rw.read().err(), Some(Blocked::Writer));
    let rw: RWLease<u8, AtomicU32> = RWLease::new_with_state(0x7fff_fffe, 1);
    assert!(rw.read().is_ok());
    assert_eq!(rw.read().err(), Some(Blocked::Readers));
    let rw: RWLease<u8, AtomicU16> = RWLease::new_with_state(0x8001, 1);
    assert_eq!(rw.read().err(), Some(Blocked::Writer));
}

#[test]
fn cancel_ready_guard_leaves_lease_idle() {
    let rw: RWLease<u8, AtomicU16> = RWLease::new(2);
    let d = rw.write().expect("drain guard");
    d.cancel();
    let d = rw.write().expect("drain guard");
    assert!(d.upgrade().is_ok());
}
