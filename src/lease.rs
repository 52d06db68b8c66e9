//! The lease: a value together with the atomic word that guards it, and the
//! guards that its operations hand out.
//!
//! Each guard stands for one transition of the word that is still owed: a
//! reader's departure, a writer's withdrawal, or the end of exclusive access.
//! A guard is consumed by the one method that performs that transition, so a
//! transition cannot happen twice.
use vstd::prelude::*;

use core::ops::Deref;
use core::sync::atomic::AtomicUsize;

use crate::atomic::LeaseWord;
use crate::word::{
    counted_reader, drained_step, is_drained, is_word, mark_outcome, mark_step, read_outcome,
    read_step, readers,
};
use crate::Blocked;

verus! {

/// A value shared by many readers or one writer, guarded by one atomic word.
///
/// The word's top bit marks a writer's intent; the other bits count readers.
/// Guards give shared references to the value: a value that a writer changes
/// in place carries its own interior mutability, and the lease makes the
/// writer's access exclusive.
#[derive(Debug)]
pub struct RWLease<T, A = AtomicUsize> {
    atomic: A,
    value: T,
}

impl<T, A: LeaseWord> RWLease<T, A> {
    /// The protected value.
    pub closed spec fn payload(&self) -> T {
        self.value
    }

    /// A lease on `value` with neither readers nor a writer.
    pub fn new(value: T) -> (r: RWLease<T, A>)
        ensures
            r.payload() == value,
    {
        proof {
            A::flag_is_top_bit();
        }
        RWLease { atomic: A::with_word(0), value }
    }

    /// A lease on `value` whose word starts as `state`.
    pub fn new_with_state(state: u64, value: T) -> (r: RWLease<T, A>)
        requires
            is_word(state, A::spec_flag()),
        ensures
            r.payload() == value,
    {
        RWLease { atomic: A::with_word(state), value }
    }

    /// Attempts once to join the readers, or says why it could not.
    pub fn read(&self) -> (r: Result<ReadGuard<'_, T, A>, Blocked>)
        ensures
            r matches Ok(g) ==> g.lease() == self && read_outcome(g.joined_on(), A::spec_flag()) is Ok,
    {
        match self.poll_read() {
            Ok(current) => Ok(ReadGuard { lease: self, joined_on: current }),
            Err(e) => Err(e),
        }
    }

    /// Marks a writer's intent. On success, no further reader can join until
    /// the returned guard is cancelled or its write access released.
    ///
    /// Only one writer may mark its intent at a time: where another writer's
    /// mark is found, this fails with `Blocked::Writer` and leaves it in place.
    pub fn write(&self) -> (r: Result<DrainGuard<'_, T, A>, Blocked>)
        ensures
            r matches Ok(d) ==> d.lease() == self && mark_outcome(d.marked_on(), A::spec_flag())
                == Ok::<bool, Blocked>(d.is_ready()),
            r matches Err(e) ==> e == Blocked::Writer,
    {
        match self.poll_write_mark() {
            Ok((ready, prev)) => Ok(DrainGuard { lease: self, ready, marked_on: prev }),
            Err(e) => Err(e),
        }
    }

    /// Gives back the protected value.
    pub fn into_inner(self) -> (r: T)
        ensures
            r == self.payload(),
    {
        self.value
    }

    /// One attempt to add a reader: the word that was replaced, or why not.
    fn poll_read(&self) -> (r: Result<Ghost<u64>, Blocked>)
        ensures
            r matches Ok(v) ==> is_word(v@, A::spec_flag()) && read_outcome(v@, A::spec_flag()) is Ok,
    {
        let flag = A::flag();
        let current = self.atomic.load_word();
        match read_step(current, flag) {
            Ok(new) => {
                if self.atomic.swap_word(current, new) {
                    Ok(Ghost(current))
                } else {
                    Err(Blocked::LostRace)
                }
            },
            Err(e) => Err(e),
        }
    }

    /// Sets the writer-intent bit and classifies the word it replaced.
    fn poll_write_mark(&self) -> (r: Result<(bool, Ghost<u64>), Blocked>)
        ensures
            r matches Ok((ready, prev)) ==> mark_outcome(prev@, A::spec_flag()) == Ok::<bool, Blocked>(ready),
            r matches Err(e) ==> e == Blocked::Writer,
    {
        let flag = A::flag();
        let prev = self.atomic.or_word(flag);
        match mark_step(prev, flag) {
            Ok(ready) => Ok((ready, Ghost(prev))),
            Err(e) => Err(e),
        }
    }

    /// Whether the word shows a marked writer and no readers, with the word
    /// that was read.
    fn poll_write_upgrade(&self) -> (r: (bool, Ghost<u64>))
        ensures
            is_word(r.1@, A::spec_flag()),
            r.0 == is_drained(r.1@, A::spec_flag()),
    {
        let flag = A::flag();
        let current = self.atomic.load_word();
        (drained_step(current, flag), Ghost(current))
    }

    /// Takes one reader away, with the word that was read first. Where that
    /// word counts no reader, returns false and leaves the word alone.
    fn done_reading(&self) -> (r: (bool, Ghost<u64>))
        ensures
            is_word(r.1@, A::spec_flag()),
            r.0 == (readers(r.1@, A::spec_flag()) > 0),
    {
        let flag = A::flag();
        let current = self.atomic.load_word();
        if counted_reader(current, flag) {
            self.atomic.sub_word(1);
            (true, Ghost(current))
        } else {
            (false, Ghost(current))
        }
    }

    /// Clears the writer-intent bit.
    fn done_writing(&self) {
        let flag = A::flag();
        self.atomic.and_word(flag - 1);
    }
}

/// A writer's intent, marked while readers may still hold the lease.
pub struct DrainGuard<'a, T, A: LeaseWord> {
    lease: &'a RWLease<T, A>,
    ready: bool,
    marked_on: Ghost<u64>,
}

impl<'a, T, A: LeaseWord> DrainGuard<'a, T, A> {
    /// The lease whose writer-intent bit this guard set.
    pub closed spec fn lease(&self) -> &'a RWLease<T, A> {
        self.lease
    }

    /// The writer owned the lease as soon as it marked its intent.
    pub closed spec fn is_ready(&self) -> bool {
        self.ready
    }

    /// The word that marking the intent replaced.
    pub closed spec fn marked_on(&self) -> u64 {
        self.marked_on@
    }

    /// Takes exclusive access if no reader is left, else gives the guard back
    /// unchanged to be tried again later.
    pub fn upgrade(self) -> (r: Result<WriteGuard<'a, T, A>, Self>)
        ensures
            self.is_ready() ==> r is Ok,
            r matches Ok(w) ==> w.lease() == self.lease() && (self.is_ready() || is_drained(
                w.taken_on(),
                A::spec_flag(),
            )),
            r matches Err(d) ==> d == self && !self.is_ready(),
    {
        if self.ready {
            Ok(WriteGuard { lease: self.lease, taken_on: self.marked_on })
        } else {
            let (drained, current) = self.lease.poll_write_upgrade();
            if drained {
                Ok(WriteGuard { lease: self.lease, taken_on: current })
            } else {
                Err(self)
            }
        }
    }

    /// Withdraws the writer's intent: readers may join again.
    pub fn cancel(self) {
        self.lease.done_writing();
    }
}

/// Shared access to a lease's value, held by one reader.
pub struct ReadGuard<'a, T, A: LeaseWord> {
    lease: &'a RWLease<T, A>,
    joined_on: Ghost<u64>,
}

impl<'a, T, A: LeaseWord> ReadGuard<'a, T, A> {
    /// The lease this reader holds.
    pub closed spec fn lease(&self) -> &'a RWLease<T, A> {
        self.lease
    }

    /// The word on which this reader joined.
    pub closed spec fn joined_on(&self) -> u64 {
        self.joined_on@
    }

    /// Leaves the readers. Returns false, and leaves the word alone, when the
    /// word counted no reader, which only a word changed outside the lease
    /// can bring about; the second part is the word that was read.
    pub fn release(self) -> (r: (bool, Ghost<u64>))
        ensures
            is_word(r.1@, A::spec_flag()),
            r.0 == (readers(r.1@, A::spec_flag()) > 0),
    {
        self.lease.done_reading()
    }
}

impl<'a, T, A: LeaseWord> Deref for ReadGuard<'a, T, A> {
    type Target = T;

    fn deref(&self) -> (r: &T)
        ensures
            *r == self.lease().payload(),
    {
        &self.lease.value
    }
}

/// Exclusive access to a lease's value, held by one writer.
pub struct WriteGuard<'a, T, A: LeaseWord> {
    lease: &'a RWLease<T, A>,
    taken_on: Ghost<u64>,
}

impl<'a, T, A: LeaseWord> WriteGuard<'a, T, A> {
    /// The lease this writer holds.
    pub closed spec fn lease(&self) -> &'a RWLease<T, A> {
        self.lease
    }

    /// The word on which exclusive access was taken: the word that marking
    /// replaced where the writer was ready at once, else the word it drained to.
    pub closed spec fn taken_on(&self) -> u64 {
        self.taken_on@
    }

    /// Ends exclusive access: readers may join again.
    pub fn release(self) {
        self.lease.done_writing();
    }
}

impl<'a, T, A: LeaseWord> Deref for WriteGuard<'a, T, A> {
    type Target = T;

    fn deref(&self) -> (r: &T)
        ensures
            *r == self.lease().payload(),
    {
        &self.lease.value
    }
}

} // verus!
