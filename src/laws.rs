//! What the protocol guarantees, over a model of the guards that are live on
//! one lease.
//!
//! Each operation of the lease is a step of this model, and each step is
//! enabled exactly when the decision function of `word` on the current word
//! allows it. The word that the model implies moves as the atomic operation
//! of the step moves it.
use vstd::prelude::*;

use crate::word::{
    is_drained, is_flag, is_word, mark_outcome, marked, read_outcome, reader_left, readers,
    unmarked, writer_marked,
};
use crate::Blocked;

verus! {

/// The guards that are live on one lease.
pub struct Holders {
    /// Read guards.
    pub readers: nat,
    /// Drain guards: writers that have marked their intent and wait for
    /// readers to leave.
    pub drainers: nat,
    /// Write guards.
    pub writers: nat,
}

/// An operation on a lease.
pub enum Op {
    /// A read attempt that succeeds where the word allows it.
    Join,
    /// A read guard is released.
    Leave,
    /// A writer marks its intent.
    Mark,
    /// A drain guard attempts to take exclusive access.
    Upgrade,
    /// A drain guard is cancelled.
    Cancel,
    /// A write guard is released.
    Finish,
}

/// No guard is live.
pub open spec fn idle_holders() -> Holders {
    Holders { readers: 0, drainers: 0, writers: 0 }
}

/// The word that the live guards imply.
pub open spec fn word_of(h: Holders, flag: u64) -> int {
    h.readers + if h.drainers + h.writers > 0 {
        flag as int
    } else {
        0
    }
}

/// A write guard is live only alone: with no read guard and no other
/// writer's guard, drain or write.
pub open spec fn exclusive(h: Holders) -> bool {
    h.writers > 0 ==> h.writers == 1 && h.readers == 0 && h.drainers == 0
}

/// The live guards fit in the word and respect mutual exclusion.
pub open spec fn holders_valid(h: Holders, flag: u64) -> bool {
    &&& exclusive(h)
    &&& h.drainers + h.writers <= 1
    &&& h.readers < flag
}

/// The guards after `op`, or `None` where the lease refuses it.
pub open spec fn step(h: Holders, op: Op, flag: u64) -> Option<Holders> {
    let w = word_of(h, flag) as u64;
    match op {
        Op::Join => if read_outcome(w, flag) is Ok {
            Some(Holders { readers: h.readers + 1, ..h })
        } else {
            None
        },
        Op::Leave => if h.readers > 0 {
            Some(Holders { readers: (h.readers - 1) as nat, ..h })
        } else {
            None
        },
        Op::Mark => match mark_outcome(w, flag) {
            Ok(ready) => if ready {
                Some(Holders { writers: h.writers + 1, ..h })
            } else {
                Some(Holders { drainers: h.drainers + 1, ..h })
            },
            Err(_) => None,
        },
        Op::Upgrade => if h.drainers > 0 && is_drained(w, flag) {
            Some(Holders { drainers: (h.drainers - 1) as nat, writers: h.writers + 1, ..h })
        } else {
            None
        },
        Op::Cancel => if h.drainers > 0 {
            Some(Holders { drainers: (h.drainers - 1) as nat, ..h })
        } else {
            None
        },
        Op::Finish => if h.writers > 0 {
            Some(Holders { writers: (h.writers - 1) as nat, ..h })
        } else {
            None
        },
    }
}

/// The guards after `ops` in order, or `None` where one is refused.
pub open spec fn run(h: Holders, ops: Seq<Op>, flag: u64) -> Option<Holders>
    decreases ops.len(),
{
    if ops.len() == 0 {
        Some(h)
    } else {
        match step(h, ops[0], flag) {
            Some(h1) => run(h1, ops.drop_first(), flag),
            None => None,
        }
    }
}

/// `n` copies of `op`.
pub open spec fn repeat(op: Op, n: nat) -> Seq<Op> {
    Seq::new(n, |i: int| op)
}

/// One step keeps the live guards valid, and moves the word as the atomic
/// operation behind it does.
pub proof fn lemma_step_valid(h: Holders, op: Op, flag: u64)
    requires
        is_flag(flag),
        holders_valid(h, flag),
    ensures
        is_word(word_of(h, flag) as u64, flag),
        step(h, op, flag) matches Some(h2) ==> holders_valid(h2, flag) && match op {
            Op::Join => read_outcome(word_of(h, flag) as u64, flag) == Ok::<u64, Blocked>(
                word_of(h2, flag) as u64,
            ),
            Op::Leave => word_of(h2, flag) == reader_left(word_of(h, flag) as u64),
            Op::Mark => word_of(h2, flag) == marked(word_of(h, flag) as u64, flag),
            Op::Upgrade => word_of(h2, flag) == word_of(h, flag),
            Op::Cancel => word_of(h2, flag) == unmarked(word_of(h, flag) as u64, flag),
            Op::Finish => word_of(h2, flag) == unmarked(word_of(h, flag) as u64, flag),
        },
{
}

/// Mutual exclusion: in every state that operations reach from an idle lease,
/// a write guard is never live together with a read guard or with another
/// write guard (nor with another writer's drain guard).
pub proof fn lemma_mutual_exclusion(ops: Seq<Op>, flag: u64)
    requires
        is_flag(flag),
    ensures
        run(idle_holders(), ops, flag) matches Some(h) ==> exclusive(h),
{
    lemma_run_valid(idle_holders(), ops, flag);
}

/// Every state reached from valid guards by operations is valid.
pub proof fn lemma_run_valid(h: Holders, ops: Seq<Op>, flag: u64)
    requires
        is_flag(flag),
        holders_valid(h, flag),
    ensures
        run(h, ops, flag) matches Some(h2) ==> holders_valid(h2, flag),
    decreases ops.len(),
{
    if ops.len() > 0 {
        lemma_step_valid(h, ops[0], flag);
        if let Some(h1) = step(h, ops[0], flag) {
            lemma_run_valid(h1, ops.drop_first(), flag);
        }
    }
}

/// While a writer's intent is marked, every read attempt fails with
/// `Blocked::Writer`, and a reader's departure leaves the mark in place.
pub proof fn lemma_no_reader_while_marked(h: Holders, flag: u64)
    requires
        is_flag(flag),
        holders_valid(h, flag),
        h.drainers + h.writers > 0,
    ensures
        read_outcome(word_of(h, flag) as u64, flag) == Err::<u64, Blocked>(Blocked::Writer),
        step(h, Op::Join, flag) is None,
        step(h, Op::Leave, flag) matches Some(h2) ==> writer_marked(word_of(h2, flag) as u64, flag),
{
}

/// Count conservation: `n` successful read attempts followed by `n` releases
/// give back the guards, and so the word, that the lease started with.
pub proof fn lemma_count_conservation(h: Holders, n: nat, flag: u64)
    requires
        is_flag(flag),
        holders_valid(h, flag),
        run(h, repeat(Op::Join, n), flag) is Some,
    ensures
        run(run(h, repeat(Op::Join, n), flag)->Some_0, repeat(Op::Leave, n), flag) == Some(h),
        readers(word_of(h, flag) as u64, flag) == h.readers,
{
    lemma_joins(h, n, flag);
    lemma_leaves(Holders { readers: h.readers + n, ..h }, n, flag);
}

/// `n` successful read attempts add `n` readers.
proof fn lemma_joins(h: Holders, n: nat, flag: u64)
    requires
        is_flag(flag),
        run(h, repeat(Op::Join, n), flag) is Some,
    ensures
        run(h, repeat(Op::Join, n), flag) == Some(Holders { readers: h.readers + n, ..h }),
    decreases n,
{
    if n > 0 {
        let h1 = Holders { readers: h.readers + 1, ..h };
        assert(repeat(Op::Join, n).drop_first() =~= repeat(Op::Join, (n - 1) as nat));
        lemma_joins(h1, (n - 1) as nat, flag);
    }
}

/// `n` releases take `n` readers away.
proof fn lemma_leaves(h: Holders, n: nat, flag: u64)
    requires
        n <= h.readers,
    ensures
        run(h, repeat(Op::Leave, n), flag) == Some(
            Holders { readers: (h.readers - n) as nat, ..h },
        ),
    decreases n,
{
    if n > 0 {
        let h1 = Holders { readers: (h.readers - 1) as nat, ..h };
        assert(repeat(Op::Leave, n).drop_first() =~= repeat(Op::Leave, (n - 1) as nat));
        lemma_leaves(h1, (n - 1) as nat, flag);
    }
}

/// Drain correctness: a writer that marks its intent while `c` readers hold
/// the lease waits; after `k` of them have left, it takes exclusive access
/// exactly when `k == c`, and no new reader joins meanwhile.
pub proof fn lemma_drain(h: Holders, k: nat, flag: u64)
    requires
        is_flag(flag),
        holders_valid(h, flag),
        h.drainers == 0,
        h.writers == 0,
        h.readers > 0,
        k <= h.readers,
    ensures
        mark_outcome(word_of(h, flag) as u64, flag) == Ok::<bool, Blocked>(false),
        step(h, Op::Mark, flag) == Some(Holders { drainers: 1, ..h }),
        run(Holders { drainers: 1, ..h }, repeat(Op::Leave, k), flag) == Some(
            Holders { readers: (h.readers - k) as nat, drainers: 1, ..h },
        ),
        step(Holders { readers: (h.readers - k) as nat, drainers: 1, ..h }, Op::Upgrade, flag)
            is Some <==> k == h.readers,
        step(Holders { readers: (h.readers - k) as nat, drainers: 1, ..h }, Op::Join, flag)
            is None,
{
    lemma_leaves(Holders { drainers: 1, ..h }, k, flag);
}

/// Cancel then reopen: once a drain guard is cancelled, a read attempt
/// succeeds when no other writer's intent is marked and the count has room.
pub proof fn lemma_cancel_reopens(h: Holders, flag: u64)
    requires
        is_flag(flag),
        holders_valid(h, flag),
        h.drainers > 0,
        h.readers + 1 < flag,
    ensures
        step(h, Op::Cancel, flag) == Some(Holders { drainers: 0, ..h }),
        step(Holders { drainers: 0, ..h }, Op::Join, flag) == Some(
            Holders { readers: h.readers + 1, drainers: 0, ..h },
        ),
        unmarked(marked(word_of(Holders { drainers: 0, ..h }, flag) as u64, flag), flag)
            == word_of(Holders { drainers: 0, ..h }, flag),
{
}

} // verus!
