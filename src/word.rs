//! The lock word: one unsigned integer whose top bit marks a writer's intent
//! and whose remaining bits count the readers that hold a lease.
//!
//! The word is modelled here as a number below `2 * flag`, where `flag` is the
//! value of the top bit of the chosen width. Each decision that the lease takes
//! on a word it has observed is a function of this module, stated exactly.
use vstd::prelude::*;

use crate::Blocked;

verus! {

/// The value of the top bit of an 8, 16, 32 or 64 bit word.
pub open spec fn is_flag(flag: u64) -> bool {
    flag == 0x80u64 || flag == 0x8000u64 || flag == 0x8000_0000u64
        || flag == 0x8000_0000_0000_0000u64
}

/// A value that a word of the width whose top bit is `flag` can hold.
pub open spec fn is_word(v: u64, flag: u64) -> bool {
    v < 2 * flag
}

/// The writer-intent bit is set.
pub open spec fn writer_marked(v: u64, flag: u64) -> bool {
    v >= flag
}

/// The number of readers that the word counts.
pub open spec fn readers(v: u64, flag: u64) -> u64 {
    if v >= flag {
        (v - flag) as u64
    } else {
        v
    }
}

/// The writer-intent bit is set and no reader is left: a writer owns the lease.
pub open spec fn is_drained(v: u64, flag: u64) -> bool {
    v == flag
}

/// What a read attempt decides on an observed word: the word to install, or
/// why no reader may join.
pub open spec fn read_outcome(v: u64, flag: u64) -> Result<u64, Blocked> {
    if writer_marked(v, flag) {
        Err(Blocked::Writer)
    } else if v + 1 >= flag {
        Err(Blocked::Readers)
    } else {
        Ok((v + 1) as u64)
    }
}

/// The word after the writer-intent bit has been set on `v`.
pub open spec fn marked(v: u64, flag: u64) -> u64 {
    if v >= flag {
        v
    } else {
        (v + flag) as u64
    }
}

/// The word after the writer-intent bit has been cleared on `v`.
pub open spec fn unmarked(v: u64, flag: u64) -> u64 {
    readers(v, flag)
}

/// The word after one reader has left `v`.
pub open spec fn reader_left(v: u64) -> u64 {
    (v - 1) as u64
}

/// What setting the writer-intent bit decides on the word it replaced:
/// `Ok(true)` when the writer owns the lease at once, `Ok(false)` when readers
/// must drain first, `Err(Writer)` when another writer had already set it.
pub open spec fn mark_outcome(prev: u64, flag: u64) -> Result<bool, Blocked> {
    if prev == 0 {
        Ok(true)
    } else if prev < flag {
        Ok(false)
    } else {
        Err(Blocked::Writer)
    }
}

/// Decides a read attempt on the observed word `current`.
pub fn read_step(current: u64, flag: u64) -> (r: Result<u64, Blocked>)
    requires
        is_flag(flag),
        is_word(current, flag),
    ensures
        r == read_outcome(current, flag),
{
    if current >= flag {
        Err(Blocked::Writer)
    } else if current + 1 >= flag {
        Err(Blocked::Readers)
    } else {
        Ok(current + 1)
    }
}

/// Classifies the word that setting the writer-intent bit replaced.
pub fn mark_step(prev: u64, flag: u64) -> (r: Result<bool, Blocked>)
    requires
        is_flag(flag),
        is_word(prev, flag),
    ensures
        r == mark_outcome(prev, flag),
{
    if prev == 0 {
        Ok(true)
    } else if prev < flag {
        Ok(false)
    } else {
        Err(Blocked::Writer)
    }
}

/// Whether the observed word lets a waiting writer take the lease.
pub fn drained_step(current: u64, flag: u64) -> (r: bool)
    requires
        is_flag(flag),
    ensures
        r == is_drained(current, flag),
{
    current == flag
}

/// Whether the word that a reader's departure replaced counted a reader.
pub fn counted_reader(prev: u64, flag: u64) -> (r: bool)
    requires
        is_flag(flag),
    ensures
        r == (readers(prev, flag) > 0),
{
    if prev >= flag {
        prev - flag > 0
    } else {
        prev > 0
    }
}

/// The model is the bit layout: the writer-intent bit is the top bit, the
/// reader count the bits below it. Setting the bit is `| flag`, clearing it is
/// `& (flag - 1)`, as the atomic operations do.
pub proof fn lemma_bit_layout(v: u64, flag: u64)
    requires
        is_flag(flag),
        is_word(v, flag),
    ensures
        writer_marked(v, flag) == (v & flag == flag),
        readers(v, flag) == v & ((flag - 1) as u64),
        marked(v, flag) == v | flag,
        unmarked(v, flag) == v & ((flag - 1) as u64),
{
    if flag == 0x80u64 {
        assert(v < 0x100u64 ==> (v >= 0x80u64) == (v & 0x80u64 == 0x80u64)) by (bit_vector);
        assert(v < 0x100u64 ==> (if v >= 0x80u64 { (v - 0x80u64) as u64 } else { v }) == v & 0x7fu64) by (bit_vector);
        assert(v < 0x100u64 ==> (if v >= 0x80u64 { v } else { (v + 0x80u64) as u64 }) == v | 0x80u64) by (bit_vector);
    } else if flag == 0x8000u64 {
        assert(v < 0x10000u64 ==> (v >= 0x8000u64) == (v & 0x8000u64 == 0x8000u64)) by (bit_vector);
        assert(v < 0x10000u64 ==> (if v >= 0x8000u64 { (v - 0x8000u64) as u64 } else { v }) == v & 0x7fffu64) by (bit_vector);
        assert(v < 0x10000u64 ==> (if v >= 0x8000u64 { v } else { (v + 0x8000u64) as u64 }) == v | 0x8000u64) by (bit_vector);
    } else if flag == 0x8000_0000u64 {
        assert(v < 0x1_0000_0000u64 ==> (v >= 0x8000_0000u64) == (v & 0x8000_0000u64 == 0x8000_0000u64)) by (bit_vector);
        assert(v < 0x1_0000_0000u64 ==> (if v >= 0x8000_0000u64 { (v - 0x8000_0000u64) as u64 } else { v }) == v & 0x7fff_ffffu64) by (bit_vector);
        assert(v < 0x1_0000_0000u64 ==> (if v >= 0x8000_0000u64 { v } else { (v + 0x8000_0000u64) as u64 }) == v | 0x8000_0000u64) by (bit_vector);
    } else {
        assert((v >= 0x8000_0000_0000_0000u64) == (v & 0x8000_0000_0000_0000u64 == 0x8000_0000_0000_0000u64)) by (bit_vector);
        assert((if v >= 0x8000_0000_0000_0000u64 { (v - 0x8000_0000_0000_0000u64) as u64 } else { v }) == v & 0x7fff_ffff_ffff_ffffu64) by (bit_vector);
        assert((if v >= 0x8000_0000_0000_0000u64 { v } else { (v + 0x8000_0000_0000_0000u64) as u64 }) == v | 0x8000_0000_0000_0000u64) by (bit_vector);
    }
}

} // verus!
