//! The atomic integers that can hold a lease's word.
//!
//! Every access is sequentially consistent. The word is shared with other
//! threads, so a value read from it is known only to be one that the width
//! can hold.
use vstd::prelude::*;

use core::sync::atomic::{AtomicU16, AtomicU32, AtomicU64, AtomicU8, AtomicUsize, Ordering};

use crate::word::{is_flag, is_word};

verus! {

/// An atomic unsigned integer whose top bit marks a writer's intent.
pub trait LeaseWord: Sized {
    /// The value of the top bit.
    spec fn spec_flag() -> u64;

    /// The top bit is that of an 8, 16, 32 or 64 bit word.
    proof fn flag_is_top_bit()
        ensures
            is_flag(Self::spec_flag()),
    ;

    /// The value of the top bit.
    fn flag() -> (r: u64)
        ensures
            r == Self::spec_flag(),
            is_flag(r),
    ;

    /// An atomic that holds `v`.
    fn with_word(v: u64) -> Self
        requires
            is_word(v, Self::spec_flag()),
    ;

    /// Reads the word.
    fn load_word(&self) -> (r: u64)
        ensures
            is_word(r, Self::spec_flag()),
    ;

    /// Replaces the word by `new` if it holds `current`; true when it did.
    fn swap_word(&self, current: u64, new: u64) -> bool
        requires
            is_word(current, Self::spec_flag()),
            is_word(new, Self::spec_flag()),
    ;

    /// Sets the word to `word | bits` and returns the word it replaced.
    fn or_word(&self, bits: u64) -> (prev: u64)
        requires
            is_word(bits, Self::spec_flag()),
        ensures
            is_word(prev, Self::spec_flag()),
    ;

    /// Sets the word to `word & bits` and returns the word it replaced.
    fn and_word(&self, bits: u64) -> (prev: u64)
        requires
            is_word(bits, Self::spec_flag()),
        ensures
            is_word(prev, Self::spec_flag()),
    ;

    /// Takes `n` from the word and returns the word it replaced.
    fn sub_word(&self, n: u64) -> (prev: u64)
        requires
            is_word(n, Self::spec_flag()),
        ensures
            is_word(prev, Self::spec_flag()),
    ;
}

impl LeaseWord for AtomicU8 {
    open spec fn spec_flag() -> u64 {
        0x80u64
    }

    proof fn flag_is_top_bit() {
    }

    fn flag() -> (r: u64) {
        0x80u64
    }

    fn with_word(v: u64) -> Self {
        AtomicU8::new(v as u8)
    }

    fn load_word(&self) -> (r: u64) {
        self.load(Ordering::SeqCst) as u64
    }

    fn swap_word(&self, current: u64, new: u64) -> bool {
        let r = self.compare_exchange(
            current as u8,
            new as u8,
            Ordering::SeqCst,
            Ordering::SeqCst,
        );
        r.is_ok()
    }

    fn or_word(&self, bits: u64) -> (prev: u64) {
        self.fetch_or(bits as u8, Ordering::SeqCst) as u64
    }

    fn and_word(&self, bits: u64) -> (prev: u64) {
        self.fetch_and(bits as u8, Ordering::SeqCst) as u64
    }

    fn sub_word(&self, n: u64) -> (prev: u64) {
        self.fetch_sub(n as u8, Ordering::SeqCst) as u64
    }
}

impl LeaseWord for AtomicU16 {
    open spec fn spec_flag() -> u64 {
        0x8000u64
    }

    proof fn flag_is_top_bit() {
    }

    fn flag() -> (r: u64) {
        0x8000u64
    }

    fn with_word(v: u64) -> Self {
        AtomicU16::new(v as u16)
    }

    fn load_word(&self) -> (r: u64) {
        self.load(Ordering::SeqCst) as u64
    }

    fn swap_word(&self, current: u64, new: u64) -> bool {
        let r = self.compare_exchange(
            current as u16,
            new as u16,
            Ordering::SeqCst,
            Ordering::SeqCst,
        );
        r.is_ok()
    }

    fn or_word(&self, bits: u64) -> (prev: u64) {
        self.fetch_or(bits as u16, Ordering::SeqCst) as u64
    }

    fn and_word(&self, bits: u64) -> (prev: u64) {
        self.fetch_and(bits as u16, Ordering::SeqCst) as u64
    }

    fn sub_word(&self, n: u64) -> (prev: u64) {
        self.fetch_sub(n as u16, Ordering::SeqCst) as u64
    }
}

impl LeaseWord for AtomicU32 {
    open spec fn spec_flag() -> u64 {
        0x8000_0000u64
    }

    proof fn flag_is_top_bit() {
    }

    fn flag() -> (r: u64) {
        0x8000_0000u64
    }

    fn with_word(v: u64) -> Self {
        AtomicU32::new(v as u32)
    }

    fn load_word(&self) -> (r: u64) {
        self.load(Ordering::SeqCst) as u64
    }

    fn swap_word(&self, current: u64, new: u64) -> bool {
        let r = self.compare_exchange(
            current as u32,
            new as u32,
            Ordering::SeqCst,
            Ordering::SeqCst,
        );
        r.is_ok()
    }

    fn or_word(&self, bits: u64) -> (prev: u64) {
        self.fetch_or(bits as u32, Ordering::SeqCst) as u64
    }

    fn and_word(&self, bits: u64) -> (prev: u64) {
        self.fetch_and(bits as u32, Ordering::SeqCst) as u64
    }

    fn sub_word(&self, n: u64) -> (prev: u64) {
        self.fetch_sub(n as u32, Ordering::SeqCst) as u64
    }
}

impl LeaseWord for AtomicU64 {
    open spec fn spec_flag() -> u64 {
        0x8000_0000_0000_0000u64
    }

    proof fn flag_is_top_bit() {
    }

    fn flag() -> (r: u64) {
        0x8000_0000_0000_0000u64
    }

    fn with_word(v: u64) -> Self {
        AtomicU64::new(v as u64)
    }

    fn load_word(&self) -> (r: u64) {
        self.load(Ordering::SeqCst) as u64
    }

    fn swap_word(&self, current: u64, new: u64) -> bool {
        let r = self.compare_exchange(
            current as u64,
            new as u64,
            Ordering::SeqCst,
            Ordering::SeqCst,
        );
        r.is_ok()
    }

    fn or_word(&self, bits: u64) -> (prev: u64) {
        self.fetch_or(bits as u64, Ordering::SeqCst) as u64
    }

    fn and_word(&self, bits: u64) -> (prev: u64) {
        self.fetch_and(bits as u64, Ordering::SeqCst) as u64
    }

    fn sub_word(&self, n: u64) -> (prev: u64) {
        self.fetch_sub(n as u64, Ordering::SeqCst) as u64
    }
}

impl LeaseWord for AtomicUsize {
    open spec fn spec_flag() -> u64 {
        ((usize::MAX as int + 1) / 2) as u64
    }

    proof fn flag_is_top_bit() {
    }

    fn flag() -> (r: u64) {
        (usize::MAX / 2 + 1) as u64
    }

    fn with_word(v: u64) -> Self {
        AtomicUsize::new(v as usize)
    }

    fn load_word(&self) -> (r: u64) {
        self.load(Ordering::SeqCst) as u64
    }

    fn swap_word(&self, current: u64, new: u64) -> bool {
        let r = self.compare_exchange(
            current as usize,
            new as usize,
            Ordering::SeqCst,
            Ordering::SeqCst,
        );
        r.is_ok()
    }

    fn or_word(&self, bits: u64) -> (prev: u64) {
        self.fetch_or(bits as usize, Ordering::SeqCst) as u64
    }

    fn and_word(&self, bits: u64) -> (prev: u64) {
        self.fetch_and(bits as usize, Ordering::SeqCst) as u64
    }

    fn sub_word(&self, n: u64) -> (prev: u64) {
        self.fetch_sub(n as usize, Ordering::SeqCst) as u64
    }
}

} // verus!
