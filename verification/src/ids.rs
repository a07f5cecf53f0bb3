//! Sequence numbers for generated identifiers.
//!
//! Action and event identifiers carry a sequence number so that two
//! identifiers made in the same clock tick still differ.  An `IdSequence`
//! hands the numbers out in increasing order and never hands out one twice.
use vstd::prelude::*;

verus! {

/// A source of increasing sequence numbers.
#[derive(Debug)]
pub struct IdSequence {
    next: u64,
}

impl IdSequence {
    /// The number the sequence hands out next.
    pub closed spec fn upcoming(self) -> u64 {
        self.next
    }

    /// A sequence whose first number is `first`.
    pub fn starting_at(first: u64) -> (r: Self)
        ensures
            r.upcoming() == first,
    {
        IdSequence { next: first }
    }

    /// Reserves `count` consecutive numbers and returns the first of them;
    /// `None`, with nothing reserved, when they would run past `u64::MAX`.
    pub fn reserve(&mut self, count: u64) -> (r: Option<u64>)
        ensures
            match r {
                Some(first) => {
                    &&& first == old(self).upcoming()
                    &&& old(self).upcoming() + count <= u64::MAX
                    &&& final(self).upcoming() == old(self).upcoming() + count
                },
                None => {
                    &&& old(self).upcoming() + count > u64::MAX
                    &&& final(self).upcoming() == old(self).upcoming()
                },
            },
    {
        match self.next.checked_add(count) {
            Some(after) => {
                let first = self.next;
                self.next = after;
                Some(first)
            },
            None => None,
        }
    }

    /// The next number; numbers handed out one after another strictly
    /// increase.  `None` once every number has been handed out.
    pub fn next(&mut self) -> (r: Option<u64>)
        ensures
            match r {
                Some(n) => n == old(self).upcoming() && final(self).upcoming() == n + 1,
                None => old(self).upcoming() == u64::MAX && final(self).upcoming() == u64::MAX,
            },
    {
        self.reserve(1)
    }
}

} // verus!
