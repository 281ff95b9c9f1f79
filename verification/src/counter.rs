//! The source of fresh database names.

use crate::names::{shared_name, shared_name_spec};
use std::sync::atomic::AtomicU64;
use std::sync::atomic::Ordering;
use vstd::prelude::*;

verus! {

/// Hands out database names that were not handed out before.
///
/// The counter starts at zero and is advanced by one atomic fetch-and-add
/// for every name, so it can be shared between threads without a lock. Keep
/// one counter for the whole process: names from two counters may collide.
pub struct NameCounter {
    issued: AtomicU64,
}

impl NameCounter {
    /// A counter that has issued no name yet.
    pub fn new() -> (counter: Self) {
        NameCounter { issued: AtomicU64::new(0) }
    }

    /// Takes the next counter value and returns the name generated from it.
    ///
    /// Which value was taken depends on the calls made before, on this
    /// thread and on others, so the contract only says that the name is the
    /// generated name of some value. The atomic increment gives each value
    /// to one caller only (until the 64-bit counter wraps around), and by
    /// [`lemma_shared_names_differ`](crate::names::lemma_shared_names_differ)
    /// different values give different names.
    pub fn next_name(&self) -> (name: String)
        ensures
            exists|n: u64| name@ == #[trigger] shared_name_spec(n),
    {
        let n: u64 = self.issued.fetch_add(1, Ordering::AcqRel);
        shared_name(n)
    }
}

} // verus!
