use vstd::prelude::*;

use std::sync::atomic::{AtomicU8, Ordering};
use std::sync::Arc;

verus! {

/// Milliseconds between two decrements of the delay timer (60 Hz).
pub const TICK_MILLIS: u64 = 16;

/// The value of the delay timer one tick after it held `v`: one less, stopping at zero.
pub open spec fn timer_step(v: u8) -> u8 {
    if v > 0 {
        (v - 1) as u8
    } else {
        0
    }
}

/// The value of the delay timer `k` ticks after it held `v`.
pub open spec fn timer_after(v: u8, k: nat) -> u8
    decreases k,
{
    if k == 0 {
        v
    } else {
        timer_after(timer_step(v), (k - 1) as nat)
    }
}

/// The 8-bit delay timer. Its value lives in an atomic cell shared by every clone of
/// the handle, so a scheduler on another thread can decrement it while the
/// interpreter reads and writes it.
pub struct DelayTimer {
    v: Arc<AtomicU8>,
}

impl DelayTimer {
    /// A timer holding zero.
    pub fn new() -> (r: DelayTimer) {
        DelayTimer { v: Arc::new(AtomicU8::new(0)) }
    }

    /// Another handle on the same cell.
    pub fn share(&self) -> (r: DelayTimer) {
        DelayTimer { v: self.v.clone() }
    }

    /// The current value.
    pub fn get(&self) -> (r: u8) {
        self.v.load(Ordering::SeqCst)
    }

    /// Overwrites the value.
    pub fn set(&self, val: u8) {
        self.v.store(val, Ordering::SeqCst);
    }

    /// The value that follows `v` on a tick.
    pub fn decrement(v: u8) -> (r: u8)
        ensures
            r == timer_step(v),
    {
        if v > 0 {
            v - 1
        } else {
            0
        }
    }

    /// One attempt at a tick: reads the value and, if it is not zero, swaps in the value
    /// one less, unless another writer changed it in between. Returns whether the tick is
    /// settled, that is the value was zero or the swap went through; a caller retries on
    /// `false`.
    pub fn tick(&self) -> (settled: bool) {
        let curr = self.v.load(Ordering::SeqCst);
        if curr == 0 {
            return true;
        }
        let next = DelayTimer::decrement(curr);
        match self.v.compare_exchange(curr, next, Ordering::SeqCst, Ordering::SeqCst) {
            Ok(_) => true,
            Err(_) => false,
        }
    }
}

} // verus!
