//! Core logic of an interrupt-driven firmware: a store-once cell that hands
//! peripheral handles from initialization code to interrupt context under a
//! global non-reentrant guard, edge-triggered button channels dispatched from
//! one shared event unit, and a periodic timer that toggles an output pin.
//!
//! Everything here is plain data and decisions. The memory-mapped register
//! reads and writes that carry these decisions to the hardware live outside
//! this crate, in the firmware shell.

use vstd::prelude::*;

pub mod button;
pub mod cell;
pub mod dispatch;
pub mod guard;
pub mod timer;

verus! {

/// A 32-bit diagnostic counter after one more event: one higher, wrapping to
/// zero on overflow. Such counters are diagnostic, not correctness-critical,
/// so wraparound is the intended behaviour.
pub open spec fn wrap_inc(c: u32) -> u32 {
    if c == u32::MAX {
        0
    } else {
        (c + 1) as u32
    }
}

/// Count one more event on a wrapping 32-bit diagnostic counter.
pub fn wrapping_increment(c: u32) -> (r: u32)
    ensures
        r == wrap_inc(c),
{
    if c == u32::MAX {
        0
    } else {
        c + 1
    }
}

} // verus!
