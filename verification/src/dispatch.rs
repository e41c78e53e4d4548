//! The two asynchronous interrupt entry points: the edge-detection unit's line
//! and the timer's line.
//!
//! Each entry point acquires the global guard, delegates — to the button
//! dispatch or to the timer's fire handler — and releases the guard before
//! returning. The entry points never block and never call into each other:
//! each demands a free guard, so one cannot run inside the other's critical
//! section.

use vstd::prelude::*;
use crate::button::ButtonManager;
use crate::button::EdgeEvents;
use crate::button::PressEvent;
use crate::button::buttons_after;
use crate::button::pending_after;
use crate::button::records_of;
use crate::guard::GuardEvent;
use crate::guard::InterruptGuard;
use crate::timer::BlinkTimer;
use crate::timer::CompareEvent;
use crate::wrap_inc;

verus! {

/// One of the two hardware interrupt lines this firmware listens to.
#[derive(Clone, Copy, PartialEq, Eq, Structural, Debug)]
pub enum InterruptSource {
    /// The edge-detection unit's line: some button channel may have fired.
    EdgeUnit,
    /// The timer's line: a compare match fired.
    Timer,
}

/// The state the interrupt handlers share: the button collection and the
/// blink timer.
pub struct FirmwareCore {
    /// The configured buttons, dispatched on the edge-detection line.
    pub buttons: ButtonManager,
    /// The blink timer, fired on the timer line.
    pub timer: BlinkTimer,
}

impl FirmwareCore {
    /// Both components are well formed.
    pub open spec fn wf(&self) -> bool {
        self.buttons.wf() && self.timer.wf()
    }

    /// A core around the given components.
    pub fn new(buttons: ButtonManager, timer: BlinkTimer) -> (core: Self)
        requires
            buttons.wf(),
            timer.wf(),
        ensures
            core.wf(),
            core.buttons == buttons,
            core.timer == timer,
    {
        FirmwareCore { buttons, timer }
    }

    /// Entry point for the edge-detection unit's interrupt line: acquire the
    /// guard, dispatch every button channel, release the guard. The guard must
    /// be free — interrupt entry points never nest.
    pub fn on_edge_interrupt(
        &mut self,
        guard: &mut InterruptGuard,
        events: &mut EdgeEvents,
    ) -> (records: Vec<PressEvent>)
        requires
            old(guard).wf(),
            !old(guard).is_held(),
            old(self).wf(),
            old(events).wf(),
        ensures
            final(guard).wf(),
            !final(guard).is_held(),
            final(guard).trace() == old(guard).trace().push(GuardEvent::Acquire).push(
                GuardEvent::Release,
            ),
            final(self).wf(),
            final(self).timer == old(self).timer,
            final(events).wf(),
            final(self).buttons.buttons() == buttons_after(
                old(self).buttons.buttons(),
                old(events).pending(),
            ),
            final(events).pending() == pending_after(
                old(self).buttons.buttons(),
                old(events).pending(),
            ),
            records@ == records_of(old(self).buttons.buttons(), old(events).pending()),
    {
        guard.acquire();
        let records = self.buttons.dispatch(guard, events);
        guard.release();
        records
    }

    /// Entry point for the timer's interrupt line: acquire the guard, handle
    /// the fire, release the guard. The guard must be free — interrupt entry
    /// points never nest. `current_level` is the output level read back from
    /// the hardware under the same guard; the caller writes the returned
    /// opposite level.
    pub fn on_timer_interrupt(
        &mut self,
        guard: &mut InterruptGuard,
        event: &mut CompareEvent,
        current_level: bool,
    ) -> (new_level: bool)
        requires
            old(guard).wf(),
            !old(guard).is_held(),
            old(self).wf(),
        ensures
            final(guard).wf(),
            !final(guard).is_held(),
            final(guard).trace() == old(guard).trace().push(GuardEvent::Acquire).push(
                GuardEvent::Release,
            ),
            final(self).wf(),
            final(self).buttons == old(self).buttons,
            !final(event).is_pending(),
            new_level == !current_level,
            final(self).timer.tick_count == wrap_inc(old(self).timer.tick_count),
            final(self).timer.period_ticks == old(self).timer.period_ticks,
            final(self).timer.output_pin_id == old(self).timer.output_pin_id,
    {
        guard.acquire();
        let new_level = self.timer.on_fire(guard, event, current_level);
        guard.release();
        new_level
    }
}

} // verus!
