//! The periodic blink timer: configuration values for the hardware countdown
//! timer, and the toggle decision taken on every compare-match interrupt.
//!
//! The hardware timer counts at a fixed effective rate, fires a compare-match
//! event when the counter reaches the configured period, and — through a
//! hardware shortcut — clears the counter on the match, so it free-runs
//! without software re-arming. On every fire the handler clears the latched
//! event flag, counts the tick, reads the output pin's current level back from
//! the hardware and writes the opposite level.

use vstd::prelude::*;
use crate::guard::InterruptGuard;
use crate::button::NUM_PINS;
use crate::button::PIN_CNF_DRIVE_S0S1;
use crate::button::PIN_CNF_DRIVE_SHIFT;
use crate::button::PIN_CNF_INPUT_SHIFT;
use crate::button::PIN_CNF_PULL_DISABLED;
use crate::button::PIN_CNF_PULL_SHIFT;
use crate::button::PIN_CNF_SENSE_DISABLED;
use crate::button::PIN_CNF_SENSE_SHIFT;
use crate::button::spec_pin_cnf_word;
use crate::wrap_inc;
use crate::wrapping_increment;

verus! {

/// Pin-configuration field value: direction output.
pub const PIN_CNF_DIR_OUTPUT: u32 = 1;

/// Pin-configuration field value: input buffer disconnected.
pub const PIN_CNF_INPUT_DISCONNECT: u32 = 1;

/// The pin-configuration word for the driven output pin: output direction,
/// input buffer disconnected, no pull resistor, standard drive, sensing
/// disabled.
pub fn output_pin_config_word() -> (w: u32)
    ensures
        w == spec_pin_cnf_word(
            PIN_CNF_DIR_OUTPUT,
            PIN_CNF_INPUT_DISCONNECT,
            PIN_CNF_PULL_DISABLED,
            PIN_CNF_DRIVE_S0S1,
            PIN_CNF_SENSE_DISABLED,
        ),
{
    PIN_CNF_DIR_OUTPUT | (PIN_CNF_INPUT_DISCONNECT << PIN_CNF_INPUT_SHIFT) | (
    PIN_CNF_PULL_DISABLED << PIN_CNF_PULL_SHIFT) | (PIN_CNF_DRIVE_S0S1 << PIN_CNF_DRIVE_SHIFT) | (
    PIN_CNF_SENSE_DISABLED << PIN_CNF_SENSE_SHIFT)
}

/// Counter-width register value: a 32-bit counter.
pub const BITMODE_32BIT: u32 = 3;

/// Prescaler register value: the timer divides its source clock by
/// two to this power.
pub const PRESCALER_DIV_16: u32 = 4;

/// The clock that feeds the timer's prescaler, in ticks per second.
pub const TIMER_SOURCE_HZ: u32 = 16_000_000;

/// What the prescaler divides the source clock by: two to
/// [`PRESCALER_DIV_16`].
pub const PRESCALER_DIVISOR: u32 = 16;

/// Interrupt-enable-set register value: the first compare channel's event.
pub const INTEN_COMPARE0: u32 = 1 << 16;

/// Shortcut register value: clear the counter on the first compare channel's
/// match, so the timer free-runs periodically.
pub const SHORTS_COMPARE0_CLEAR: u32 = 1;

/// The register values that configure the hardware timer: counter stopped,
/// then width, prescaler, compare threshold, interrupt enable and the
/// clear-on-compare shortcut, then counter cleared and started.
pub struct TimerConfig {
    /// Counter-width register value.
    pub bitmode: u32,
    /// Prescaler register value.
    pub prescaler: u32,
    /// Compare register value: the period in effective ticks.
    pub compare: u32,
    /// Interrupt-enable-set register value.
    pub intenset: u32,
    /// Shortcut register value.
    pub shorts: u32,
}

/// The output level after `n` timer fires, starting from `l0`: toggled
/// unconditionally on every fire.
pub open spec fn level_after(l0: bool, n: nat) -> bool
    decreases n,
{
    if n == 0 {
        l0
    } else {
        !level_after(l0, (n - 1) as nat)
    }
}

/// Law: the output level strictly alternates. After `n` fires the level is the
/// starting level when `n` is even and its opposite when `n` is odd.
pub proof fn lemma_level_alternates(l0: bool, n: nat)
    ensures
        level_after(l0, n) == (if n % 2 == 0 {
            l0
        } else {
            !l0
        }),
    decreases n,
{
    if n > 0 {
        lemma_level_alternates(l0, (n - 1) as nat);
    }
}

/// The tick at which the `n`th fire happens, counting fires from one: with the
/// clear-on-compare shortcut the counter restarts at zero on every match, so
/// matches come every `period_ticks` ticks.
pub open spec fn spec_nth_fire_tick(period_ticks: u32, n: u32) -> int {
    n * period_ticks
}

/// The latched compare-match event flag of the timer.
///
/// The flag must be cleared before the handler returns, else the interrupt
/// fires again at once; the handler contract demands exactly that.
pub struct CompareEvent {
    pending: bool,
}

impl CompareEvent {
    /// Whether a compare-match event is latched.
    pub closed spec fn is_pending(&self) -> bool {
        self.pending
    }

    /// A flag with no latched event.
    pub fn new() -> (e: Self)
        ensures
            !e.is_pending(),
    {
        CompareEvent { pending: false }
    }

    /// Record that the hardware latched a compare match.
    pub fn latch(&mut self)
        ensures
            final(self).is_pending(),
    {
        self.pending = true;
    }

    /// Reset the flag, as a write to the write-to-clear event register does.
    pub fn clear(&mut self)
        ensures
            !final(self).is_pending(),
    {
        self.pending = false;
    }

    /// Whether a compare match is latched, as a run-time query.
    pub fn pending_now(&self) -> (r: bool)
        ensures
            r == self.is_pending(),
    {
        self.pending
    }
}

/// The periodic toggle state machine driven by the hardware timer.
pub struct BlinkTimer {
    /// The compare threshold, in effective ticks; fixed at configuration time.
    pub period_ticks: u32,
    /// Index of the GPIO pin the timer drives.
    pub output_pin_id: usize,
    /// How many fires this timer has seen; wraps on overflow.
    pub tick_count: u32,
}

impl BlinkTimer {
    /// The output pin addresses a real pin of the port.
    pub open spec fn wf(&self) -> bool {
        self.output_pin_id < NUM_PINS
    }

    /// A freshly configured timer: no fire seen yet.
    pub fn new(period_ticks: u32, output_pin_id: usize) -> (t: Self)
        requires
            output_pin_id < NUM_PINS,
        ensures
            t.wf(),
            t.period_ticks == period_ticks,
            t.output_pin_id == output_pin_id,
            t.tick_count == 0,
    {
        BlinkTimer { period_ticks, output_pin_id, tick_count: 0 }
    }

    /// The register values that configure the hardware timer for this period:
    /// 32-bit counter width, the divide-by-16 prescaler, the period as compare
    /// threshold, the compare interrupt enabled and the clear-on-compare
    /// shortcut enabled.
    pub fn config(&self) -> (c: TimerConfig)
        ensures
            c.bitmode == BITMODE_32BIT,
            c.prescaler == PRESCALER_DIV_16,
            c.compare == self.period_ticks,
            c.intenset == INTEN_COMPARE0,
            c.shorts == SHORTS_COMPARE0_CLEAR,
    {
        TimerConfig {
            bitmode: BITMODE_32BIT,
            prescaler: PRESCALER_DIV_16,
            compare: self.period_ticks,
            intenset: INTEN_COMPARE0,
            shorts: SHORTS_COMPARE0_CLEAR,
        }
    }

    /// The effective tick rate the configuration produces, in ticks per
    /// second: the source clock divided by two to the prescaler value.
    pub fn effective_tick_rate() -> (r: u32)
        ensures
            r == TIMER_SOURCE_HZ / PRESCALER_DIVISOR,
            r == 1_000_000,
            PRESCALER_DIVISOR == (1u32 << PRESCALER_DIV_16),
    {
        proof {
            assert(16u32 == (1u32 << 4u32)) by (bit_vector);
        }
        TIMER_SOURCE_HZ / PRESCALER_DIVISOR
    }

    /// The tick at which the `n`th fire happens, counting fires from one.
    /// With the period in effective ticks, dividing by the effective tick rate
    /// gives the wall-clock time of the fire.
    pub fn nth_fire_tick(&self, n: u32) -> (t: u64)
        ensures
            t == spec_nth_fire_tick(self.period_ticks, n),
    {
        proof {
            assert((n as u64) * (self.period_ticks as u64) <= (u32::MAX as u64) * (
            u32::MAX as u64)) by (nonlinear_arith)
                requires
                    n <= u32::MAX,
                    self.period_ticks <= u32::MAX,
            ;
        }
        (n as u64) * (self.period_ticks as u64)
    }

    /// One timer fire: consume the latched compare-match event, count the
    /// tick, and answer the opposite of the level the pin shows now. The
    /// caller reads `current_level` back from the hardware output register and
    /// writes the returned level; software keeps no level of its own. The
    /// read-modify-write of the port happens under the guard, which the
    /// precondition demands.
    pub fn on_fire(
        &mut self,
        guard: &InterruptGuard,
        event: &mut CompareEvent,
        current_level: bool,
    ) -> (new_level: bool)
        requires
            guard.is_held(),
        ensures
            !final(event).is_pending(),
            new_level == !current_level,
            new_level == level_after(current_level, 1),
            final(self).tick_count == wrap_inc(old(self).tick_count),
            final(self).period_ticks == old(self).period_ticks,
            final(self).output_pin_id == old(self).output_pin_id,
    {
        proof {
            assert(level_after(current_level, 1) == !level_after(current_level, 0));
        }
        event.clear();
        self.tick_count = wrapping_increment(self.tick_count);
        !current_level
    }
}

} // verus!
