//! Button channels and the dispatch of the shared edge-detection interrupt.
//!
//! Each button binds one GPIO pin to one channel of the edge-detection unit.
//! The unit raises a single interrupt for all channels, so one dispatch must
//! poll every channel's latched flag — never stop at the first hit — clear
//! each pending flag, count the press and emit a diagnostic record naming the
//! button. The configuration words written to the hardware are computed here
//! as plain values; the firmware shell writes them to the registers.

use vstd::prelude::*;
use crate::guard::InterruptGuard;
use crate::wrap_inc;
use crate::wrapping_increment;

verus! {

/// Number of channels in the edge-detection unit.
pub const NUM_CHANNELS: usize = 8;

/// Number of pins in the GPIO port.
pub const NUM_PINS: usize = 32;

/// Pin-configuration field value: direction input.
pub const PIN_CNF_DIR_INPUT: u32 = 0;

/// Pin-configuration field value: input buffer connected.
pub const PIN_CNF_INPUT_CONNECT: u32 = 0;

/// Pin-configuration field value: no pull resistor.
pub const PIN_CNF_PULL_DISABLED: u32 = 0;

/// Pin-configuration field value: standard drive strength.
pub const PIN_CNF_DRIVE_S0S1: u32 = 0;

/// Pin-configuration field value: the pin's own sense mechanism disabled;
/// edge detection is delegated entirely to the edge-detection unit.
pub const PIN_CNF_SENSE_DISABLED: u32 = 0;

/// Bit position of the input-buffer field in the pin-configuration word.
pub const PIN_CNF_INPUT_SHIFT: u32 = 1;

/// Bit position of the pull field in the pin-configuration word.
pub const PIN_CNF_PULL_SHIFT: u32 = 2;

/// Bit position of the drive field in the pin-configuration word.
pub const PIN_CNF_DRIVE_SHIFT: u32 = 8;

/// Bit position of the sense field in the pin-configuration word.
pub const PIN_CNF_SENSE_SHIFT: u32 = 16;

/// Channel-configuration field value: event mode.
pub const CONFIG_MODE_EVENT: u32 = 1;

/// Bit position of the source-pin field in the channel-configuration word.
pub const CONFIG_PSEL_SHIFT: u32 = 8;

/// Channel-configuration field value: the source pin lies in the first port.
pub const CONFIG_PORT_FIRST: u32 = 0;

/// Bit position of the source-port field in the channel-configuration word.
pub const CONFIG_PORT_SHIFT: u32 = 13;

/// Channel-configuration field value: high-to-low polarity, the falling edge
/// of an active-low button.
pub const CONFIG_POLARITY_HI_TO_LO: u32 = 2;

/// Bit position of the polarity field in the channel-configuration word.
pub const CONFIG_POLARITY_SHIFT: u32 = 16;

/// The GPIO pin-configuration word assembled from its five field values.
pub open spec fn spec_pin_cnf_word(dir: u32, input: u32, pull: u32, drive: u32, sense: u32) -> u32 {
    dir | (input << PIN_CNF_INPUT_SHIFT) | (pull << PIN_CNF_PULL_SHIFT) | (drive
        << PIN_CNF_DRIVE_SHIFT) | (sense << PIN_CNF_SENSE_SHIFT)
}

/// The channel-configuration word that binds a channel to `pin_id` in event
/// mode with high-to-low polarity.
pub open spec fn spec_edge_config_word(pin_id: usize) -> u32 {
    CONFIG_MODE_EVENT | ((pin_id as u32) << CONFIG_PSEL_SHIFT) | (CONFIG_PORT_FIRST
        << CONFIG_PORT_SHIFT) | (CONFIG_POLARITY_HI_TO_LO << CONFIG_POLARITY_SHIFT)
}

/// The pin-configuration word for a button pin: input direction, input buffer
/// connected, no pull resistor, standard drive, pin-level sensing disabled.
pub fn button_pin_config_word() -> (w: u32)
    ensures
        w == spec_pin_cnf_word(
            PIN_CNF_DIR_INPUT,
            PIN_CNF_INPUT_CONNECT,
            PIN_CNF_PULL_DISABLED,
            PIN_CNF_DRIVE_S0S1,
            PIN_CNF_SENSE_DISABLED,
        ),
{
    PIN_CNF_DIR_INPUT | (PIN_CNF_INPUT_CONNECT << PIN_CNF_INPUT_SHIFT) | (PIN_CNF_PULL_DISABLED
        << PIN_CNF_PULL_SHIFT) | (PIN_CNF_DRIVE_S0S1 << PIN_CNF_DRIVE_SHIFT)
        | (PIN_CNF_SENSE_DISABLED << PIN_CNF_SENSE_SHIFT)
}

/// A button bound to one edge-detection channel and one GPIO pin. Immutable
/// after configuration, except for its press counter.
#[derive(Clone, Copy, PartialEq, Eq, Structural, Debug)]
pub struct Button {
    /// Index of the edge-detection channel the button is bound to.
    pub channel_id: usize,
    /// Index of the GPIO pin the button is wired to.
    pub pin_id: usize,
    /// Logical name of the button, used in diagnostic records.
    pub label: char,
    /// How many presses this button has seen; wraps on overflow.
    pub press_count: u32,
}

impl Button {
    /// The channel and pin indices address real hardware slots.
    pub open spec fn wf(&self) -> bool {
        self.channel_id < NUM_CHANNELS && self.pin_id < NUM_PINS
    }

    /// A freshly configured button: no press seen yet.
    pub fn new(channel_id: usize, pin_id: usize, label: char) -> (b: Button)
        requires
            channel_id < NUM_CHANNELS,
            pin_id < NUM_PINS,
        ensures
            b.wf(),
            b.channel_id == channel_id,
            b.pin_id == pin_id,
            b.label == label,
            b.press_count == 0,
    {
        Button { channel_id, pin_id, label, press_count: 0 }
    }

    /// The configuration word for this button's edge-detection channel.
    pub fn edge_config_word(&self) -> (w: u32)
        requires
            self.wf(),
        ensures
            w == spec_edge_config_word(self.pin_id),
    {
        CONFIG_MODE_EVENT | ((self.pin_id as u32) << CONFIG_PSEL_SHIFT) | (CONFIG_PORT_FIRST
            << CONFIG_PORT_SHIFT) | (CONFIG_POLARITY_HI_TO_LO << CONFIG_POLARITY_SHIFT)
    }

    /// The bit for this button's channel, as written to the interrupt-enable-set
    /// register to unmask the channel's event.
    pub fn channel_mask(&self) -> (m: u32)
        requires
            self.wf(),
        ensures
            m == (1u32 << (self.channel_id as u32)),
    {
        1u32 << (self.channel_id as u32)
    }

    /// Poll this button's event flag and consume it: read the channel's
    /// pending flag and, when it is set, reset it as the write-to-clear event
    /// register does. Answers whether the edge fired. Safe only under the
    /// guard that protects the edge-detection-unit handle, which the
    /// precondition demands.
    pub fn poll_and_clear(&self, guard: &InterruptGuard, events: &mut EdgeEvents) -> (fired: bool)
        requires
            guard.is_held(),
            self.wf(),
            old(events).wf(),
        ensures
            final(events).wf(),
            fired == edge_fired(*self, old(events).pending()),
            fired ==> final(events).pending() == old(events).pending().update(
                self.channel_id as int,
                false,
            ),
            !fired ==> final(events).pending() == old(events).pending(),
    {
        if events.is_pending(self.channel_id) {
            events.clear_event(self.channel_id);
            true
        } else {
            false
        }
    }
}

/// The latched event-pending flags of the edge-detection unit, one per channel.
///
/// The firmware shell fills a snapshot from the hardware event registers and
/// performs the clears decided here. A flag resets only through an explicit
/// [`EdgeEvents::clear_event`], mirroring the write-to-clear event register:
/// any write resets the latched flag, whatever value is written.
pub struct EdgeEvents {
    pending: Vec<bool>,
}

impl EdgeEvents {
    /// The pending flag of each channel.
    pub closed spec fn pending(&self) -> Seq<bool> {
        self.pending@
    }

    /// One flag per channel of the unit.
    pub open spec fn wf(&self) -> bool {
        self.pending().len() == NUM_CHANNELS
    }

    /// A snapshot with no pending event on any channel.
    pub fn new() -> (e: Self)
        ensures
            e.wf(),
            forall|ch: int| 0 <= ch < NUM_CHANNELS ==> !(#[trigger] e.pending()[ch]),
    {
        let mut pending: Vec<bool> = Vec::new();
        let mut k: usize = 0;
        while k < NUM_CHANNELS
            invariant
                k <= NUM_CHANNELS,
                pending@.len() == k,
                forall|ch: int| 0 <= ch < k ==> !(#[trigger] pending@[ch]),
            decreases NUM_CHANNELS - k,
        {
            pending.push(false);
            k += 1;
        }
        EdgeEvents { pending }
    }

    /// Record that the hardware latched an edge on `channel_id`.
    pub fn latch_edge(&mut self, channel_id: usize)
        requires
            old(self).wf(),
            channel_id < NUM_CHANNELS,
        ensures
            final(self).wf(),
            final(self).pending() == old(self).pending().update(channel_id as int, true),
    {
        self.pending[channel_id] = true;
    }

    /// Reset the pending flag of `channel_id`, as a write to the write-to-clear
    /// event register does.
    pub fn clear_event(&mut self, channel_id: usize)
        requires
            old(self).wf(),
            channel_id < NUM_CHANNELS,
        ensures
            final(self).wf(),
            final(self).pending() == old(self).pending().update(channel_id as int, false),
    {
        self.pending[channel_id] = false;
    }

    /// Whether an edge is pending on `channel_id`.
    pub fn is_pending(&self, channel_id: usize) -> (r: bool)
        requires
            self.wf(),
            channel_id < NUM_CHANNELS,
        ensures
            r == self.pending()[channel_id as int],
    {
        self.pending[channel_id]
    }
}

/// A diagnostic record: one button press, attributed by logical name.
#[derive(Clone, Copy, PartialEq, Eq, Structural, Debug)]
pub struct PressEvent {
    /// Logical name of the pressed button.
    pub label: char,
    /// Channel whose event fired; names the flag the shell must clear.
    pub channel_id: usize,
    /// The button's press counter after this press.
    pub press_count: u32,
}

/// Whether `b`'s channel has a pending edge in `pending`.
pub open spec fn edge_fired(b: Button, pending: Seq<bool>) -> bool {
    pending[b.channel_id as int]
}

/// The diagnostic record that a press of `b` produces.
pub open spec fn press_record(b: Button) -> PressEvent {
    PressEvent { label: b.label, channel_id: b.channel_id, press_count: wrap_inc(b.press_count) }
}

/// `b` after its counter counted one more press.
pub open spec fn button_pressed(b: Button) -> Button {
    Button {
        channel_id: b.channel_id,
        pin_id: b.pin_id,
        label: b.label,
        press_count: wrap_inc(b.press_count),
    }
}

/// `b` after one dispatch over `pending`: pressed exactly when its edge fired.
pub open spec fn button_after(b: Button, pending: Seq<bool>) -> Button {
    if edge_fired(b, pending) {
        button_pressed(b)
    } else {
        b
    }
}

/// The records one dispatch over `pending` emits: one per button whose edge
/// fired, in button order.
pub open spec fn records_of(buttons: Seq<Button>, pending: Seq<bool>) -> Seq<PressEvent>
    decreases buttons.len(),
{
    if buttons.len() == 0 {
        Seq::empty()
    } else if edge_fired(buttons[0], pending) {
        seq![press_record(buttons[0])] + records_of(buttons.drop_first(), pending)
    } else {
        records_of(buttons.drop_first(), pending)
    }
}

/// All buttons after one dispatch over `pending`.
pub open spec fn buttons_after(buttons: Seq<Button>, pending: Seq<bool>) -> Seq<Button> {
    Seq::new(buttons.len(), |i: int| button_after(buttons[i], pending))
}

/// Whether some button in `buttons` is bound to channel `ch`.
pub open spec fn owns_channel(buttons: Seq<Button>, ch: int) -> bool {
    exists|i: int| 0 <= i < buttons.len() && (#[trigger] buttons[i]).channel_id == ch
}

/// The pending flags after one dispatch: every flag on a channel some button
/// owns has been consumed; flags on unowned channels are untouched.
pub open spec fn pending_after(buttons: Seq<Button>, pending: Seq<bool>) -> Seq<bool> {
    Seq::new(pending.len(), |ch: int| pending[ch] && !owns_channel(buttons, ch))
}

/// Dispatching one more button appends its record exactly when its edge fired.
proof fn lemma_records_of_push(buttons: Seq<Button>, b: Button, pending: Seq<bool>)
    ensures
        edge_fired(b, pending) ==> records_of(buttons.push(b), pending) == records_of(
            buttons,
            pending,
        ).push(press_record(b)),
        !edge_fired(b, pending) ==> records_of(buttons.push(b), pending) == records_of(
            buttons,
            pending,
        ),
    decreases buttons.len(),
{
    let w = buttons.push(b);
    if buttons.len() == 0 {
        assert(w[0] == b);
        assert(w.drop_first() =~= Seq::<Button>::empty());
        assert(records_of(w.drop_first(), pending) == Seq::<PressEvent>::empty());
        if edge_fired(b, pending) {
            assert(records_of(w, pending) == seq![press_record(b)]
                + Seq::<PressEvent>::empty());
            assert(records_of(w, pending) =~= records_of(buttons, pending).push(press_record(b)));
        }
    } else {
        assert(w[0] == buttons[0]);
        assert(w.drop_first() =~= buttons.drop_first().push(b));
        lemma_records_of_push(buttons.drop_first(), b, pending);
        let x = records_of(buttons.drop_first(), pending);
        if edge_fired(b, pending) {
            assert(records_of(w.drop_first(), pending) == x.push(press_record(b)));
            if edge_fired(buttons[0], pending) {
                assert(records_of(w, pending) == seq![press_record(buttons[0])] + x.push(
                    press_record(b),
                ));
                assert(records_of(buttons, pending) == seq![press_record(buttons[0])] + x);
                assert(seq![press_record(buttons[0])] + x.push(press_record(b)) =~= (seq![
                    press_record(buttons[0]),
                ] + x).push(press_record(b)));
            } else {
                assert(records_of(w, pending) == x.push(press_record(b)));
                assert(records_of(buttons, pending) == x);
            }
        } else {
            assert(records_of(w.drop_first(), pending) == x);
        }
    }
}

/// Adding one more button to a collection owns one more channel.
proof fn lemma_owns_channel_push(buttons: Seq<Button>, b: Button, ch: int)
    ensures
        owns_channel(buttons.push(b), ch) == (owns_channel(buttons, ch) || b.channel_id == ch),
{
    let w = buttons.push(b);
    if owns_channel(buttons, ch) {
        let i = choose|i: int| 0 <= i < buttons.len() && (#[trigger] buttons[i]).channel_id == ch;
        assert(w[i].channel_id == ch);
    }
    if b.channel_id == ch {
        assert(w[buttons.len() as int].channel_id == ch);
    }
    if owns_channel(w, ch) && !(owns_channel(buttons, ch) || b.channel_id == ch) {
        let i = choose|i: int| 0 <= i < w.len() && (#[trigger] w[i]).channel_id == ch;
        assert(i < buttons.len());
        assert(buttons[i].channel_id == ch);
    }
}

/// The ordered collection of the configured buttons, dispatched as one unit.
pub struct ButtonManager {
    buttons: Vec<Button>,
}

impl ButtonManager {
    /// The buttons, in dispatch order.
    pub closed spec fn buttons(&self) -> Seq<Button> {
        self.buttons@
    }

    /// Every button is well formed, and no two buttons share a channel or a pin.
    pub open spec fn wf(&self) -> bool {
        &&& forall|i: int| 0 <= i < self.buttons().len() ==> (#[trigger] self.buttons()[i]).wf()
        &&& forall|i: int, j: int|
            0 <= i < j < self.buttons().len() ==> (#[trigger] self.buttons()[i]).channel_id != (
            #[trigger] self.buttons()[j]).channel_id
        &&& forall|i: int, j: int|
            0 <= i < j < self.buttons().len() ==> (#[trigger] self.buttons()[i]).pin_id != (
            #[trigger] self.buttons()[j]).pin_id
    }

    /// A manager with no buttons yet.
    pub fn new() -> (m: ButtonManager)
        ensures
            m.wf(),
            m.buttons().len() == 0,
    {
        ButtonManager { buttons: Vec::new() }
    }

    /// Append a configured button; its channel and pin must be new.
    pub fn add_button(&mut self, b: Button)
        requires
            old(self).wf(),
            b.wf(),
            forall|i: int|
                0 <= i < old(self).buttons().len() ==> (#[trigger] old(self).buttons()[i]).channel_id
                    != b.channel_id,
            forall|i: int|
                0 <= i < old(self).buttons().len() ==> (#[trigger] old(self).buttons()[i]).pin_id
                    != b.pin_id,
        ensures
            final(self).wf(),
            final(self).buttons() == old(self).buttons().push(b),
    {
        self.buttons.push(b);
    }

    /// Number of configured buttons.
    pub fn len(&self) -> (n: usize)
        ensures
            n == self.buttons().len(),
    {
        self.buttons.len()
    }

    /// The button at position `i` in dispatch order.
    pub fn button_at(&self, i: usize) -> (b: Button)
        requires
            i < self.buttons().len(),
        ensures
            b == self.buttons()[i as int],
    {
        self.buttons[i]
    }

    /// The board layout: button "A" on channel 0 and pin 14, button "B" on
    /// channel 1 and pin 23, dispatched in that order.
    pub fn default_pair() -> (m: ButtonManager)
        ensures
            m.wf(),
            m.buttons().len() == 2,
            m.buttons()[0] == (Button { channel_id: 0, pin_id: 14, label: 'A', press_count: 0 }),
            m.buttons()[1] == (Button { channel_id: 1, pin_id: 23, label: 'B', press_count: 0 }),
    {
        let mut m = ButtonManager::new();
        m.add_button(Button::new(0, 14, 'A'));
        m.add_button(Button::new(1, 23, 'B'));
        m
    }

    /// One dispatch of the shared edge-detection interrupt, under the guard.
    ///
    /// The unit raises one interrupt however many channels fired, so every
    /// button's flag is polled on every call. Each pending flag is consumed,
    /// the button's press counter counts one more press, and a record naming
    /// the button is emitted, in fixed button order. A call with no pending
    /// edge — a spurious interrupt — emits nothing and changes nothing.
    pub fn dispatch(&mut self, guard: &InterruptGuard, events: &mut EdgeEvents) -> (records: Vec<
        PressEvent,
    >)
        requires
            guard.is_held(),
            old(self).wf(),
            old(events).wf(),
        ensures
            final(self).wf(),
            final(events).wf(),
            final(self).buttons() == buttons_after(old(self).buttons(), old(events).pending()),
            final(events).pending() == pending_after(old(self).buttons(), old(events).pending()),
            records@ == records_of(old(self).buttons(), old(events).pending()),
    {
        let ghost buttons0 = self.buttons@;
        let ghost pending0 = events.pending();
        let mut records: Vec<PressEvent> = Vec::new();
        let mut updated: Vec<Button> = Vec::new();
        let n = self.buttons.len();
        let mut k: usize = 0;
        proof {
            assert(buttons0.subrange(0, 0) =~= Seq::<Button>::empty());
            assert forall|i: int| 0 <= i < buttons0.len() implies (#[trigger] buttons0[i]).wf() by {
                assert(buttons0[i] == self.buttons()[i]);
            }
            assert forall|i: int, j: int|
                0 <= i < j < buttons0.len() implies (#[trigger] buttons0[i]).channel_id != (
            #[trigger] buttons0[j]).channel_id by {
                assert(buttons0[i] == self.buttons()[i]);
                assert(buttons0[j] == self.buttons()[j]);
            }
            assert forall|ch: int|
                0 <= ch < pending0.len() implies pending_after(buttons0.subrange(0, 0), pending0)[ch]
                == pending0[ch] by {
                assert(!owns_channel(buttons0.subrange(0, 0), ch));
            }
            assert(events.pending() =~= pending_after(buttons0.subrange(0, 0), pending0));
        }
        while k < n
            invariant
                guard.is_held(),
                k <= n,
                n == buttons0.len(),
                self.buttons@ == buttons0,
                events.wf(),
                pending0.len() == NUM_CHANNELS,
                forall|i: int| 0 <= i < buttons0.len() ==> (#[trigger] buttons0[i]).wf(),
                forall|i: int, j: int|
                    0 <= i < j < buttons0.len() ==> (#[trigger] buttons0[i]).channel_id != (
                    #[trigger] buttons0[j]).channel_id,
                updated@.len() == k,
                forall|i: int| 0 <= i < k ==> updated@[i] == button_after(buttons0[i], pending0),
                events.pending() == pending_after(buttons0.subrange(0, k as int), pending0),
                records@ == records_of(buttons0.subrange(0, k as int), pending0),
            decreases n - k,
        {
            let b = self.buttons[k];
            let ghost prefix = buttons0.subrange(0, k as int);
            let ghost pend_in = events.pending();
            proof {
                assert(pend_in.len() == NUM_CHANNELS);
                assert(!owns_channel(prefix, b.channel_id as int)) by {
                    if owns_channel(prefix, b.channel_id as int) {
                        let i = choose|i: int|
                            0 <= i < prefix.len() && (#[trigger] prefix[i]).channel_id
                                == b.channel_id;
                        assert(buttons0[i].channel_id == buttons0[k as int].channel_id);
                    }
                };
                assert(pend_in[b.channel_id as int] == pending0[b.channel_id as int]);
                lemma_records_of_push(prefix, b, pending0);
            }
            if b.poll_and_clear(guard, events) {
                let pressed = Button {
                    channel_id: b.channel_id,
                    pin_id: b.pin_id,
                    label: b.label,
                    press_count: wrapping_increment(b.press_count),
                };
                records.push(
                    PressEvent {
                        label: b.label,
                        channel_id: b.channel_id,
                        press_count: pressed.press_count,
                    },
                );
                updated.push(pressed);
            } else {
                updated.push(b);
            }
            let ghost hit = pend_in[b.channel_id as int];
            k += 1;
            proof {
                assert(buttons0.subrange(0, k as int) =~= prefix.push(b));
                assert forall|ch: int|
                    0 <= ch < pending0.len() implies events.pending()[ch] == pending_after(
                    prefix.push(b),
                    pending0,
                )[ch] by {
                    lemma_owns_channel_push(prefix, b, ch);
                    assert(pend_in[ch] == pending_after(prefix, pending0)[ch]);
                    if hit {
                        assert(events.pending()[ch] == (if ch == b.channel_id as int {
                            false
                        } else {
                            pend_in[ch]
                        }));
                    } else {
                        assert(events.pending()[ch] == pend_in[ch]);
                    }
                }
                assert(events.pending() =~= pending_after(prefix.push(b), pending0));
            }
        }
        self.buttons = updated;
        proof {
            assert(buttons0.subrange(0, n as int) =~= buttons0);
            assert(self.buttons@ =~= buttons_after(buttons0, pending0));
            assert(events.pending() =~= pending_after(buttons0, pending0));
            assert forall|i: int| 0 <= i < self.buttons@.len() implies (
            #[trigger] self.buttons@[i]).wf() by {
                assert(self.buttons@[i] == button_after(buttons0[i], pending0));
            }
            assert forall|i: int, j: int|
                0 <= i < j < self.buttons@.len() implies (#[trigger] self.buttons@[i]).channel_id
                != (#[trigger] self.buttons@[j]).channel_id && self.buttons@[i].pin_id
                != self.buttons@[j].pin_id by {
                assert(buttons0[i] == old(self).buttons()[i]);
                assert(buttons0[j] == old(self).buttons()[j]);
                assert(self.buttons@[i] == button_after(buttons0[i], pending0));
                assert(self.buttons@[j] == button_after(buttons0[j], pending0));
            }
        }
        records
    }
}

/// Law: with no pending edge on any button's channel, a dispatch emits no
/// record. A spurious interrupt is silently ignored.
pub proof fn lemma_no_edge_no_record(buttons: Seq<Button>, pending: Seq<bool>)
    requires
        forall|i: int| 0 <= i < buttons.len() ==> !edge_fired(#[trigger] buttons[i], pending),
    ensures
        records_of(buttons, pending) == Seq::<PressEvent>::empty(),
    decreases buttons.len(),
{
    if buttons.len() > 0 {
        assert forall|i: int|
            0 <= i < buttons.drop_first().len() implies !edge_fired(
            #[trigger] buttons.drop_first()[i],
            pending,
        ) by {
            assert(buttons.drop_first()[i] == buttons[i + 1]);
        }
        lemma_no_edge_no_record(buttons.drop_first(), pending);
    }
}

/// Law: a single pending edge, on the channel of button `x`, produces exactly
/// one record, attributing the press to `x` with its counter one press higher;
/// every other button is left untouched.
pub proof fn lemma_single_press(buttons: Seq<Button>, pending: Seq<bool>, x: int)
    requires
        0 <= x < buttons.len(),
        edge_fired(buttons[x], pending),
        forall|i: int|
            0 <= i < buttons.len() && i != x ==> !edge_fired(#[trigger] buttons[i], pending),
    ensures
        records_of(buttons, pending) == seq![press_record(buttons[x])],
        buttons_after(buttons, pending)[x] == button_pressed(buttons[x]),
        forall|i: int|
            0 <= i < buttons.len() && i != x ==> buttons_after(buttons, pending)[i] == buttons[i],
    decreases buttons.len(),
{
    assert forall|i: int|
        0 <= i < buttons.drop_first().len() && i != x - 1 implies !edge_fired(
        #[trigger] buttons.drop_first()[i],
        pending,
    ) by {
        assert(buttons.drop_first()[i] == buttons[i + 1]);
    }
    if x == 0 {
        lemma_no_edge_no_record(buttons.drop_first(), pending);
        assert(records_of(buttons, pending) =~= seq![press_record(buttons[0])]);
    } else {
        assert(buttons.drop_first()[x - 1] == buttons[x]);
        lemma_single_press(buttons.drop_first(), pending, x - 1);
        assert(records_of(buttons, pending) =~= seq![press_record(buttons[x])]);
    }
}

/// Law: simultaneous edges on two distinct buttons within one dispatch produce
/// two independent records, one per button, in fixed dispatch order: the
/// earlier button first.
pub proof fn lemma_simultaneous_presses(buttons: Seq<Button>, pending: Seq<bool>, x: int, y: int)
    requires
        0 <= x < y < buttons.len(),
        edge_fired(buttons[x], pending),
        edge_fired(buttons[y], pending),
        forall|i: int|
            0 <= i < buttons.len() && i != x && i != y ==> !edge_fired(
                #[trigger] buttons[i],
                pending,
            ),
    ensures
        records_of(buttons, pending) == seq![press_record(buttons[x]), press_record(buttons[y])],
    decreases buttons.len(),
{
    assert forall|i: int|
        0 <= i < buttons.drop_first().len() && i != x - 1 && i != y - 1 implies !edge_fired(
        #[trigger] buttons.drop_first()[i],
        pending,
    ) by {
        assert(buttons.drop_first()[i] == buttons[i + 1]);
    }
    assert(buttons.drop_first()[y - 1] == buttons[y]);
    if x == 0 {
        lemma_single_press(buttons.drop_first(), pending, y - 1);
        assert(records_of(buttons, pending) =~= seq![
            press_record(buttons[0]),
            press_record(buttons[y]),
        ]);
    } else {
        assert(buttons.drop_first()[x - 1] == buttons[x]);
        lemma_simultaneous_presses(buttons.drop_first(), pending, x - 1, y - 1);
        assert(records_of(buttons, pending) =~= seq![
            press_record(buttons[x]),
            press_record(buttons[y]),
        ]);
    }
}

/// Law: one dispatch drains every owned channel, so a second dispatch with no
/// new edge emits nothing and changes nothing — clearing is idempotent.
pub proof fn lemma_second_dispatch_idle(buttons: Seq<Button>, pending: Seq<bool>)
    requires
        forall|i: int| 0 <= i < buttons.len() ==> (#[trigger] buttons[i]).channel_id < pending.len(),
    ensures
        records_of(buttons_after(buttons, pending), pending_after(buttons, pending))
            == Seq::<PressEvent>::empty(),
        buttons_after(buttons_after(buttons, pending), pending_after(buttons, pending))
            == buttons_after(buttons, pending),
        pending_after(buttons_after(buttons, pending), pending_after(buttons, pending))
            == pending_after(buttons, pending),
{
    let b1 = buttons_after(buttons, pending);
    let p1 = pending_after(buttons, pending);
    assert forall|i: int| 0 <= i < b1.len() implies !edge_fired(#[trigger] b1[i], pending_after(
        buttons,
        pending,
    )) by {
        let ch = buttons[i].channel_id as int;
        assert(b1[i].channel_id == buttons[i].channel_id);
        assert(owns_channel(buttons, ch));
        assert(!p1[ch]);
    }
    lemma_no_edge_no_record(b1, p1);
    assert(buttons_after(b1, p1) =~= b1);
    assert forall|ch: int| owns_channel(b1, ch) == owns_channel(buttons, ch) by {
        if owns_channel(b1, ch) {
            let i = choose|i: int| 0 <= i < b1.len() && (#[trigger] b1[i]).channel_id == ch;
            assert(buttons[i].channel_id == ch);
        }
        if owns_channel(buttons, ch) {
            let i = choose|i: int|
                0 <= i < buttons.len() && (#[trigger] buttons[i]).channel_id == ch;
            assert(b1[i].channel_id == ch);
        }
    }
    assert(pending_after(b1, p1) =~= p1);
}

} // verus!
