//! Button dispatch scenarios: single press, simultaneous presses, idempotent
//! clearing, spurious interrupts, and the configuration words.

use blinky_button::button::Button;
use blinky_button::button::ButtonManager;
use blinky_button::button::EdgeEvents;
use blinky_button::button::button_pin_config_word;
use blinky_button::guard::InterruptGuard;

#[test]
fn pin_config_word_is_all_default_fields() {
    // Input direction, input buffer connected, no pull, standard drive and
    // sensing disabled are all the zero encoding on this port.
    assert_eq!(button_pin_config_word(), 0);
}

#[test]
fn edge_config_word_binds_pin_and_polarity() {
    let a = Button::new(0, 14, 'A');
    // Event mode (1), source pin 14 at bit 8, high-to-low polarity (2) at bit 16.
    assert_eq!(a.edge_config_word(), 1 | (14 << 8) | (2 << 16));
    let b = Button::new(1, 23, 'B');
    assert_eq!(b.edge_config_word(), 1 | (23 << 8) | (2 << 16));
}

#[test]
fn channel_masks_are_one_bit_each() {
    let a = Button::new(0, 14, 'A');
    let b = Button::new(1, 23, 'B');
    assert_eq!(a.channel_mask(), 0b01);
    assert_eq!(b.channel_mask(), 0b10);
}

#[test]
fn default_pair_layout() {
    let m = ButtonManager::default_pair();
    assert_eq!(m.len(), 2);
    let a = m.button_at(0);
    assert_eq!(a.channel_id, 0);
    assert_eq!(a.pin_id, 14);
    assert_eq!(a.label, 'A');
    assert_eq!(a.press_count, 0);
    let b = m.button_at(1);
    assert_eq!(b.channel_id, 1);
    assert_eq!(b.pin_id, 23);
    assert_eq!(b.label, 'B');
    assert_eq!(b.press_count, 0);
}

#[test]
fn single_press_fires_exactly_one_record() {
    let mut m = ButtonManager::default_pair();
    let mut events = EdgeEvents::new();
    let mut guard = InterruptGuard::new();
    guard.acquire();
    // A falling edge on pin 14 latches channel 0, bound to button "A".
    events.latch_edge(0);
    let records = m.dispatch(&guard, &mut events);
    assert_eq!(records.len(), 1);
    assert_eq!(records[0].label, 'A');
    assert_eq!(records[0].channel_id, 0);
    assert_eq!(records[0].press_count, 1);
    assert_eq!(m.button_at(0).press_count, 1);
    assert_eq!(m.button_at(1).press_count, 0);
    assert!(!events.is_pending(0));
}

#[test]
fn second_dispatch_with_no_new_edge_is_silent() {
    let mut m = ButtonManager::default_pair();
    let mut events = EdgeEvents::new();
    let mut guard = InterruptGuard::new();
    guard.acquire();
    events.latch_edge(0);
    let first = m.dispatch(&guard, &mut events);
    assert_eq!(first.len(), 1);
    // Clearing consumed the edge: a second dispatch sees nothing.
    let second = m.dispatch(&guard, &mut events);
    assert_eq!(second.len(), 0);
    assert_eq!(m.button_at(0).press_count, 1);
    assert_eq!(m.button_at(1).press_count, 0);
}

#[test]
fn simultaneous_presses_fire_both_in_order() {
    let mut m = ButtonManager::default_pair();
    let mut events = EdgeEvents::new();
    let mut guard = InterruptGuard::new();
    guard.acquire();
    events.latch_edge(0);
    events.latch_edge(1);
    let records = m.dispatch(&guard, &mut events);
    assert_eq!(records.len(), 2);
    assert_eq!(records[0].label, 'A');
    assert_eq!(records[1].label, 'B');
    assert_eq!(m.button_at(0).press_count, 1);
    assert_eq!(m.button_at(1).press_count, 1);
}

#[test]
fn press_of_second_button_only() {
    let mut m = ButtonManager::default_pair();
    let mut events = EdgeEvents::new();
    let mut guard = InterruptGuard::new();
    guard.acquire();
    events.latch_edge(1);
    let records = m.dispatch(&guard, &mut events);
    assert_eq!(records.len(), 1);
    assert_eq!(records[0].label, 'B');
    assert_eq!(records[0].channel_id, 1);
    assert_eq!(m.button_at(0).press_count, 0);
    assert_eq!(m.button_at(1).press_count, 1);
}

#[test]
fn spurious_interrupt_is_ignored() {
    let mut m = ButtonManager::default_pair();
    let mut events = EdgeEvents::new();
    let mut guard = InterruptGuard::new();
    guard.acquire();
    let records = m.dispatch(&guard, &mut events);
    assert_eq!(records.len(), 0);
    assert_eq!(m.button_at(0).press_count, 0);
    assert_eq!(m.button_at(1).press_count, 0);
}

#[test]
fn edge_on_unowned_channel_stays_latched() {
    let mut m = ButtonManager::default_pair();
    let mut events = EdgeEvents::new();
    let mut guard = InterruptGuard::new();
    guard.acquire();
    // Channel 5 belongs to no button: dispatch neither reports nor clears it.
    events.latch_edge(5);
    let records = m.dispatch(&guard, &mut events);
    assert_eq!(records.len(), 0);
    assert!(events.is_pending(5));
}

#[test]
fn press_counter_wraps_on_overflow() {
    let mut m = ButtonManager::new();
    m.add_button(Button { channel_id: 2, pin_id: 3, label: 'C', press_count: u32::MAX });
    let mut events = EdgeEvents::new();
    let mut guard = InterruptGuard::new();
    guard.acquire();
    events.latch_edge(2);
    let records = m.dispatch(&guard, &mut events);
    assert_eq!(records.len(), 1);
    assert_eq!(records[0].press_count, 0);
    assert_eq!(m.button_at(0).press_count, 0);
}

#[test]
fn presses_accumulate_across_dispatches() {
    let mut m = ButtonManager::default_pair();
    let mut events = EdgeEvents::new();
    let mut guard = InterruptGuard::new();
    guard.acquire();
    for expected in 1..=3u32 {
        events.latch_edge(0);
        let records = m.dispatch(&guard, &mut events);
        assert_eq!(records.len(), 1);
        assert_eq!(records[0].press_count, expected);
    }
    assert_eq!(m.button_at(0).press_count, 3);
    assert_eq!(m.button_at(1).press_count, 0);
}
