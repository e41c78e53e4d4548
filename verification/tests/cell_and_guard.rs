//! The store-once cell and the global guard: the handoff from initialization
//! to interrupt context, and the interrupt entry points around it.

use blinky_button::button::ButtonManager;
use blinky_button::button::EdgeEvents;
use blinky_button::cell::SharedPeripheralCell;
use blinky_button::dispatch::FirmwareCore;
use blinky_button::guard::InterruptGuard;
use blinky_button::timer::BlinkTimer;
use blinky_button::timer::CompareEvent;
use blinky_button::wrapping_increment;

#[test]
fn guard_tracks_held_state() {
    let mut guard = InterruptGuard::new();
    assert!(!guard.holds());
    guard.acquire();
    assert!(guard.holds());
    guard.release();
    assert!(!guard.holds());
    // A second, later critical section is fine; only nesting is ruled out.
    guard.acquire();
    assert!(guard.holds());
    guard.release();
}

#[test]
fn cell_starts_empty_and_stores_once() {
    let mut guard = InterruptGuard::new();
    let mut cell: SharedPeripheralCell<u32> = SharedPeripheralCell::new();
    assert!(!cell.occupied());
    guard.acquire();
    cell.store(&guard, 7);
    assert!(cell.occupied());
    assert_eq!(cell.get(&guard), Some(7));
    guard.release();
}

#[test]
fn with_mut_on_empty_cell_does_nothing() {
    let mut guard = InterruptGuard::new();
    let mut cell: SharedPeripheralCell<u32> = SharedPeripheralCell::new();
    guard.acquire();
    let invoked = cell.with_mut(&guard, |v| v + 1);
    assert!(!invoked);
    assert!(!cell.occupied());
    assert_eq!(cell.get(&guard), None);
    guard.release();
}

#[test]
fn with_mut_updates_the_held_value() {
    let mut guard = InterruptGuard::new();
    let mut cell: SharedPeripheralCell<u32> = SharedPeripheralCell::new();
    guard.acquire();
    cell.store(&guard, 41);
    let invoked = cell.with_mut(&guard, |v| v + 1);
    assert!(invoked);
    assert_eq!(cell.get(&guard), Some(42));
    let invoked_again = cell.with_mut(&guard, wrapping_increment);
    assert!(invoked_again);
    assert_eq!(cell.get(&guard), Some(43));
    guard.release();
}

#[test]
fn edge_entry_point_dispatches_under_the_guard() {
    let mut guard = InterruptGuard::new();
    let mut core = FirmwareCore::new(ButtonManager::default_pair(), BlinkTimer::new(1_000_000, 21));
    let mut events = EdgeEvents::new();
    events.latch_edge(0);
    events.latch_edge(1);
    let records = core.on_edge_interrupt(&mut guard, &mut events);
    // The guard was taken and given back; both presses were reported in order.
    assert!(!guard.holds());
    assert_eq!(records.len(), 2);
    assert_eq!(records[0].label, 'A');
    assert_eq!(records[1].label, 'B');
    assert_eq!(core.buttons.button_at(0).press_count, 1);
    assert_eq!(core.buttons.button_at(1).press_count, 1);
}

#[test]
fn timer_entry_point_toggles_under_the_guard() {
    let mut guard = InterruptGuard::new();
    let mut core = FirmwareCore::new(ButtonManager::default_pair(), BlinkTimer::new(1_000_000, 21));
    let mut event = CompareEvent::new();
    event.latch();
    let new_level = core.on_timer_interrupt(&mut guard, &mut event, false);
    assert!(!guard.holds());
    assert!(new_level);
    assert!(!event.pending_now());
    assert_eq!(core.timer.tick_count, 1);
    // The button state is untouched by the timer line.
    assert_eq!(core.buttons.button_at(0).press_count, 0);
}

#[test]
fn wrapping_increment_counts_and_wraps() {
    assert_eq!(wrapping_increment(0), 1);
    assert_eq!(wrapping_increment(41), 42);
    assert_eq!(wrapping_increment(u32::MAX), 0);
}
