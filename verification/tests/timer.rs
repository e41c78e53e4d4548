//! Blink-timer scenarios: configuration values, fire timing at the configured
//! rate, and the strictly alternating output level.

use blinky_button::timer::BlinkTimer;
use blinky_button::timer::CompareEvent;
use blinky_button::guard::InterruptGuard;

#[test]
fn config_values_for_one_second_period() {
    let t = BlinkTimer::new(1_000_000, 21);
    let c = t.config();
    assert_eq!(c.bitmode, 3); // 32-bit counter
    assert_eq!(c.prescaler, 4); // divide 16 MHz by 2^4
    assert_eq!(c.compare, 1_000_000);
    assert_eq!(c.intenset, 1 << 16); // first compare channel's interrupt
    assert_eq!(c.shorts, 1); // clear counter on compare match
}

#[test]
fn effective_rate_is_one_megahertz() {
    assert_eq!(BlinkTimer::effective_tick_rate(), 1_000_000);
}

#[test]
fn fires_land_on_whole_seconds() {
    // period_ticks = 1,000,000 at a 1 MHz effective tick rate: the first
    // toggle comes after exactly one simulated second, the second after two.
    let t = BlinkTimer::new(1_000_000, 21);
    let rate = u64::from(BlinkTimer::effective_tick_rate());
    assert_eq!(t.nth_fire_tick(1), rate); // 1 second
    assert_eq!(t.nth_fire_tick(2), 2 * rate); // 2 seconds
    assert_eq!(t.nth_fire_tick(60), 60 * rate); // 1 minute
}

#[test]
fn fire_tick_never_overflows() {
    let t = BlinkTimer::new(u32::MAX, 21);
    assert_eq!(t.nth_fire_tick(u32::MAX), u64::from(u32::MAX) * u64::from(u32::MAX));
}

#[test]
fn level_alternates_strictly() {
    let mut t = BlinkTimer::new(1_000_000, 21);
    let mut event = CompareEvent::new();
    let mut guard = InterruptGuard::new();
    guard.acquire();
    let start_level = false;
    let mut level = start_level;
    for fires in 1..=8u32 {
        event.latch();
        level = t.on_fire(&guard, &mut event, level);
        assert!(!event.pending_now());
        // After an even number of fires the level is back at the start;
        // after an odd number it is the opposite.
        assert_eq!(level, if fires % 2 == 0 { start_level } else { !start_level });
    }
    assert_eq!(t.tick_count, 8);
}

#[test]
fn on_fire_clears_event_and_counts() {
    let mut t = BlinkTimer::new(500, 21);
    let mut event = CompareEvent::new();
    let mut guard = InterruptGuard::new();
    guard.acquire();
    event.latch();
    assert!(event.pending_now());
    let new_level = t.on_fire(&guard, &mut event, true);
    assert!(!new_level);
    assert!(!event.pending_now());
    assert_eq!(t.tick_count, 1);
    assert_eq!(t.period_ticks, 500);
    assert_eq!(t.output_pin_id, 21);
}

#[test]
fn tick_counter_wraps_on_overflow() {
    let mut t = BlinkTimer::new(500, 21);
    t.tick_count = u32::MAX;
    let mut event = CompareEvent::new();
    let mut guard = InterruptGuard::new();
    guard.acquire();
    event.latch();
    t.on_fire(&guard, &mut event, false);
    assert_eq!(t.tick_count, 0);
}
