use reaction_round::countdown::{Countdown, SECOND_TICKS};

#[test]
fn new_countdown_is_unarmed_until_reset() {
    let mut c = Countdown::new(10);
    assert_eq!(c.seconds_left(), 0);
    c.reset();
    assert_eq!(c.seconds_left(), 10);
}

#[test]
fn one_second_per_threshold_crossing_with_carry() {
    let mut c = Countdown::new(10);
    c.reset();
    c.update(0x1000);
    assert_eq!(c.seconds_left(), 10);
    c.update(0x2000);
    assert_eq!(c.seconds_left(), 10);
    // The accumulator reaches exactly the threshold: one second goes.
    c.update(SECOND_TICKS);
    assert_eq!(c.seconds_left(), 9);
    // The remainder carries: one tick short of the next threshold...
    c.update(2 * SECOND_TICKS - 1);
    assert_eq!(c.seconds_left(), 9);
    // ...and the single missing tick completes the second.
    c.update(2 * SECOND_TICKS);
    assert_eq!(c.seconds_left(), 8);
}

#[test]
fn disabled_countdown_ignores_readings() {
    let mut c = Countdown::new(10);
    c.reset();
    c.update(SECOND_TICKS);
    assert_eq!(c.seconds_left(), 9);
    c.set_enabled(false);
    c.update(100 * SECOND_TICKS);
    assert_eq!(c.seconds_left(), 9);
    c.update(200 * SECOND_TICKS);
    assert_eq!(c.seconds_left(), 9);
}

#[test]
fn seconds_never_go_below_zero() {
    let mut c = Countdown::new(2);
    c.reset();
    for i in 1..=10u32 {
        c.update(i * SECOND_TICKS);
    }
    assert_eq!(c.seconds_left(), 0);
}

#[test]
fn counter_wraparound_costs_no_spurious_seconds() {
    // Walk the raw counter right up to the wrap boundary in whole-second
    // steps, then cross the boundary: exactly one more second is taken,
    // not a multi-second jump.
    let steps: u32 = u32::MAX / SECOND_TICKS; // whole seconds until the counter wraps
    let mut c = Countdown::new(300000);
    c.reset();
    for i in 1..=steps {
        c.update(i * SECOND_TICKS);
    }
    assert_eq!(c.seconds_left(), 300000 - steps as usize);
    let at_boundary = steps * SECOND_TICKS; // 0xFFFF_C000, accumulator empty
    assert_eq!(at_boundary, 0xFFFF_C000);
    c.update(at_boundary + 0x3000);
    assert_eq!(c.seconds_left(), 300000 - steps as usize);
    // The counter wraps past zero; the delta is still small and exactly
    // one threshold is crossed.
    c.update(0x1000); // the raw counter has wrapped past zero
    assert_eq!(c.seconds_left(), 300000 - steps as usize - 1);
}
