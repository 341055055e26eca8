use burner_client::counter::AnimatedCounter;

#[test]
fn fresh_counter_is_settled() {
    let mut c = AnimatedCounter::new(5);
    assert_eq!(c.current_milli, 5000);
    assert_eq!(c.display_value(), 5);
    assert!(c.tick());
    assert_eq!(c.current_milli, 5000);
}

#[test]
fn one_tick_moves_a_tenth_of_the_distance() {
    let mut c = AnimatedCounter::new(0);
    c.set_target(47);
    let done = c.tick();
    assert!(!done);
    assert_eq!(c.current_milli, 4700);
}

#[test]
fn interpolation_converges_exactly_without_overshoot() {
    let mut c = AnimatedCounter::new(0);
    c.set_target(47);
    let mut ticks: u64 = 0;
    loop {
        let before = c.current_milli;
        let done = c.tick();
        ticks += 1;
        // never overshoots: each step stays between the old value and the target
        assert!(before <= c.current_milli && c.current_milli <= 47000);
        if done {
            break;
        }
        assert!(ticks < 1000, "the interpolation must settle in bounded ticks");
    }
    assert_eq!(c.current_milli, 47000);
    assert_eq!(c.display_value(), 47);
    assert_eq!(ticks, 59);
}

#[test]
fn settle_spends_exactly_the_eased_tick_count() {
    let mut c = AnimatedCounter::new(0);
    c.set_target(47);
    let ticks = c.settle();
    assert_eq!(ticks, 59);
    assert_eq!(c.current_milli, 47000);
    let again = c.settle();
    assert_eq!(again, 1);
}

#[test]
fn settle_reaches_target_downward_too() {
    let mut c = AnimatedCounter::new(250);
    c.set_target(3);
    let ticks = c.settle();
    assert_eq!(c.current_milli, 3000);
    assert_eq!(c.display_value(), 3);
    assert_eq!(ticks, 75);
}

#[test]
fn retarget_keeps_displayed_value() {
    let mut c = AnimatedCounter::new(10);
    c.set_target(90);
    assert_eq!(c.current_milli, 10000);
    c.settle();
    assert_eq!(c.display_value(), 90);
}
