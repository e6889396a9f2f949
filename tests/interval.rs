use runtime::interval::IntervalSchedule;

#[test]
fn interval_three_ticks_never_early() {
    // Period 10, started at 0, polled every 5 units: three ticks are taken,
    // due at 0, 10 and 20, and the third comes no earlier than 20.
    let mut schedule = IntervalSchedule::new(10);
    let mut ticks = Vec::new();
    let mut now = 0u64;
    while ticks.len() < 3 {
        if let Some(due) = schedule.poll_tick(now) {
            assert!(now >= due);
            ticks.push((due, now));
        }
        now += 5;
    }
    assert_eq!(ticks, vec![(0, 0), (10, 10), (20, 20)]);
}

#[test]
fn interval_late_poll_fires_one_tick_at_a_time() {
    let mut schedule = IntervalSchedule::new(10);
    assert_eq!(schedule.poll_tick(35), Some(0));
    assert_eq!(schedule.poll_tick(35), Some(10));
    assert_eq!(schedule.poll_tick(35), Some(20));
    assert_eq!(schedule.poll_tick(35), Some(30));
    assert_eq!(schedule.poll_tick(35), None);
    assert_eq!(schedule.wait_from(35), Some(5));
}

#[test]
fn interval_wait_until_next_due() {
    let mut schedule = IntervalSchedule::new(7);
    assert_eq!(schedule.wait_from(0), Some(0));
    assert_eq!(schedule.poll_tick(0), Some(0));
    assert_eq!(schedule.wait_from(3), Some(4));
    assert_eq!(schedule.poll_tick(3), None);
    assert_eq!(schedule.wait_from(9), Some(0));
}

#[test]
fn interval_due_time_past_the_largest_time_never_fires() {
    let mut schedule = IntervalSchedule::new(u64::MAX);
    assert_eq!(schedule.poll_tick(0), Some(0));
    assert_eq!(schedule.poll_tick(u64::MAX - 1), None);
    assert_eq!(schedule.poll_tick(u64::MAX), Some(u64::MAX));
    assert_eq!(schedule.wait_from(u64::MAX), None);
    assert_eq!(schedule.poll_tick(u64::MAX), None);
}
