use runtime::time::{
    future_on_guarded, future_on_timer, stream_on_guarded, stream_on_timer, Elapsed, GuardedStep,
    Progress, TimerStep,
};

#[test]
fn timeout_guarded_value_wins() {
    match future_on_guarded(Progress::Ready(5u32)) {
        GuardedStep::Yield(Ok(v)) => assert_eq!(v, 5),
        other => panic!("unexpected step {:?}", other),
    }
}

#[test]
fn timeout_pending_checks_timer() {
    assert!(matches!(
        future_on_guarded::<u32>(Progress::Pending),
        GuardedStep::CheckTimer
    ));
}

#[test]
fn timeout_fired_timer_is_elapsed() {
    assert!(matches!(
        future_on_timer::<u32>(true),
        TimerStep::Yield(Err(Elapsed))
    ));
    assert!(matches!(future_on_timer::<u32>(false), TimerStep::Wait));
}

#[test]
fn timeout_race_shorter_operation_wins() {
    // The operation completes after 10 units, the budget is 20: at time 10
    // the operation is ready and the timer is not.
    let now = 10u64;
    let g = if now >= 10 { Progress::Ready("done") } else { Progress::Pending };
    match future_on_guarded(g) {
        GuardedStep::Yield(Ok(v)) => assert_eq!(v, "done"),
        other => panic!("unexpected step {:?}", other),
    }
    // The operation takes 20 units, the budget is 10: at time 10 the
    // operation is pending and the timer fires.
    let g: Progress<&str> = if now >= 20 { Progress::Ready("done") } else { Progress::Pending };
    assert!(matches!(future_on_guarded(g), GuardedStep::CheckTimer));
    assert!(matches!(
        future_on_timer::<&str>(now >= 10),
        TimerStep::Yield(Err(Elapsed))
    ));
}

#[test]
fn timeout_stream_items_and_end() {
    match stream_on_guarded(Progress::Ready(Some(3u8))) {
        GuardedStep::Yield(Some(Ok(v))) => assert_eq!(v, 3),
        other => panic!("unexpected step {:?}", other),
    }
    assert!(matches!(
        stream_on_guarded::<u8>(Progress::Ready(None)),
        GuardedStep::Yield(None)
    ));
    assert!(matches!(
        stream_on_guarded::<u8>(Progress::Pending),
        GuardedStep::CheckTimer
    ));
}

#[test]
fn timeout_stream_timer_yields_timeout_item() {
    assert!(matches!(
        stream_on_timer::<u8>(true),
        TimerStep::Yield(Some(Err(Elapsed)))
    ));
    assert!(matches!(stream_on_timer::<u8>(false), TimerStep::Wait));
}

#[test]
fn timeout_stream_budget_restarts_per_item() {
    // Budget 10 per item. Items come 8 units after the previous yield: each
    // is within its own budget although the third comes at time 24.
    let budget = 10u64;
    let mut last_yield = 0u64;
    for k in 1..=3u64 {
        let now = last_yield + 8;
        match stream_on_guarded(Progress::Ready(Some(k))) {
            GuardedStep::Yield(Some(Ok(v))) => assert_eq!(v, k),
            other => panic!("unexpected step {:?}", other),
        }
        assert!(now < last_yield + budget);
        last_yield = now;
    }
    assert_eq!(last_yield, 24);
    // The next item is late: at time 34 it is still pending and the timer,
    // rebuilt at 24, fires.
    let now = last_yield + budget;
    assert!(matches!(
        stream_on_guarded::<u64>(Progress::Pending),
        GuardedStep::CheckTimer
    ));
    assert!(matches!(
        stream_on_timer::<u64>(now >= last_yield + budget),
        TimerStep::Yield(Some(Err(Elapsed)))
    ));
}
