use runtime::connect::ConnectError;
use runtime::net::{Incoming, SendTo};
use runtime::time::Progress;
use std::collections::VecDeque;

#[test]
fn incoming_keeps_going_after_failures() {
    let mut incoming = Incoming::new();
    for i in 0..5u32 {
        match incoming.on_accept::<u32, String>(Progress::Ready(Err(format!("failure {}", i)))) {
            Progress::Ready(Some(Err(e))) => assert_eq!(e, format!("failure {}", i)),
            other => panic!("unexpected item {:?}", other),
        }
    }
    match incoming.on_accept::<u32, String>(Progress::Ready(Ok(9))) {
        Progress::Ready(Some(Ok(s))) => assert_eq!(s, 9),
        other => panic!("unexpected item {:?}", other),
    }
}

#[test]
fn incoming_pending_stays_pending() {
    let mut incoming = Incoming::new();
    assert!(matches!(
        incoming.on_accept::<u32, String>(Progress::Pending),
        Progress::Pending
    ));
}

#[test]
fn send_to_uses_first_address() {
    let mut d = VecDeque::new();
    d.push_back(4u32);
    d.push_back(6u32);
    let mut s: SendTo<u32, String> = SendTo::new(Ok(d));
    let a = s.take_target().unwrap();
    assert_eq!(a, 4);
    s.restore(a);
    assert_eq!(s.take_target().unwrap(), 4);
}

#[test]
fn send_to_without_address_is_input_error() {
    let mut s: SendTo<u32, String> = SendTo::new(Ok(VecDeque::new()));
    match s.take_target() {
        Err(e) => assert!(e.is_input_error()),
        Ok(a) => panic!("unexpected address {}", a),
    }
}

#[test]
fn send_to_reports_resolution_failure_once() {
    let mut s: SendTo<u32, String> = SendTo::new(Err("bad".to_string()));
    match s.take_target() {
        Err(ConnectError::Resolve(e)) => assert_eq!(e, "bad"),
        other => panic!("unexpected target {:?}", other),
    }
    assert!(matches!(s.take_target(), Err(ConnectError::NoAddresses)));
}

#[test]
fn accept_one_hands_back_the_outcome() {
    let mut incoming = Incoming::new();
    match incoming.accept_one::<u32, String>(Progress::Ready(Ok(11))) {
        Progress::Ready(Ok(s)) => assert_eq!(s, 11),
        other => panic!("unexpected outcome {:?}", other),
    }
    match incoming.accept_one::<u32, String>(Progress::Ready(Err("reset".to_string()))) {
        Progress::Ready(Err(e)) => assert_eq!(e, "reset"),
        other => panic!("unexpected outcome {:?}", other),
    }
    assert!(matches!(
        incoming.accept_one::<u32, String>(Progress::Pending),
        Progress::Pending
    ));
}
