use runtime::backend::{Native, Tokio, TokioCurrentThread};
use runtime::task::{JoinState, TaskPanicked};
use runtime::time::Progress;

#[test]
fn join_resolves_to_value_once() {
    let mut j = JoinState::new();
    assert!(matches!(j.on_receiver::<u32>(Progress::Pending), Progress::Pending));
    assert!(!j.is_resolved());
    match j.on_receiver(Progress::Ready(Some(42u32))) {
        Progress::Ready(Ok(v)) => assert_eq!(v, 42),
        other => panic!("unexpected poll {:?}", other),
    }
    assert!(j.is_resolved());
}

#[test]
fn join_broken_channel_is_task_panicked() {
    let mut j = JoinState::new();
    assert!(matches!(
        j.on_receiver::<u32>(Progress::Ready(None)),
        Progress::Ready(Err(TaskPanicked))
    ));
    assert!(j.is_resolved());
}

#[test]
fn backends_are_distinct_markers() {
    assert_eq!(Native, Native);
    assert_eq!(Tokio, Tokio);
    assert_eq!(TokioCurrentThread, TokioCurrentThread);
}
