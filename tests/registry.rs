use nanocl_tasks::action::ActionKind;
use nanocl_tasks::registry::TaskManager;
use nanocl_tasks::task::{wait_step, ObjTask, WaitStep, POLL_INTERVAL_MS};

#[test]
fn empty_registry_has_no_task() {
    let m = TaskManager::new();
    assert!(m.get_task("web-1").is_none());
    assert!(m.can_add());
}

#[test]
fn added_task_is_visible_and_running() {
    let mut m = TaskManager::new();
    let t = m.add_task("web-1", ActionKind::Start);
    assert_eq!(t.id, 0);
    assert!(!t.is_finished());
    let g = m.get_task("web-1").unwrap();
    assert_eq!(g.id, 0);
    assert!(matches!(g.kind, ActionKind::Start));
    assert!(!g.is_finished());
}

#[test]
fn latest_add_wins() {
    let mut m = TaskManager::new();
    m.add_task("web-1", ActionKind::Create);
    m.add_task("web-1", ActionKind::Start);
    let last = m.add_task("web-1", ActionKind::Stop);
    assert_eq!(last.id, 2);
    let g = m.get_task("web-1").unwrap();
    assert_eq!(g.id, 2);
    assert!(matches!(g.kind, ActionKind::Stop));
}

#[test]
fn stale_completion_leaves_newer_task() {
    let mut m = TaskManager::new();
    let first = m.add_task("web-1", ActionKind::Start);
    let second = m.add_task("web-1", ActionKind::Stop);
    assert!(!m.complete_task("web-1", first.id, true));
    assert_eq!(m.get_task("web-1").unwrap().id, second.id);
}

#[test]
fn success_removes_task() {
    let mut m = TaskManager::new();
    let t = m.add_task("web-1", ActionKind::Start);
    assert!(m.complete_task("web-1", t.id, true));
    assert!(m.get_task("web-1").is_none());
}

#[test]
fn failure_keeps_finished_task() {
    let mut m = TaskManager::new();
    let t = m.add_task("web-1", ActionKind::Stop);
    assert!(m.complete_task("web-1", t.id, false));
    m.add_task("web-2", ActionKind::Start);
    m.remove_task("web-2");
    let g = m.get_task("web-1").unwrap();
    assert_eq!(g.id, t.id);
    assert!(g.is_finished());
}

#[test]
fn completion_of_unknown_key_changes_nothing() {
    let mut m = TaskManager::new();
    m.add_task("web-1", ActionKind::Start);
    assert!(!m.complete_task("db-1", 0, true));
    assert!(m.get_task("web-1").is_some());
}

#[test]
fn remove_twice_is_harmless() {
    let mut m = TaskManager::new();
    let t = m.add_task("web-1", ActionKind::Start);
    let removed = m.remove_task("web-1").unwrap();
    assert_eq!(removed.id, t.id);
    assert!(m.get_task("web-1").is_none());
    assert!(m.remove_task("web-1").is_none());
    assert!(m.get_task("web-1").is_none());
}

#[test]
fn remove_absent_key_is_noop() {
    let mut m = TaskManager::new();
    m.add_task("web-1", ActionKind::Start);
    assert!(m.remove_task("web-2").is_none());
    assert!(m.get_task("web-1").is_some());
}

#[test]
fn wait_on_running_task_sleeps() {
    let mut m = TaskManager::new();
    m.add_task("web-1", ActionKind::Start);
    assert_eq!(m.wait_task("web-1"), WaitStep::Sleep(1000));
    assert!(m.get_task("web-1").is_some());
}

#[test]
fn wait_after_failure_reclaims() {
    let mut m = TaskManager::new();
    let t = m.add_task("web-1", ActionKind::Stop);
    m.complete_task("web-1", t.id, false);
    assert_eq!(m.wait_task("web-1"), WaitStep::Done);
    assert!(m.get_task("web-1").is_none());
}

#[test]
fn wait_after_success_is_done() {
    let mut m = TaskManager::new();
    let t = m.add_task("web-1", ActionKind::Start);
    m.complete_task("web-1", t.id, true);
    assert_eq!(m.wait_task("web-1"), WaitStep::Done);
    assert!(m.get_task("web-1").is_none());
}

#[test]
fn wait_on_absent_key_is_done() {
    let mut m = TaskManager::new();
    assert_eq!(m.wait_task("nothing"), WaitStep::Done);
}

#[test]
fn keys_are_isolated() {
    let mut m = TaskManager::new();
    let a = m.add_task("web-1", ActionKind::Start);
    let b = m.add_task("web-2", ActionKind::Stop);
    m.complete_task("web-2", b.id, false);
    m.wait_task("web-2");
    m.add_task("web-2", ActionKind::Restart);
    m.remove_task("web-2");
    let g = m.get_task("web-1").unwrap();
    assert_eq!(g.id, a.id);
    assert!(!g.is_finished());
}

#[test]
fn start_succeeding_later_scenario() {
    let mut m = TaskManager::new();
    let t = m.add_task("web-1", ActionKind::Start);
    assert!(!m.get_task("web-1").unwrap().is_finished());
    // the operation succeeds two seconds later
    m.complete_task("web-1", t.id, true);
    assert!(m.get_task("web-1").is_none());
}

#[test]
fn stop_failing_at_once_scenario() {
    let mut m = TaskManager::new();
    let t = m.add_task("web-1", ActionKind::Stop);
    m.complete_task("web-1", t.id, false);
    assert!(m.get_task("web-1").unwrap().is_finished());
    m.remove_task("web-1");
    assert!(m.get_task("web-1").is_none());
}

#[test]
fn poll_decision() {
    assert_eq!(POLL_INTERVAL_MS, 1000);
    assert_eq!(wait_step(true), WaitStep::Done);
    assert_eq!(wait_step(false), WaitStep::Sleep(1000));
    let t = ObjTask::new(ActionKind::Other("migrate".to_string()), 7);
    assert_eq!(t.wait(), WaitStep::Sleep(1000));
    let d = t.duplicate();
    assert_eq!(d.id, 7);
    match d.kind {
        ActionKind::Other(s) => assert_eq!(s, "migrate"),
        _ => panic!("kind changed"),
    }
}
