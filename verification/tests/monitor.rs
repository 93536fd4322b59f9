use corerunner::monitor::{
    ExitMonitor, Liveness, MonitorAction, MonitorStatus, POLL_INTERVAL_SECS, READY_LABEL,
    STATUS_EVENT,
};
use corerunner::supervisor::Supervisor;

fn watched(name: &str, handle: u32) -> (Supervisor<u32>, ExitMonitor) {
    let mut registry = Supervisor::new();
    registry.register(name.to_string(), handle);
    (registry, ExitMonitor::new(name.to_string()))
}

fn announcements(action: &MonitorAction<u32>) -> usize {
    match action {
        MonitorAction::Notify { .. } => 1,
        _ => 0,
    }
}

#[test]
fn monitor_starts_watching() {
    let monitor = ExitMonitor::new("N1".to_string());
    assert_eq!(monitor.name(), "N1");
    assert_eq!(monitor.status(), MonitorStatus::Watching);
    assert!(!monitor.is_done());
}

#[test]
fn running_process_keeps_the_monitor_waiting() {
    let (mut registry, mut monitor) = watched("N1", 7);
    for _ in 0..5 {
        assert!(matches!(monitor.poll(&mut registry, Liveness::Running), MonitorAction::Wait));
        assert_eq!(monitor.status(), MonitorStatus::Watching);
        assert!(registry.contains("N1"));
    }
}

#[test]
fn exit_removes_the_entry_and_notifies_once() {
    let (mut registry, mut monitor) = watched("N1", 7);
    let mut fired = 0;
    assert!(matches!(monitor.poll(&mut registry, Liveness::Running), MonitorAction::Wait));
    match monitor.poll(&mut registry, Liveness::Exited) {
        MonitorAction::Notify { notification, released } => {
            fired += 1;
            assert_eq!(notification.name, "N1");
            assert_eq!(notification.label, "ready");
            assert_eq!(released, Some(7));
        }
        _ => panic!("no notification"),
    }
    assert!(!registry.contains("N1"));
    assert_eq!(monitor.status(), MonitorStatus::Notified);
    assert!(monitor.is_done());
    for seen in [Liveness::Running, Liveness::Exited, Liveness::Unknown] {
        let action = monitor.poll(&mut registry, seen);
        fired += announcements(&action);
        assert!(matches!(action, MonitorAction::Stop));
    }
    assert_eq!(fired, 1);
}

#[test]
fn kill_is_noticed_at_the_next_poll_and_notifies_once() {
    let (mut registry, mut monitor) = watched("N1", 7);
    assert_eq!(registry.kill("N1", "").terminate, Some(7));
    let mut fired = 0;
    match monitor.poll(&mut registry, Liveness::Running) {
        MonitorAction::Notify { notification, released } => {
            fired += 1;
            assert_eq!(notification.name, "N1");
            assert_eq!(notification.label, READY_LABEL);
            assert_eq!(released, None);
        }
        _ => panic!("no notification"),
    }
    assert_eq!(monitor.status(), MonitorStatus::Notified);
    fired += announcements(&monitor.poll(&mut registry, Liveness::Running));
    assert_eq!(fired, 1);
}

#[test]
fn failed_query_stops_without_removing_or_notifying() {
    let (mut registry, mut monitor) = watched("N1", 7);
    assert!(matches!(monitor.poll(&mut registry, Liveness::Unknown), MonitorAction::Stop));
    assert_eq!(monitor.status(), MonitorStatus::Degraded);
    assert!(monitor.is_done());
    assert!(registry.contains("N1"));
    assert!(matches!(monitor.poll(&mut registry, Liveness::Exited), MonitorAction::Stop));
    assert!(registry.contains("N1"));
    assert_eq!(registry.kill("N1", "").terminate, Some(7));
    assert!(matches!(monitor.poll(&mut registry, Liveness::Running), MonitorAction::Stop));
}

#[test]
fn monitor_of_one_name_leaves_other_entries_alone() {
    let (mut registry, mut monitor) = watched("N1", 7);
    registry.register("N2".to_string(), 8);
    match monitor.poll(&mut registry, Liveness::Exited) {
        MonitorAction::Notify { released, .. } => assert_eq!(released, Some(7)),
        _ => panic!("no notification"),
    }
    assert!(registry.contains("N2"));
    assert_eq!(registry.len(), 1);
}

#[test]
fn notification_channel_constants() {
    assert_eq!(STATUS_EVENT, "process-status");
    assert_eq!(READY_LABEL, "ready");
    assert!(POLL_INTERVAL_SECS >= 1 && POLL_INTERVAL_SECS <= 2);
}
