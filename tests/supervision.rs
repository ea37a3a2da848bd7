use acp_client::{KiroAgent, ProcessSupervisor};

#[test]
fn test_server_manager_creation() {
    let manager = ProcessSupervisor::new("echo", vec!["test".to_string()]);
    assert!(!manager.is_running(false));
    assert!(!manager.is_running(true));
}

#[test]
fn ensure_running_twice_starts_once() {
    let mut s = ProcessSupervisor::new("kiro-cli", vec!["acp".to_string()]);
    let mut starts = 0;
    for _ in 0..2 {
        let alive = s.current.is_some();
        if s.needs_start(alive) {
            s.release();
            s.record_started();
            starts += 1;
        }
    }
    assert_eq!(starts, 1);
    assert!(s.health_check(true));
}

#[test]
fn restart_gives_a_new_live_process() {
    let mut s = ProcessSupervisor::for_agent(&KiroAgent::new());
    assert_eq!(s.command().args, vec!["acp"]);
    let first = s.record_started();
    assert_eq!(s.release(), Some(first));
    assert_eq!(s.release(), None);
    let second = s.record_started();
    assert_ne!(first, second);
    assert!(s.is_running(true));
    assert!(!s.is_running(false));
    assert_eq!(ProcessSupervisor::settle_delay().as_millis(), 500);
    assert_eq!(ProcessSupervisor::restart_pause().as_millis(), 100);
}
