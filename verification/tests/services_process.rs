//! Tests of the process registry and of the start of a server.

use heisenberg::services::process::{
    join_with_spaces, ChildStatus, ProcessManager, ProcessStart, StartAction, StartEvent,
};
use heisenberg::timing::TimeSpan;
use heisenberg::HeisenbergError;

fn command(items: &[&str]) -> Vec<String> {
    items.iter().map(|item| item.to_string()).collect()
}

fn begin(manager: &ProcessManager, open_browser: bool) -> ProcessStart {
    let (start, action) = manager
        .start_process("admin", &command(&["npm", "run", "dev"]), "/work", "http://localhost:3000", open_browser)
        .unwrap();
    match action {
        StartAction::Spawn { program, arguments, working_dir } => {
            assert_eq!(program, "npm");
            assert_eq!(arguments, vec!["run", "dev"]);
            assert_eq!(working_dir, "/work");
        }
        other => panic!("expected a spawn, got {:?}", other),
    }
    start
}

#[test]
fn empty_command_fails_at_once() {
    let manager = ProcessManager::new();
    match manager.start_process("r", &Vec::new(), ".", "http://localhost:1", false) {
        Err(HeisenbergError::Process { message, hint }) => {
            assert_eq!(message, "Empty command provided");
            assert!(hint.contains("Specify a dev command"));
        }
        other => panic!("expected a process error, got {:?}", other),
    }
}

#[test]
fn command_of_one_item_has_no_arguments() {
    let manager = ProcessManager::new();
    let (_, action) = manager.start_process("r", &command(&["vite"]), ".", "http://x", false).unwrap();
    match action {
        StartAction::Spawn { program, arguments, .. } => {
            assert_eq!(program, "vite");
            assert!(arguments.is_empty());
        }
        other => panic!("expected a spawn, got {:?}", other),
    }
}

#[test]
fn start_runs_from_spawn_to_ready() {
    let mut manager = ProcessManager::new();
    let mut start = begin(&manager, false);
    assert_eq!(manager.tracked_child("admin"), None);

    match start.step(&mut manager, StartEvent::Spawned { child: 41, now: TimeSpan::from_secs(10) }) {
        StartAction::AwaitHealth { url, max_wait, displaced } => {
            assert_eq!(url, "http://localhost:3000");
            assert_eq!(max_wait, TimeSpan::from_secs(30));
            assert!(displaced.is_none());
        }
        other => panic!("expected a wait, got {:?}", other),
    }
    assert_eq!(manager.tracked_child("admin"), Some(41));

    match start.step(&mut manager, StartEvent::HealthResult(Ok(()))) {
        StartAction::Finish(Ok(())) => (),
        other => panic!("expected success, got {:?}", other),
    }
    assert_eq!(manager.tracked_child("admin"), Some(41));
    assert!(matches!(start.step(&mut manager, StartEvent::BrowserDone), StartAction::Continue));
}

#[test]
fn browser_is_opened_after_the_server_is_healthy() {
    let mut manager = ProcessManager::new();
    let mut start = begin(&manager, true);
    start.step(&mut manager, StartEvent::Spawned { child: 1, now: TimeSpan::from_secs(0) });
    match start.step(&mut manager, StartEvent::HealthResult(Ok(()))) {
        StartAction::OpenBrowser { url } => assert_eq!(url, "http://localhost:3000"),
        other => panic!("expected a browser, got {:?}", other),
    }
    assert!(matches!(start.step(&mut manager, StartEvent::BrowserDone), StartAction::Finish(Ok(()))));
}

#[test]
fn refused_command_is_a_process_error() {
    let mut manager = ProcessManager::new();
    let mut start = begin(&manager, false);
    match start.step(&mut manager, StartEvent::SpawnFailed("No such file or directory".to_string())) {
        StartAction::Finish(Err(HeisenbergError::Process { message, hint })) => {
            assert_eq!(message, "Failed to start process 'npm run dev': No such file or directory");
            assert!(hint.contains("Ensure the command exists"));
        }
        other => panic!("expected a process error, got {:?}", other),
    }
    assert_eq!(manager.tracked_child("admin"), None);
    assert!(matches!(
        start.step(&mut manager, StartEvent::Spawned { child: 5, now: TimeSpan::from_secs(0) }),
        StartAction::Continue
    ));
    assert_eq!(manager.tracked_child("admin"), None);
}

#[test]
fn slow_server_is_left_running() {
    let mut manager = ProcessManager::new();
    let mut start = begin(&manager, true);
    start.step(&mut manager, StartEvent::Spawned { child: 9, now: TimeSpan::from_secs(0) });
    let failure = HeisenbergError::health_check("Server did not become healthy within 30s", "wait");
    match start.step(&mut manager, StartEvent::HealthResult(Err(failure))) {
        StartAction::Finish(Err(HeisenbergError::HealthCheck { message, .. })) => {
            assert_eq!(message, "Server did not become healthy within 30s");
        }
        other => panic!("expected a health error, got {:?}", other),
    }
    assert_eq!(manager.tracked_child("admin"), Some(9));
}

#[test]
fn second_start_displaces_the_first_process() {
    let mut manager = ProcessManager::new();
    let mut first = begin(&manager, false);
    first.step(&mut manager, StartEvent::Spawned { child: 1, now: TimeSpan::from_secs(1) });
    let mut second = begin(&manager, false);
    match second.step(&mut manager, StartEvent::Spawned { child: 2, now: TimeSpan::from_secs(2) }) {
        StartAction::AwaitHealth { displaced, .. } => {
            let record = displaced.unwrap();
            assert_eq!(record.route_id, "admin");
            assert_eq!(record.child, 1);
            assert_eq!(record.started_at, TimeSpan::from_secs(1));
        }
        other => panic!("expected a wait, got {:?}", other),
    }
    assert_eq!(manager.tracked_child("admin"), Some(2));
    assert_eq!(manager.stop_all_processes().len(), 1);
}

#[test]
fn running_process_is_kept_and_exited_one_forgotten() {
    let mut manager = ProcessManager::new();
    assert!(manager.track("a", 1, TimeSpan::from_secs(0)).is_none());
    assert!(manager.track("b", 2, TimeSpan::from_secs(0)).is_none());

    assert!(manager.is_process_running("a", ChildStatus::Running));
    assert_eq!(manager.tracked_child("a"), Some(1));

    assert!(!manager.is_process_running("a", ChildStatus::Exited));
    assert_eq!(manager.tracked_child("a"), None);
    assert!(!manager.is_process_running("a", ChildStatus::Running));

    assert!(!manager.is_process_running("b", ChildStatus::Unknown));
    assert_eq!(manager.tracked_child("b"), None);

    assert!(!manager.is_process_running("never", ChildStatus::Running));
}

#[test]
fn stop_forgets_one_process_and_is_idempotent() {
    let mut manager = ProcessManager::new();
    manager.track("a", 1, TimeSpan::from_secs(3));
    manager.track("b", 2, TimeSpan::from_secs(4));
    let stopped = manager.stop_process("a").unwrap();
    assert_eq!(stopped.route_id, "a");
    assert_eq!(stopped.child, 1);
    assert_eq!(stopped.started_at, TimeSpan::from_secs(3));
    assert!(manager.stop_process("a").is_none());
    assert!(manager.stop_process("unknown").is_none());
    assert_eq!(manager.tracked_child("b"), Some(2));
}

#[test]
fn stop_all_empties_the_registry() {
    let mut manager = ProcessManager::new();
    manager.track("a", 1, TimeSpan::from_secs(0));
    manager.track("b", 2, TimeSpan::from_secs(0));
    manager.track("c", 3, TimeSpan::from_secs(0));
    manager.track("b", 4, TimeSpan::from_secs(1));
    let mut stopped: Vec<(String, u64)> = manager
        .stop_all_processes()
        .into_iter()
        .map(|record| (record.route_id, record.child))
        .collect();
    stopped.sort();
    assert_eq!(
        stopped,
        vec![("a".to_string(), 1), ("b".to_string(), 4), ("c".to_string(), 3)]
    );
    for id in ["a", "b", "c"] {
        assert_eq!(manager.tracked_child(id), None);
        assert!(!manager.is_process_running(id, ChildStatus::Running));
    }
    assert!(manager.stop_all_processes().is_empty());
    assert!(ProcessManager::default().stop_all_processes().is_empty());
}

#[test]
fn uptime_is_counted_from_the_start() {
    let mut manager = ProcessManager::new();
    manager.track("a", 1, TimeSpan::from_millis(2500));
    assert_eq!(manager.get_process_uptime("a", TimeSpan::from_secs(10)), Some(TimeSpan::from_millis(7500)));
    assert_eq!(manager.get_process_uptime("a", TimeSpan::from_secs(1)), Some(TimeSpan::from_secs(0)));
    assert_eq!(manager.get_process_uptime("b", TimeSpan::from_secs(10)), None);
}

#[test]
fn command_is_joined_with_spaces() {
    assert_eq!(join_with_spaces(&command(&[])), "");
    assert_eq!(join_with_spaces(&command(&["npm"])), "npm");
    assert_eq!(join_with_spaces(&command(&["npm", "run", "dev"])), "npm run dev");
    assert_eq!(join_with_spaces(&command(&["a", "", "b"])), "a  b");
}
