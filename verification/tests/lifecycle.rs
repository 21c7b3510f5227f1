use std::cell::RefCell;
use std::path::PathBuf;
use ttai_lib::error::SidecarError;
use ttai_lib::process::{SpawnCommand, StdioMode};
use ttai_lib::sidecar::SidecarManager;

fn manager() -> SidecarManager<u32> {
    SidecarManager::new(PathBuf::from("../src-python"))
}

#[test]
fn new_manager_is_stopped() {
    let m = manager();
    assert!(!m.is_running());
    assert_eq!(m.get_base_url(), "http://localhost:8080");
}

#[test]
fn start_makes_it_running() {
    let mut m = manager();
    let started = m.start(|_: &SpawnCommand| Ok(41));
    assert!(started.is_ok());
    assert!(m.is_running());
}

#[test]
fn start_hands_out_the_fixed_command() {
    let mut m = manager();
    let seen: RefCell<Option<(String, Vec<String>, PathBuf, StdioMode, StdioMode, StdioMode)>> =
        RefCell::new(None);
    let started = m.start(|c: &SpawnCommand| {
        *seen.borrow_mut() = Some((
            c.program.clone(),
            c.args.clone(),
            c.working_dir.clone(),
            c.stdin,
            c.stdout,
            c.stderr,
        ));
        Ok(1)
    });
    assert!(started.is_ok());
    let (program, args, dir, stdin, stdout, stderr) = seen.into_inner().unwrap();
    assert_eq!(program, "uv");
    assert_eq!(
        args,
        vec!["run", "python", "-m", "src.server.main", "--transport", "sse", "--port", "8080"]
    );
    assert_eq!(dir, PathBuf::from("../src-python"));
    assert_eq!(stdin, StdioMode::Null);
    assert_eq!(stdout, StdioMode::Inherit);
    assert_eq!(stderr, StdioMode::Inherit);
}

#[test]
fn second_start_is_refused_and_spawns_nothing() {
    let mut m = manager();
    assert!(m.start(|_: &SpawnCommand| Ok(1)).is_ok());
    let spawned_again = RefCell::new(false);
    let second = m.start(|_: &SpawnCommand| {
        *spawned_again.borrow_mut() = true;
        Ok(2)
    });
    assert!(matches!(second, Err(SidecarError::AlreadyRunning)));
    assert_eq!(second.unwrap_err().message(), "Server already running");
    assert!(!*spawned_again.borrow());
    assert!(m.is_running());
    let stopped: RefCell<Vec<u32>> = RefCell::new(Vec::new());
    assert!(m.stop(|h: u32| stopped.borrow_mut().push(h)).is_ok());
    assert_eq!(*stopped.borrow(), vec![1]);
}

#[test]
fn second_start_is_refused_after_other_operations() {
    let mut m = manager();
    assert!(m.start(|_: &SpawnCommand| Ok(1)).is_ok());
    assert!(m.is_running());
    let _ = m.health_request();
    let _ = m.wait_for_ready();
    let second = m.start(|_: &SpawnCommand| Ok(2));
    assert!(matches!(second, Err(SidecarError::AlreadyRunning)));
}

#[test]
fn failed_spawn_leaves_it_stopped() {
    let mut m = manager();
    let started = m.start(|_: &SpawnCommand| Err("No such file or directory (os error 2)".to_string()));
    match started {
        Err(SidecarError::SpawnFailed(reason)) => {
            assert_eq!(reason, "No such file or directory (os error 2)")
        }
        other => panic!("unexpected: {:?}", other),
    }
    assert!(!m.is_running());
    let again = m.start(|_: &SpawnCommand| Ok(5));
    assert!(again.is_ok());
    assert!(m.is_running());
}

#[test]
fn stop_terminates_the_held_handle() {
    let mut m = manager();
    assert!(m.start(|_: &SpawnCommand| Ok(77)).is_ok());
    let stopped: RefCell<Vec<u32>> = RefCell::new(Vec::new());
    assert!(m.stop(|h: u32| stopped.borrow_mut().push(h)).is_ok());
    assert_eq!(*stopped.borrow(), vec![77]);
    assert!(!m.is_running());
}

#[test]
fn stop_twice_is_fine() {
    let mut m = manager();
    assert!(m.start(|_: &SpawnCommand| Ok(3)).is_ok());
    let stopped: RefCell<Vec<u32>> = RefCell::new(Vec::new());
    assert!(m.stop(|h: u32| stopped.borrow_mut().push(h)).is_ok());
    assert!(m.stop(|h: u32| stopped.borrow_mut().push(h)).is_ok());
    assert_eq!(*stopped.borrow(), vec![3]);
    assert!(!m.is_running());
}

#[test]
fn stop_without_process_does_nothing() {
    let mut m = manager();
    let called = RefCell::new(false);
    assert!(m.stop(|_: u32| *called.borrow_mut() = true).is_ok());
    assert!(!*called.borrow());
    assert!(!m.is_running());
}

#[test]
fn start_after_stop_succeeds() {
    let mut m = manager();
    assert!(m.start(|_: &SpawnCommand| Ok(1)).is_ok());
    assert!(m.stop(|_: u32| ()).is_ok());
    assert!(m.start(|_: &SpawnCommand| Ok(2)).is_ok());
    let stopped: RefCell<Vec<u32>> = RefCell::new(Vec::new());
    assert!(m.stop(|h: u32| stopped.borrow_mut().push(h)).is_ok());
    assert_eq!(*stopped.borrow(), vec![2]);
}

#[test]
fn reconnect_replaces_the_running_process() {
    let mut m = manager();
    assert!(m.start(|_: &SpawnCommand| Ok(10)).is_ok());
    let stopped: RefCell<Vec<u32>> = RefCell::new(Vec::new());
    let wait = m.reconnect(|h: u32| stopped.borrow_mut().push(h), |_: &SpawnCommand| Ok(11));
    let poll = wait.unwrap();
    assert_eq!(poll.failed_attempts(), 0);
    assert_eq!(*stopped.borrow(), vec![10]);
    assert!(m.is_running());
    assert!(m.stop(|h: u32| stopped.borrow_mut().push(h)).is_ok());
    assert_eq!(*stopped.borrow(), vec![10, 11]);
}

#[test]
fn reconnect_from_stopped_starts() {
    let mut m = manager();
    let called = RefCell::new(false);
    let wait = m.reconnect(|_: u32| *called.borrow_mut() = true, |_: &SpawnCommand| Ok(4));
    assert!(wait.is_ok());
    assert!(!*called.borrow());
    assert!(m.is_running());
}

#[test]
fn reconnect_with_failed_spawn_leaves_it_stopped() {
    let mut m = manager();
    assert!(m.start(|_: &SpawnCommand| Ok(10)).is_ok());
    let stopped: RefCell<Vec<u32>> = RefCell::new(Vec::new());
    let wait = m.reconnect(
        |h: u32| stopped.borrow_mut().push(h),
        |_: &SpawnCommand| Err("permission denied".to_string()),
    );
    let err = wait.unwrap_err();
    assert_eq!(err.message(), "Failed to spawn Python server: permission denied");
    assert_eq!(*stopped.borrow(), vec![10]);
    assert!(!m.is_running());
}

#[test]
fn shutdown_terminates_what_is_held() {
    let mut m = manager();
    assert!(m.start(|_: &SpawnCommand| Ok(9)).is_ok());
    let stopped: RefCell<Vec<u32>> = RefCell::new(Vec::new());
    m.shutdown(|h: u32| stopped.borrow_mut().push(h));
    assert_eq!(*stopped.borrow(), vec![9]);
}

#[test]
fn shutdown_of_stopped_manager_terminates_nothing() {
    let m = manager();
    let called = RefCell::new(false);
    m.shutdown(|_: u32| *called.borrow_mut() = true);
    assert!(!*called.borrow());
}
