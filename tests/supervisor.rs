use std::cell::Cell;

use process_supervisor::supervisor::{
    LaunchConfig, ProcessSupervisor, StartOutcome, StopOutcome, SupervisorError,
};

fn config() -> LaunchConfig {
    LaunchConfig::new(
        "python".to_string(),
        vec!["main.py".to_string()],
        "../..".to_string(),
    )
}

fn fresh() -> ProcessSupervisor<u32> {
    ProcessSupervisor::new(config())
}

#[test]
fn new_supervisor_holds_no_handle_and_keeps_config() {
    let sup = fresh();
    assert!(!sup.is_running());
    assert_eq!(sup.config().command, "python");
    assert_eq!(sup.config().args, vec!["main.py".to_string()]);
    assert_eq!(sup.config().current_dir, "../..");
}

#[test]
fn start_hands_the_configuration_to_spawn() {
    let mut sup = fresh();
    let seen = Cell::new(false);
    let r = sup.start(|c: &LaunchConfig| {
        seen.set(c.command == "python" && c.args == vec!["main.py".to_string()] && c.current_dir == "../..");
        Ok(1)
    });
    assert_eq!(r, Ok(StartOutcome::Started));
    assert!(seen.get());
}

#[test]
fn start_twice_spawns_once() {
    let mut sup = fresh();
    let spawns = Cell::new(0u32);
    let first = sup.start(|_c: &LaunchConfig| {
        spawns.set(spawns.get() + 1);
        Ok(10)
    });
    let second = sup.start(|_c: &LaunchConfig| {
        spawns.set(spawns.get() + 1);
        Ok(11)
    });
    assert_eq!(first, Ok(StartOutcome::Started));
    assert_eq!(second, Ok(StartOutcome::AlreadyRunning));
    assert_eq!(spawns.get(), 1);
    assert!(sup.is_running());
    let killed = Cell::new(0u32);
    let r = sup.stop(|h: u32| {
        killed.set(h);
        Ok(())
    });
    assert_eq!(r, Ok(StopOutcome::Stopped));
    assert_eq!(killed.get(), 10);
}

#[test]
fn stop_without_handle_reports_not_running() {
    let mut sup = fresh();
    let calls = Cell::new(0u32);
    let r = sup.stop(|_h: u32| {
        calls.set(calls.get() + 1);
        Ok(())
    });
    assert_eq!(r, Ok(StopOutcome::NotRunning));
    assert_eq!(calls.get(), 0);
    assert!(!sup.is_running());
}

#[test]
fn many_starts_in_a_row_spawn_once() {
    let mut sup = fresh();
    let spawns = Cell::new(0u32);
    let mut started = 0u32;
    let mut already = 0u32;
    for i in 0..8u32 {
        let r = sup.start(|_c: &LaunchConfig| {
            spawns.set(spawns.get() + 1);
            Ok(100 + i)
        });
        match r {
            Ok(StartOutcome::Started) => started += 1,
            Ok(StartOutcome::AlreadyRunning) => already += 1,
            Err(e) => panic!("unexpected failure: {:?}", e),
        }
    }
    assert_eq!(spawns.get(), 1);
    assert_eq!(started, 1);
    assert_eq!(already, 7);
    let killed = Cell::new(0u32);
    let r = sup.stop(|h: u32| {
        killed.set(h);
        Ok(())
    });
    assert_eq!(r, Ok(StopOutcome::Stopped));
    assert_eq!(killed.get(), 100);
}

#[test]
fn failed_spawn_leaves_slot_empty() {
    let mut sup = fresh();
    let spawns = Cell::new(0u32);
    let r = sup.start(|_c: &LaunchConfig| {
        spawns.set(spawns.get() + 1);
        Err("No such file or directory (os error 2)".to_string())
    });
    assert_eq!(
        r,
        Err(SupervisorError::SpawnFailure(
            "No such file or directory (os error 2)".to_string()
        ))
    );
    assert!(!sup.is_running());
    let again = sup.start(|_c: &LaunchConfig| {
        spawns.set(spawns.get() + 1);
        Ok(5)
    });
    assert_eq!(again, Ok(StartOutcome::Started));
    assert_eq!(spawns.get(), 2);
}

#[test]
fn failed_stop_still_clears_slot() {
    let mut sup = fresh();
    assert_eq!(sup.start(|_c: &LaunchConfig| Ok(3)), Ok(StartOutcome::Started));
    let r = sup.stop(|_h: u32| Err("No such process (os error 3)".to_string()));
    assert_eq!(
        r,
        Err(SupervisorError::TerminationFailure(
            "No such process (os error 3)".to_string()
        ))
    );
    assert!(!sup.is_running());
    let spawns = Cell::new(0u32);
    let next = sup.start(|_c: &LaunchConfig| {
        spawns.set(spawns.get() + 1);
        Ok(4)
    });
    assert_eq!(next, Ok(StartOutcome::Started));
    assert_eq!(spawns.get(), 1);
}

#[test]
fn scenario_fresh_start_succeeds() {
    let mut sup = fresh();
    let r = sup.start(|_c: &LaunchConfig| Ok(42));
    assert_eq!(r, Ok(StartOutcome::Started));
    assert_eq!(r.unwrap().message(), "Server started successfully");
    assert!(sup.is_running());
}

#[test]
fn scenario_start_while_running() {
    let mut sup = fresh();
    sup.start(|_c: &LaunchConfig| Ok(42)).unwrap();
    let spawned_again = Cell::new(false);
    let r = sup.start(|_c: &LaunchConfig| {
        spawned_again.set(true);
        Ok(43)
    });
    assert_eq!(r.unwrap().message(), "Server already running");
    assert!(!spawned_again.get());
}

#[test]
fn scenario_stop_then_stop_again() {
    let mut sup = fresh();
    sup.start(|_c: &LaunchConfig| Ok(42)).unwrap();
    let first = sup.stop(|_h: u32| Ok(()));
    assert_eq!(first.unwrap().message(), "Server stopped successfully");
    assert!(!sup.is_running());
    let second = sup.stop(|_h: u32| Ok(()));
    assert_eq!(second.unwrap().message(), "Server not running");
}

#[test]
fn scenario_bad_command_then_good_command() {
    let mut sup = fresh();
    let bad = sup.start(|_c: &LaunchConfig| Err("program not found".to_string()));
    assert_eq!(
        bad.unwrap_err().message(),
        "Failed to start Python server: program not found"
    );
    let good = sup.start(|_c: &LaunchConfig| Ok(9));
    assert_eq!(good, Ok(StartOutcome::Started));
    assert!(sup.is_running());
}

#[test]
fn error_messages_carry_the_cause() {
    let spawn = SupervisorError::SpawnFailure("permission denied".to_string());
    assert_eq!(spawn.message(), "Failed to start Python server: permission denied");
    let term = SupervisorError::TerminationFailure("no such process".to_string());
    assert_eq!(term.message(), "Failed to stop server: no such process");
    let empty = SupervisorError::SpawnFailure(String::new());
    assert_eq!(empty.message(), "Failed to start Python server: ");
}

#[test]
fn outcome_messages() {
    assert_eq!(StartOutcome::Started.message(), "Server started successfully");
    assert_eq!(StartOutcome::AlreadyRunning.message(), "Server already running");
    assert_eq!(StopOutcome::Stopped.message(), "Server stopped successfully");
    assert_eq!(StopOutcome::NotRunning.message(), "Server not running");
}
