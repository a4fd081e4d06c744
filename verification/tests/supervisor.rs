use iflow_supervisor::error::CommandError;
use iflow_supervisor::resolver::{Location, Probe, Script};
use iflow_supervisor::supervisor::{
    conclude, Action, Event, Outcome, Pending, ServiceStatus, ServiceSupervisor,
};

fn started(port: u16, child: u32) -> ServiceSupervisor {
    let mut supervisor = ServiceSupervisor::new();
    assert_eq!(supervisor.start_service(port), Action::Probe(Location::BesideExecutable));
    assert_eq!(
        supervisor.handle(Event::Probed(Probe::Exists)),
        Action::Spawn { location: Location::BesideExecutable, port }
    );
    assert_eq!(supervisor.handle(Event::Spawned(Some(child))), Action::Done(Outcome::Started));
    supervisor
}

#[test]
fn new_supervisor_tracks_nothing() {
    let supervisor = ServiceSupervisor::new();
    assert_eq!(supervisor.status(), ServiceStatus { running: false, port: 0 });
    assert_eq!(supervisor.pending(), Pending::Nothing);
}

#[test]
fn start_then_status_reports_running_on_port() {
    let supervisor = started(8000, 41);
    assert_eq!(supervisor.get_service_status(), ServiceStatus { running: true, port: 8000 });
    assert_eq!(supervisor.pending(), Pending::Nothing);
}

#[test]
fn second_start_terminates_first_process_and_tracks_second() {
    let mut supervisor = started(8000, 41);
    assert_eq!(supervisor.start_service(9000), Action::Terminate(41));
    assert_eq!(supervisor.status(), ServiceStatus { running: false, port: 8000 });
    assert_eq!(
        supervisor.handle(Event::Terminated(true)),
        Action::Probe(Location::BesideExecutable)
    );
    assert_eq!(
        supervisor.handle(Event::Probed(Probe::Exists)),
        Action::Spawn { location: Location::BesideExecutable, port: 9000 }
    );
    assert_eq!(supervisor.handle(Event::Spawned(Some(42))), Action::Done(Outcome::Started));
    assert_eq!(supervisor.status(), ServiceStatus { running: true, port: 9000 });
    assert_eq!(supervisor.stop_service(), Action::Terminate(42));
}

#[test]
fn start_goes_on_when_previous_process_cannot_be_terminated() {
    let mut supervisor = started(8000, 41);
    assert_eq!(supervisor.start_service(9000), Action::Terminate(41));
    assert_eq!(
        supervisor.handle(Event::Terminated(false)),
        Action::Probe(Location::BesideExecutable)
    );
    assert_eq!(
        supervisor.handle(Event::Probed(Probe::Exists)),
        Action::Spawn { location: Location::BesideExecutable, port: 9000 }
    );
    assert_eq!(supervisor.handle(Event::Spawned(Some(42))), Action::Done(Outcome::Started));
    assert_eq!(supervisor.status(), ServiceStatus { running: true, port: 9000 });
}

#[test]
fn stop_when_nothing_is_tracked_is_a_no_op() {
    let mut supervisor = ServiceSupervisor::new();
    assert_eq!(supervisor.stop_service(), Action::Done(Outcome::Stopped));
    assert_eq!(supervisor.status(), ServiceStatus { running: false, port: 0 });
    assert_eq!(supervisor.pending(), Pending::Nothing);
}

#[test]
fn stop_after_start_keeps_the_port() {
    let mut supervisor = started(8123, 5);
    assert_eq!(supervisor.stop_service(), Action::Terminate(5));
    assert_eq!(supervisor.handle(Event::Terminated(true)), Action::Done(Outcome::Stopped));
    assert_eq!(supervisor.status(), ServiceStatus { running: false, port: 8123 });
    assert_eq!(supervisor.stop_service(), Action::Done(Outcome::Stopped));
}

#[test]
fn failed_termination_on_stop_keeps_the_process_tracked() {
    let mut supervisor = started(8000, 5);
    assert_eq!(supervisor.stop_service(), Action::Terminate(5));
    assert_eq!(supervisor.handle(Event::Terminated(false)), Action::Done(Outcome::KillFailed));
    assert_eq!(supervisor.status(), ServiceStatus { running: true, port: 8000 });
    assert_eq!(supervisor.stop_service(), Action::Terminate(5));
}

#[test]
fn start_looks_in_working_directory_second() {
    let mut supervisor = ServiceSupervisor::new();
    assert_eq!(supervisor.start_service(8000), Action::Probe(Location::BesideExecutable));
    assert_eq!(
        supervisor.handle(Event::Probed(Probe::Missing)),
        Action::Probe(Location::WorkingDirectory)
    );
    assert_eq!(
        supervisor.handle(Event::Probed(Probe::Exists)),
        Action::Spawn { location: Location::WorkingDirectory, port: 8000 }
    );
    assert_eq!(supervisor.handle(Event::Spawned(Some(3))), Action::Done(Outcome::Started));
    assert_eq!(supervisor.status(), ServiceStatus { running: true, port: 8000 });
}

#[test]
fn start_without_script_is_not_found_and_leaves_nothing_tracked() {
    let mut supervisor = started(8000, 41);
    assert_eq!(supervisor.start_service(9000), Action::Terminate(41));
    assert_eq!(
        supervisor.handle(Event::Terminated(true)),
        Action::Probe(Location::BesideExecutable)
    );
    assert_eq!(
        supervisor.handle(Event::Probed(Probe::Missing)),
        Action::Probe(Location::WorkingDirectory)
    );
    assert_eq!(supervisor.handle(Event::Probed(Probe::Missing)), Action::Done(Outcome::NotFound));
    assert_eq!(supervisor.status(), ServiceStatus { running: false, port: 8000 });
    assert_eq!(supervisor.pending(), Pending::Nothing);
}

#[test]
fn failed_spawn_leaves_nothing_tracked() {
    let mut supervisor = started(8000, 41);
    assert_eq!(supervisor.start_service(9000), Action::Terminate(41));
    supervisor.handle(Event::Terminated(true));
    supervisor.handle(Event::Probed(Probe::Exists));
    assert_eq!(supervisor.handle(Event::Spawned(None)), Action::Done(Outcome::SpawnFailed));
    assert_eq!(supervisor.status(), ServiceStatus { running: false, port: 8000 });
}

#[test]
fn start_ends_when_a_directory_cannot_be_named() {
    let mut supervisor = ServiceSupervisor::new();
    supervisor.start_service(8000);
    assert_eq!(
        supervisor.handle(Event::Probed(Probe::NoDirectory)),
        Action::Done(Outcome::NoDirectory)
    );
    supervisor.start_service(8000);
    supervisor.handle(Event::Probed(Probe::Missing));
    assert_eq!(
        supervisor.handle(Event::Probed(Probe::LookupFailed)),
        Action::Done(Outcome::LookupFailed)
    );
    assert_eq!(supervisor.status(), ServiceStatus { running: false, port: 0 });
    assert_eq!(supervisor.pending(), Pending::Nothing);
}

#[test]
fn report_out_of_turn_changes_nothing() {
    let mut supervisor = started(8000, 41);
    assert_eq!(supervisor.handle(Event::Spawned(Some(9))), Action::Done(Outcome::OutOfTurn));
    assert_eq!(supervisor.handle(Event::Terminated(true)), Action::Done(Outcome::OutOfTurn));
    assert_eq!(supervisor.handle(Event::Probed(Probe::Exists)), Action::Done(Outcome::OutOfTurn));
    assert_eq!(supervisor.status(), ServiceStatus { running: true, port: 8000 });
    assert_eq!(supervisor.start_service(9000), Action::Terminate(41));
    assert_eq!(supervisor.handle(Event::StopRequested), Action::Done(Outcome::OutOfTurn));
    assert_eq!(supervisor.pending(), Pending::Replacing { port: 9000 });
}

#[test]
fn conclude_names_the_error_of_each_outcome() {
    let places = vec!["\"/opt/app/main.py\"".to_string(), "\"/home/u/main.py\"".to_string()];
    assert_eq!(conclude(Outcome::Started, "x".to_string(), places.clone()), Ok(()));
    assert_eq!(conclude(Outcome::Stopped, "x".to_string(), places.clone()), Ok(()));
    assert_eq!(
        conclude(Outcome::NotFound, "x".to_string(), places.clone()),
        Err(CommandError::NotFound { script: Script::Service, searched: places.clone() })
    );
    assert_eq!(
        conclude(Outcome::LookupFailed, "no cwd".to_string(), places.clone()),
        Err(CommandError::Io("no cwd".to_string()))
    );
    assert_eq!(
        conclude(Outcome::NoDirectory, "x".to_string(), places.clone()),
        Err(CommandError::ExeDirUnavailable)
    );
    assert_eq!(
        conclude(Outcome::SpawnFailed, "No such file".to_string(), places.clone()),
        Err(CommandError::SpawnFailed {
            script: Script::Service,
            detail: "No such file".to_string()
        })
    );
    assert_eq!(
        conclude(Outcome::KillFailed, "gone".to_string(), places.clone()),
        Err(CommandError::KillFailed("gone".to_string()))
    );
    assert_eq!(
        conclude(Outcome::OutOfTurn, "x".to_string(), places),
        Err(CommandError::OutOfTurn)
    );
}
