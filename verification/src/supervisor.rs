//! The supervisor of the single backend service process.
//!
//! The supervisor never touches a process itself. It is a state machine: the
//! caller hands it an [`Event`], the supervisor changes its state and answers
//! with the [`Action`] that the caller has to perform next, and the caller
//! reports the result of that action as the next event, until the answer is
//! [`Action::Done`].

use vstd::prelude::*;
use crate::error::{CommandError, ErrorView};
use crate::text::texts;
use crate::resolver::{
    begin_search, continue_search, first_location, search_result, search_step, Location, Probe,
    Script, Search,
};

verus! {

/// A snapshot of the supervisor: whether a process is tracked, and the port
/// that the last successful start was given.
#[derive(Clone, Copy, Debug, PartialEq, Eq, Structural)]
pub struct ServiceStatus {
    pub running: bool,
    pub port: u16,
}

/// What the caller tells the supervisor.
#[derive(Clone, Copy, Debug, PartialEq, Eq, Structural)]
pub enum Event {
    /// The service is to be started on this port.
    StartRequested(u16),
    /// The service is to be stopped.
    StopRequested,
    /// The process named by [`Action::Terminate`] was signalled; `true` where
    /// the operating system reported success.
    Terminated(bool),
    /// The location named by [`Action::Probe`] was examined.
    Probed(Probe),
    /// The command named by [`Action::Spawn`] was run: the identifier of the
    /// new process, or `None` where it could not be started.
    Spawned(Option<u32>),
}

/// How an operation ended.
#[derive(Clone, Copy, Debug, PartialEq, Eq, Structural)]
pub enum Outcome {
    /// The service was started and is tracked.
    Started,
    /// No process is tracked any more.
    Stopped,
    /// No location holds the service script.
    NotFound,
    /// A directory to search could not be named.
    LookupFailed,
    /// The executable's path has no parent directory.
    NoDirectory,
    /// The service process could not be started.
    SpawnFailed,
    /// The tracked process could not be terminated.
    KillFailed,
    /// The event answers no action that the supervisor is waiting for.
    OutOfTurn,
}

/// What the supervisor asks the caller to do.
#[derive(Clone, Copy, Debug, PartialEq, Eq, Structural)]
pub enum Action {
    /// Terminate the process with this identifier, then report
    /// [`Event::Terminated`].
    Terminate(u32),
    /// Look for the service script in this location, then report
    /// [`Event::Probed`].
    Probe(Location),
    /// Start the service for this port with the directory of this location
    /// as its working directory, then report [`Event::Spawned`].
    Spawn { location: Location, port: u16 },
    /// The operation is over.
    Done(Outcome),
}

/// The action whose report the supervisor is waiting for.
#[derive(Clone, Copy, Debug, PartialEq, Eq, Structural)]
pub enum Pending {
    /// No operation is under way.
    Nothing,
    /// A start waits for the previous process to be signalled.
    Replacing { port: u16 },
    /// A start waits for a location to be examined.
    Probing { port: u16, location: Location },
    /// A start waits for the new process.
    Spawning { port: u16 },
    /// A stop waits for the tracked process to be signalled.
    Stopping,
}

/// The supervisor as a mathematical value.
pub struct SupervisorState {
    /// The identifier of the tracked process, if there is one.
    pub child: Option<u32>,
    /// The port of the last successful start; 0 before the first.
    pub port: u16,
    /// The action under way.
    pub pending: Pending,
}

impl ServiceStatus {
    /// The snapshot of a service that runs on `port`.
    pub open spec fn running_on(port: u16) -> ServiceStatus {
        ServiceStatus { running: true, port }
    }

    /// The snapshot of a service that does not run and was last started on
    /// `port`.
    pub open spec fn stopped_on(port: u16) -> ServiceStatus {
        ServiceStatus { running: false, port }
    }
}

impl SupervisorState {
    /// The state in which `child` is tracked, or nothing, with `port` as
    /// the last port and no operation under way.
    pub open spec fn settled(child: Option<u32>, port: u16) -> SupervisorState {
        SupervisorState { child, port, pending: Pending::Nothing }
    }

    /// The state before anything was started.
    pub open spec fn initial() -> SupervisorState {
        SupervisorState { child: None, port: 0, pending: Pending::Nothing }
    }

    /// The snapshot that callers see.
    pub open spec fn status(self) -> ServiceStatus {
        ServiceStatus { running: self.child is Some, port: self.port }
    }

    /// No operation is under way.
    pub open spec fn idle(self) -> bool {
        self.pending == Pending::Nothing
    }

    /// The states that the transitions can reach from the initial one: while
    /// a start is under way no process is tracked, and a stop is under way
    /// only for a tracked process.
    pub open spec fn well_formed(self) -> bool {
        match self.pending {
            Pending::Nothing => true,
            Pending::Replacing { .. } => self.child is None,
            Pending::Probing { .. } => self.child is None,
            Pending::Spawning { .. } => self.child is None,
            Pending::Stopping => self.child is Some,
        }
    }

    /// A start that found the answer `search` to a probe.
    pub open spec fn after_probe(self, port: u16, search: Search) -> (SupervisorState, Action) {
        match search {
            Search::Look(next) => (
                SupervisorState { pending: Pending::Probing { port, location: next }, ..self },
                Action::Probe(next),
            ),
            Search::Use(location) => (
                SupervisorState { pending: Pending::Spawning { port }, ..self },
                Action::Spawn { location, port },
            ),
            Search::NotFound => (
                SupervisorState { pending: Pending::Nothing, ..self },
                Action::Done(Outcome::NotFound),
            ),
            Search::LookupFailed => (
                SupervisorState { pending: Pending::Nothing, ..self },
                Action::Done(Outcome::LookupFailed),
            ),
            Search::NoDirectory => (
                SupervisorState { pending: Pending::Nothing, ..self },
                Action::Done(Outcome::NoDirectory),
            ),
        }
    }

    /// The transition function: the state after `event`, and the action that
    /// the caller has to perform.
    ///
    /// A start first gives up the tracked process and has it terminated,
    /// whatever comes of that; then the script is searched, and the new
    /// process is tracked, with its port, once it runs. A stop forgets the
    /// tracked process only when its termination succeeded. An event that
    /// answers nothing the supervisor waits for changes nothing.
    pub open spec fn step(self, event: Event) -> (SupervisorState, Action) {
        match (self.pending, event) {
            (Pending::Nothing, Event::StartRequested(port)) => match self.child {
                Some(previous) => (
                    SupervisorState {
                        child: None,
                        port: self.port,
                        pending: Pending::Replacing { port },
                    },
                    Action::Terminate(previous),
                ),
                None => (
                    SupervisorState {
                        pending: Pending::Probing { port, location: first_location() },
                        ..self
                    },
                    Action::Probe(first_location()),
                ),
            },
            (Pending::Replacing { port }, Event::Terminated(_)) => (
                SupervisorState {
                    pending: Pending::Probing { port, location: first_location() },
                    ..self
                },
                Action::Probe(first_location()),
            ),
            (Pending::Probing { port, location }, Event::Probed(probe)) => self.after_probe(
                port,
                search_step(location, probe),
            ),
            (Pending::Spawning { port }, Event::Spawned(Some(child))) => (
                SupervisorState { child: Some(child), port, pending: Pending::Nothing },
                Action::Done(Outcome::Started),
            ),
            (Pending::Spawning { .. }, Event::Spawned(None)) => (
                SupervisorState { pending: Pending::Nothing, ..self },
                Action::Done(Outcome::SpawnFailed),
            ),
            (Pending::Nothing, Event::StopRequested) => match self.child {
                Some(child) => (
                    SupervisorState { pending: Pending::Stopping, ..self },
                    Action::Terminate(child),
                ),
                None => (self, Action::Done(Outcome::Stopped)),
            },
            (Pending::Stopping, Event::Terminated(true)) => (
                SupervisorState { child: None, port: self.port, pending: Pending::Nothing },
                Action::Done(Outcome::Stopped),
            ),
            (Pending::Stopping, Event::Terminated(false)) => (
                SupervisorState { pending: Pending::Nothing, ..self },
                Action::Done(Outcome::KillFailed),
            ),
            _ => (self, Action::Done(Outcome::OutOfTurn)),
        }
    }
}

/// The supervisor of the backend service: at most one tracked process, and
/// the port that the last successful start was given.
pub struct ServiceSupervisor {
    child: Option<u32>,
    port: u16,
    pending: Pending,
}

impl View for ServiceSupervisor {
    type V = SupervisorState;

    closed spec fn view(&self) -> SupervisorState {
        SupervisorState { child: self.child, port: self.port, pending: self.pending }
    }
}

impl ServiceSupervisor {
    /// A supervisor that tracks nothing.
    pub fn new() -> (supervisor: ServiceSupervisor)
        ensures
            supervisor@ == SupervisorState::initial(),
    {
        ServiceSupervisor { child: None, port: 0, pending: Pending::Nothing }
    }

    /// The current snapshot. The port is the one of the last successful
    /// start, also after the process was stopped.
    pub fn status(&self) -> (status: ServiceStatus)
        ensures
            status == self@.status(),
    {
        ServiceStatus { running: self.child.is_some(), port: self.port }
    }

    /// The action whose report the supervisor waits for.
    pub fn pending(&self) -> (pending: Pending)
        ensures
            pending == self@.pending,
    {
        self.pending
    }

    /// Asks for the service to be started on `port`: the first step of a
    /// start.
    pub fn start_service(&mut self, port: u16) -> (action: Action)
        ensures
            (final(self)@, action) == old(self)@.step(Event::StartRequested(port)),
    {
        self.handle(Event::StartRequested(port))
    }

    /// Asks for the service to be stopped: the first step of a stop.
    pub fn stop_service(&mut self) -> (action: Action)
        ensures
            (final(self)@, action) == old(self)@.step(Event::StopRequested),
    {
        self.handle(Event::StopRequested)
    }

    /// The current snapshot, as the status command reports it.
    pub fn get_service_status(&self) -> (status: ServiceStatus)
        ensures
            status == self@.status(),
    {
        self.status()
    }

    fn probed(&mut self, port: u16, search: Search) -> (action: Action)
        ensures
            (final(self)@, action) == old(self)@.after_probe(port, search),
    {
        match search {
            Search::Look(next) => {
                self.pending = Pending::Probing { port, location: next };
                Action::Probe(next)
            },
            Search::Use(location) => {
                self.pending = Pending::Spawning { port };
                Action::Spawn { location, port }
            },
            Search::NotFound => {
                self.pending = Pending::Nothing;
                Action::Done(Outcome::NotFound)
            },
            Search::LookupFailed => {
                self.pending = Pending::Nothing;
                Action::Done(Outcome::LookupFailed)
            },
            Search::NoDirectory => {
                self.pending = Pending::Nothing;
                Action::Done(Outcome::NoDirectory)
            },
        }
    }

    /// Takes one event, changes the state and answers with the next action.
    pub fn handle(&mut self, event: Event) -> (action: Action)
        ensures
            (final(self)@, action) == old(self)@.step(event),
    {
        match (self.pending, event) {
            (Pending::Nothing, Event::StartRequested(port)) => {
                let first = begin_search();
                match self.child {
                    Some(previous) => {
                        self.child = None;
                        self.pending = Pending::Replacing { port };
                        Action::Terminate(previous)
                    },
                    None => {
                        self.pending = Pending::Probing { port, location: first };
                        Action::Probe(first)
                    },
                }
            },
            (Pending::Replacing { port }, Event::Terminated(_)) => {
                let first = begin_search();
                self.pending = Pending::Probing { port, location: first };
                Action::Probe(first)
            },
            (Pending::Probing { port, location }, Event::Probed(probe)) => {
                let search = continue_search(location, probe);
                self.probed(port, search)
            },
            (Pending::Spawning { port }, Event::Spawned(Some(child))) => {
                self.child = Some(child);
                self.port = port;
                self.pending = Pending::Nothing;
                Action::Done(Outcome::Started)
            },
            (Pending::Spawning { .. }, Event::Spawned(None)) => {
                self.pending = Pending::Nothing;
                Action::Done(Outcome::SpawnFailed)
            },
            (Pending::Nothing, Event::StopRequested) => match self.child {
                Some(child) => {
                    self.pending = Pending::Stopping;
                    Action::Terminate(child)
                },
                None => Action::Done(Outcome::Stopped),
            },
            (Pending::Stopping, Event::Terminated(true)) => {
                self.child = None;
                self.pending = Pending::Nothing;
                Action::Done(Outcome::Stopped)
            },
            (Pending::Stopping, Event::Terminated(false)) => {
                self.pending = Pending::Nothing;
                Action::Done(Outcome::KillFailed)
            },
            _ => Action::Done(Outcome::OutOfTurn),
        }
    }
}

/// The error that an operation of the supervisor ended with, if it failed.
/// `detail` is what the operating system said of the failure, and `searched`
/// names the places that were examined for the service script.
pub open spec fn outcome_failure(outcome: Outcome, detail: Seq<char>, searched: Seq<Seq<char>>) -> Option<
    ErrorView,
> {
    match outcome {
        Outcome::Started => None,
        Outcome::Stopped => None,
        Outcome::NotFound => Some(ErrorView::NotFound { script: Script::Service, searched }),
        Outcome::LookupFailed => Some(ErrorView::Io(detail)),
        Outcome::NoDirectory => Some(ErrorView::ExeDirUnavailable),
        Outcome::SpawnFailed => Some(ErrorView::SpawnFailed { script: Script::Service, detail }),
        Outcome::KillFailed => Some(ErrorView::KillFailed(detail)),
        Outcome::OutOfTurn => Some(ErrorView::OutOfTurn),
    }
}

/// Turns the outcome of an operation into the result of the command.
pub fn conclude(outcome: Outcome, detail: String, searched: Vec<String>) -> (result: Result<
    (),
    CommandError,
>)
    ensures
        match result {
            Ok(_) => outcome_failure(outcome, detail@, texts(searched@)) is None,
            Err(error) => outcome_failure(outcome, detail@, texts(searched@)) == Some(error@),
        },
{
    match outcome {
        Outcome::Started => Ok(()),
        Outcome::Stopped => Ok(()),
        Outcome::NotFound => Err(CommandError::NotFound { script: Script::Service, searched }),
        Outcome::LookupFailed => Err(CommandError::Io(detail)),
        Outcome::NoDirectory => Err(CommandError::ExeDirUnavailable),
        Outcome::SpawnFailed => Err(CommandError::SpawnFailed { script: Script::Service, detail }),
        Outcome::KillFailed => Err(CommandError::KillFailed(detail)),
        Outcome::OutOfTurn => Err(CommandError::OutOfTurn),
    }
}

/// What the caller's surroundings answer during one operation: whether a
/// termination succeeds, what each location holds, and the process that a
/// spawn yields.
pub struct Answers {
    pub terminated: bool,
    pub beside_executable: Probe,
    pub working_directory: Probe,
    pub spawned: Option<u32>,
}

impl Answers {
    /// The report that follows `action`.
    pub open spec fn report(self, action: Action) -> Event {
        match action {
            Action::Terminate(_) => Event::Terminated(self.terminated),
            Action::Probe(Location::BesideExecutable) => Event::Probed(self.beside_executable),
            Action::Probe(Location::WorkingDirectory) => Event::Probed(self.working_directory),
            Action::Spawn { .. } => Event::Spawned(self.spawned),
            Action::Done(_) => Event::StopRequested,
        }
    }
}

impl SupervisorState {
    /// Feeds `event` to the supervisor and goes on reporting what `answers`
    /// holds for each action, for at most `rounds` further events. The
    /// result is the state reached and the outcome, if the operation ended.
    pub open spec fn run(self, event: Event, answers: Answers, rounds: nat) -> (
        SupervisorState,
        Option<Outcome>,
    )
        decreases rounds,
    {
        let (next, action) = self.step(event);
        match action {
            Action::Done(outcome) => (next, Some(outcome)),
            _ => if rounds == 0 {
                (next, None)
            } else {
                next.run(answers.report(action), answers, (rounds - 1) as nat)
            },
        }
    }

    /// A whole start on `port`: a termination, two probes and a spawn at
    /// most.
    pub open spec fn start(self, port: u16, answers: Answers) -> (SupervisorState, Option<Outcome>) {
        self.run(Event::StartRequested(port), answers, 4)
    }

    /// A whole stop: one termination at most.
    pub open spec fn stop(self, answers: Answers) -> (SupervisorState, Option<Outcome>) {
        self.run(Event::StopRequested, answers, 1)
    }
}

/// Every transition keeps the state well formed, and the state before
/// anything was started is well formed and idle.
pub proof fn lemma_step_keeps_well_formed(state: SupervisorState, event: Event)
    requires
        state.well_formed(),
    ensures
        state.step(event).0.well_formed(),
        SupervisorState::initial().well_formed(),
        SupervisorState::initial().idle(),
{
}

/// The port of the snapshot changes only when a start succeeds.
pub proof fn lemma_port_changes_only_on_success(state: SupervisorState, event: Event)
    ensures
        state.step(event).1 != Action::Done(Outcome::Started) ==> state.step(event).0.port
            == state.port,
{
}

/// A start from an idle state always ends, and leaves the supervisor idle.
/// It succeeds exactly when the search finds the script and the process can
/// be started. After a success the snapshot reports the new process as
/// running on the requested port. After a failure nothing is tracked, and
/// the port is the one of the last successful start.
pub proof fn lemma_start_outcome(state: SupervisorState, port: u16, answers: Answers)
    requires
        state.idle(),
    ensures
        (state.start(port, answers).1 is Some),
        state.start(port, answers).0.idle(),
        state.start(port, answers).1 == Some(Outcome::Started) <==> (search_result(
            answers.beside_executable,
            answers.working_directory,
        ) is Use && answers.spawned is Some),
        state.start(port, answers).1 == Some(Outcome::Started) ==> state.start(port, answers).0
            == SupervisorState::settled(answers.spawned, port),
        state.start(port, answers).1 == Some(Outcome::Started) ==> state.start(
            port,
            answers,
        ).0.status() == ServiceStatus::running_on(port),
        state.start(port, answers).1 != Some(Outcome::Started) ==> state.start(
            port,
            answers,
        ).0.status() == ServiceStatus::stopped_on(state.port),
        state.start(port, answers).1 != Some(Outcome::KillFailed),
        state.start(port, answers).1 != Some(Outcome::OutOfTurn),
{
    reveal_with_fuel(SupervisorState::run, 5);
}

/// A start while a process is tracked first has that process terminated,
/// and goes on whatever comes of the termination.
pub proof fn lemma_start_terminates_previous(
    state: SupervisorState,
    previous: u32,
    port: u16,
    answers: Answers,
    other: Answers,
)
    requires
        state.idle(),
        state.child == Some(previous),
        other == (Answers { terminated: !answers.terminated, ..answers }),
    ensures
        state.step(Event::StartRequested(port)).1 == Action::Terminate(previous),
        (state.step(Event::StartRequested(port)).0.child is None),
        state.start(port, answers) == state.start(port, other),
{
    reveal_with_fuel(SupervisorState::run, 5);
}

/// Two successful starts in a row leave exactly one tracked process, the
/// second one, bound to the second port; and the process of the first start
/// is the one that the second start has terminated.
pub proof fn lemma_restart_replaces_process(
    state: SupervisorState,
    first_port: u16,
    first: Answers,
    second_port: u16,
    second: Answers,
)
    requires
        state.idle(),
        state.start(first_port, first).1 == Some(Outcome::Started),
        state.start(first_port, first).0.start(second_port, second).1 == Some(Outcome::Started),
    ensures
        (first.spawned is Some),
        state.start(first_port, first).0.step(Event::StartRequested(second_port)).1
            == Action::Terminate(first.spawned->0),
        (second.spawned is Some),
        state.start(first_port, first).0.start(second_port, second).0
            == SupervisorState::settled(second.spawned, second_port),
        state.start(first_port, first).0.start(second_port, second).0.status()
            == ServiceStatus::running_on(second_port),
{
    lemma_start_outcome(state, first_port, first);
    lemma_start_outcome(state.start(first_port, first).0, second_port, second);
}

/// A stop while nothing is tracked succeeds and changes nothing.
pub proof fn lemma_stop_when_stopped(state: SupervisorState, answers: Answers)
    requires
        state.idle(),
        state.child is None,
    ensures
        state.stop(answers) == (state, Some(Outcome::Stopped)),
        state.step(Event::StopRequested) == (state, Action::Done(Outcome::Stopped)),
{
    reveal_with_fuel(SupervisorState::run, 2);
}

/// A stop of a tracked process has exactly that process terminated. Where
/// the termination succeeds, nothing is tracked afterwards and the snapshot
/// keeps the port. Where it fails, the stop reports the failure and the
/// process stays tracked.
pub proof fn lemma_stop_when_running(state: SupervisorState, child: u32, answers: Answers)
    requires
        state.idle(),
        state.child == Some(child),
    ensures
        state.step(Event::StopRequested).1 == Action::Terminate(child),
        answers.terminated ==> state.stop(answers) == (
            SupervisorState::settled(None, state.port),
            Some(Outcome::Stopped),
        ),
        answers.terminated ==> state.stop(answers).0.status() == ServiceStatus::stopped_on(
            state.port,
        ),
        !answers.terminated ==> state.stop(answers) == (state, Some(Outcome::KillFailed)),
{
    reveal_with_fuel(SupervisorState::run, 2);
}

/// After a successful start on a port and a successful stop, the snapshot
/// reports no running process and still that port.
pub proof fn lemma_stop_after_start_keeps_port(
    state: SupervisorState,
    port: u16,
    starting: Answers,
    stopping: Answers,
)
    requires
        state.idle(),
        state.start(port, starting).1 == Some(Outcome::Started),
        stopping.terminated,
    ensures
        state.start(port, starting).0.status() == ServiceStatus::running_on(port),
        state.start(port, starting).0.stop(stopping).1 == Some(Outcome::Stopped),
        state.start(port, starting).0.stop(stopping).0.status() == ServiceStatus::stopped_on(port),
{
    lemma_start_outcome(state, port, starting);
    let running = state.start(port, starting).0;
    lemma_stop_when_running(running, running.child->0, stopping);
}

} // verus!
