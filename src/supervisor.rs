//! The supervisor's state: at most one tracked child process, and the port
//! of the last successful start.
//!
//! Launching and killing processes is the caller's part. The supervisor
//! decides what to launch, hands out the handle that must be killed, and
//! records the outcome. Its operations take `&mut self`, so callers that
//! share it hold it behind one lock for a whole start or stop.

use vstd::prelude::*;
use crate::launch::{is_launch_command, resolve_command, BuildMode, LaunchCommand, TargetOs};
use crate::port::{allocate_port, is_backend_port};

verus! {

/// Why a command of the supervisor failed.
#[derive(Debug, PartialEq, Eq)]
pub enum BackendError {
    /// The backend could not be launched; the system's reason.
    Spawn(String),
    /// The tracked process could not be killed; the system's reason.
    Kill(String),
    /// No start has succeeded yet, so there is no port.
    NotStarted,
}

/// The text that reports an error to the controlling application.
pub open spec fn message_spec(e: BackendError) -> Seq<char> {
    match e {
        BackendError::Spawn(d) => "Failed to start backend: "@ + d@,
        BackendError::Kill(d) => "Failed to stop backend: "@ + d@,
        BackendError::NotStarted => "Backend not started"@,
    }
}

impl BackendError {
    /// The text that reports this error to the controlling application.
    pub fn message(&self) -> (r: String)
        ensures
            r@ == message_spec(*self),
    {
        match self {
            BackendError::Spawn(d) => {
                let mut m = String::from_str("Failed to start backend: ");
                m.append(d.as_str());
                m
            },
            BackendError::Kill(d) => {
                let mut m = String::from_str("Failed to stop backend: ");
                m.append(d.as_str());
                m
            },
            BackendError::NotStarted => String::from_str("Backend not started"),
        }
    }
}

/// What the supervisor holds: the tracked process handle, if any, and the
/// port of the last successful start (`0` until there was one).
pub struct SupervisorView<H> {
    pub process: Option<H>,
    pub port: u16,
}

/// The changes of state that the supervisor's operations make.
pub enum Transition<H> {
    /// A start begins: any tracked handle is handed out to be killed.
    BeginStart,
    /// The backend was launched on the port with the handle.
    Started(u16, H),
    /// The launch failed.
    StartFailed,
    /// The tracked handle, if any, is handed out to be killed.
    Release,
}

/// The state of a supervisor that has done nothing yet.
pub open spec fn initial<H>() -> SupervisorView<H> {
    SupervisorView { process: None, port: 0 }
}

/// The state after one transition.
pub open spec fn step<H>(s: SupervisorView<H>, t: Transition<H>) -> SupervisorView<H> {
    match t {
        Transition::BeginStart => SupervisorView { process: None, port: s.port },
        Transition::Started(p, h) => SupervisorView { process: Some(h), port: p },
        Transition::StartFailed => s,
        Transition::Release => SupervisorView { process: None, port: s.port },
    }
}

/// The state after a sequence of transitions.
pub open spec fn run<H>(s: SupervisorView<H>, ts: Seq<Transition<H>>) -> SupervisorView<H>
    decreases ts.len(),
{
    if ts.len() == 0 {
        s
    } else {
        step(run(s, ts.drop_last()), ts.last())
    }
}

/// No transition in `ts` is a successful start.
pub open spec fn no_success<H>(ts: Seq<Transition<H>>) -> bool {
    forall|i: int| 0 <= i < ts.len() ==> !(#[trigger] ts[i] is Started)
}

/// Every successful start in `ts` was on a backend port.
pub open spec fn starts_on_backend_ports<H>(ts: Seq<Transition<H>>) -> bool {
    forall|i: int|
        0 <= i < ts.len() && #[trigger] ts[i] is Started ==> is_backend_port(ts[i]->Started_0)
}

/// What a port query answers in state `s`.
pub open spec fn port_query<H>(s: SupervisorView<H>) -> Result<u16, BackendError> {
    if s.port == 0 {
        Err(BackendError::NotStarted)
    } else {
        Ok(s.port)
    }
}

/// The outcome of a stop: `kill` is the result of killing the handed-out
/// process, or `None` when there was none to kill.
pub open spec fn stop_result_spec(kill: Option<Result<(), String>>) -> Result<(), BackendError> {
    match kill {
        Some(Err(d)) => Err(BackendError::Kill(d)),
        _ => Ok(()),
    }
}

/// What the caller does to carry out a start.
pub struct StartPlan<H> {
    /// The port the backend is told to bind.
    pub port: u16,
    /// The command that launches the backend.
    pub command: LaunchCommand,
    /// The handle that was tracked before, to be killed before the launch.
    pub previous: Option<H>,
}

/// Owner of the one supervised child process.
pub struct Supervisor<H> {
    process: Option<H>,
    port: u16,
}

impl<H> View for Supervisor<H> {
    type V = SupervisorView<H>;

    closed spec fn view(&self) -> SupervisorView<H> {
        SupervisorView { process: self.process, port: self.port }
    }
}

impl<H> Supervisor<H> {
    /// The recorded port is unset or a backend port.
    #[verifier::type_invariant]
    spec fn inv(&self) -> bool {
        self.port == 0 || is_backend_port(self.port)
    }

    /// A supervisor with no process and no port.
    pub fn new() -> (r: Self)
        ensures
            r@ == initial::<H>(),
    {
        Supervisor { process: None, port: 0 }
    }

    /// Begins a start: picks a port, resolves the launch command, and hands
    /// out any tracked handle, which the caller kills before launching.
    pub fn begin_start(&mut self, mode: BuildMode, os: TargetOs) -> (plan: StartPlan<H>)
        ensures
            is_backend_port(plan.port),
            is_launch_command(plan.command, mode, os, plan.port),
            plan.previous == old(self)@.process,
            final(self)@ == step(old(self)@, Transition::BeginStart),
    {
        let port = allocate_port();
        let command = resolve_command(mode, os, port);
        let previous = self.take_process();
        StartPlan { port, command, previous }
    }

    /// Records the outcome of launching the backend on `port`. On success
    /// the handle is tracked and the port recorded; on failure nothing
    /// changes and the system's reason is returned.
    pub fn finish_start(&mut self, port: u16, spawned: Result<H, String>) -> (r: Result<u16, BackendError>)
        requires
            is_backend_port(port),
            old(self)@.process is None,
        ensures
            match spawned {
                Ok(h) => r == Ok::<u16, BackendError>(port) && final(self)@ == step(
                    old(self)@,
                    Transition::Started(port, h),
                ),
                Err(d) => r == Err::<u16, BackendError>(BackendError::Spawn(d)) && final(self)@
                    == step(old(self)@, Transition::StartFailed),
            },
    {
        match spawned {
            Ok(h) => {
                *self = Supervisor { process: Some(h), port };
                Ok(port)
            },
            Err(d) => Err(BackendError::Spawn(d)),
        }
    }

    /// Hands out the tracked handle, if any, for the caller to kill; no
    /// handle is tracked afterwards. The port is kept.
    pub fn take_process(&mut self) -> (r: Option<H>)
        ensures
            r == old(self)@.process,
            final(self)@ == step(old(self)@, Transition::Release),
    {
        proof {
            use_type_invariant(&*self);
        }
        let mut before = Supervisor { process: None, port: self.port };
        std::mem::swap(self, &mut before);
        let Supervisor { process, .. } = before;
        process
    }

    /// The port of the last successful start.
    pub fn get_backend_port(&self) -> (r: Result<u16, BackendError>)
        ensures
            r == port_query(self@),
            r matches Ok(p) ==> is_backend_port(p),
    {
        proof {
            use_type_invariant(self);
        }
        if self.port == 0 {
            Err(BackendError::NotStarted)
        } else {
            Ok(self.port)
        }
    }

    /// Whether a process handle is tracked.
    pub fn is_tracking(&self) -> (r: bool)
        ensures
            r == self@.process is Some,
    {
        self.process.is_some()
    }
}

/// The outcome of a stop, from the result of killing the handed-out process
/// (`None` when there was none). A failed kill is reported.
pub fn stop_result(kill: Option<Result<(), String>>) -> (r: Result<(), BackendError>)
    ensures
        r == stop_result_spec(kill),
{
    match kill {
        Some(Err(d)) => Err(BackendError::Kill(d)),
        _ => Ok(()),
    }
}

/// Starting on backend ports only, the recorded port is always either unset
/// or a backend port.
pub proof fn lemma_recorded_port_in_range<H>(ts: Seq<Transition<H>>)
    requires
        starts_on_backend_ports(ts),
    ensures
        run(initial::<H>(), ts).port == 0 || is_backend_port(run(initial::<H>(), ts).port),
    decreases ts.len(),
{
    if ts.len() > 0 {
        let prefix = ts.drop_last();
        assert forall|i: int| 0 <= i < prefix.len() && #[trigger] prefix[i] is Started implies is_backend_port(
            prefix[i]->Started_0,
        ) by {
            assert(prefix[i] == ts[i]);
        }
        lemma_recorded_port_in_range(prefix);
        assert(ts.last() == ts[ts.len() - 1]);
    }
}

/// Until a start has succeeded, a port query fails with `NotStarted`,
/// whatever else happened.
pub proof fn lemma_not_started_until_success<H>(ts: Seq<Transition<H>>)
    requires
        no_success(ts),
    ensures
        port_query(run(initial::<H>(), ts)) == Err::<u16, BackendError>(BackendError::NotStarted),
        run(initial::<H>(), ts).port == 0,
    decreases ts.len(),
{
    if ts.len() > 0 {
        let prefix = ts.drop_last();
        assert forall|i: int| 0 <= i < prefix.len() implies !(#[trigger] prefix[i] is Started) by {
            assert(prefix[i] == ts[i]);
        }
        lemma_not_started_until_success(prefix);
        assert(!(ts[ts.len() - 1] is Started));
    }
}

/// After a successful start on a backend port, a port query answers that
/// port, and keeps answering it through any stops, failed starts and begun
/// starts that follow.
pub proof fn lemma_port_after_success<H>(s: SupervisorView<H>, p: u16, h: H, later: Seq<Transition<H>>)
    requires
        is_backend_port(p),
        no_success(later),
    ensures
        port_query(run(step(s, Transition::Started(p, h)), later)) == Ok::<u16, BackendError>(p),
        run(step(s, Transition::Started(p, h)), later).port == p,
    decreases later.len(),
{
    if later.len() > 0 {
        let prefix = later.drop_last();
        assert forall|i: int| 0 <= i < prefix.len() implies !(#[trigger] prefix[i] is Started) by {
            assert(prefix[i] == later[i]);
        }
        lemma_port_after_success(s, p, h, prefix);
        assert(!(later[later.len() - 1] is Started));
    }
}

/// Stopping a supervisor that never started hands out no handle, changes
/// nothing, and succeeds.
pub proof fn lemma_stop_never_started<H>()
    ensures
        initial::<H>().process is None,
        step(initial::<H>(), Transition::Release) == initial::<H>(),
        stop_result_spec(None) == Ok::<(), BackendError>(()),
{
}

/// Of two starts run one after the other, the second hands out the handle
/// that the first tracked, and afterwards only the second's handle is
/// tracked: never are two handles held as the supervised process.
pub proof fn lemma_second_start_replaces_first<H>(
    s: SupervisorView<H>,
    p1: u16,
    h1: H,
    p2: u16,
    h2: H,
)
    ensures
        ({
            let first = step(step(s, Transition::BeginStart), Transition::Started(p1, h1));
            &&& first.process == Some(h1)
            &&& step(first, Transition::BeginStart).process is None
            &&& step(step(first, Transition::BeginStart), Transition::Started(p2, h2)).process
                == Some(h2)
        }),
{
}

/// After a successful start, releasing the process at shutdown hands out
/// that start's handle and leaves none tracked.
pub proof fn lemma_shutdown_after_start<H>(s: SupervisorView<H>, p: u16, h: H)
    ensures
        ({
            let started = step(step(s, Transition::BeginStart), Transition::Started(p, h));
            &&& started.process == Some(h)
            &&& step(started, Transition::Release).process is None
        }),
{
}

} // verus!
