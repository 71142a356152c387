use vstd::prelude::*;
use crate::error::BackendError;
use crate::health::{after_response, answered_ok, finished, HealthCheck, POLL_INTERVAL_MS, PROBE_TIMEOUT_MS};
use crate::launch::{
    endpoint_url, launch_spec, health_url, server_args, server_env, shutdown_url, spaced,
    strings_view, pairs_view, LaunchSpec,
};
use crate::path::BackendPath;
use crate::resolver::BuildMode;

verus! {

/// How long the graceful shutdown request may take.
pub const SHUTDOWN_TIMEOUT_MS: u64 = 2000;

/// The pause between the graceful request and the forced termination.
pub const GRACE_PERIOD_MS: u64 = 2000;

/// The running backend process, identified by its process id.
#[derive(Clone, Copy, PartialEq, Eq, Structural, Debug)]
pub struct BackendHandle {
    pub pid: u32,
}

/// What a non-blocking look at the process found.
#[derive(Clone, Copy, PartialEq, Eq, Structural, Debug)]
pub enum Liveness {
    Alive,
    ExitedWithCode(i32),
    ExitedUnknown,
}

/// Where the supervisor is in its lifecycle.
#[derive(Clone, Copy, PartialEq, Eq, Structural, Debug)]
pub enum Stage {
    /// No process and nothing in flight.
    Idle,
    /// Waiting to hear whether the held process is still alive.
    CheckingLiveness,
    /// Waiting for the backend directory.
    Resolving,
    /// Waiting for the interpreter command.
    Locating,
    /// Waiting for the operating system to create the process.
    Spawning,
    /// Process created; polling its readiness.
    Starting,
    /// Process ready.
    Running,
    /// Graceful shutdown request in flight.
    ShuttingDown,
    /// Forced termination in flight.
    Terminating,
}

/// The next piece of outside work to perform, with what it needs.
#[derive(Debug)]
pub enum Action {
    /// Poll the process without blocking; report with `on_liveness`.
    CheckLiveness(BackendHandle),
    /// Find the backend directory for this build mode; report with `on_resolved`.
    Resolve(BuildMode),
    /// Find the interpreter command; report with `on_located`.
    LocateInterpreter,
    /// Start this process without waiting for it; report with `on_spawned`.
    Spawn(LaunchSpec),
    /// Pause, then request the URL once; report with `on_health`.
    PollHealth { wait_ms: u64, url: String, timeout_ms: u64 },
    /// Send the graceful shutdown request; report with `on_shutdown_attempted`.
    RequestShutdown { url: String, timeout_ms: u64 },
    /// Pause, then kill the process and wait for its exit; report with `on_terminated`.
    Terminate { grace_ms: u64, handle: BackendHandle },
    /// Another sequence is in flight; nothing was changed.
    Busy,
    /// The requested operation is over.
    Finish(Result<(), BackendError>),
}

/// The shape of an action, without its data.
#[derive(Clone, Copy, PartialEq, Eq, Structural, Debug)]
pub enum ActionKind {
    CheckLiveness,
    Resolve,
    LocateInterpreter,
    Spawn,
    PollHealth,
    RequestShutdown,
    Terminate,
    Busy,
    FinishOk,
    FinishErr,
}

pub open spec fn kind_of(a: Action) -> ActionKind {
    match a {
        Action::CheckLiveness(_) => ActionKind::CheckLiveness,
        Action::Resolve(_) => ActionKind::Resolve,
        Action::LocateInterpreter => ActionKind::LocateInterpreter,
        Action::Spawn(_) => ActionKind::Spawn,
        Action::PollHealth { .. } => ActionKind::PollHealth,
        Action::RequestShutdown { .. } => ActionKind::RequestShutdown,
        Action::Terminate { .. } => ActionKind::Terminate,
        Action::Busy => ActionKind::Busy,
        Action::Finish(Ok(_)) => ActionKind::FinishOk,
        Action::Finish(Err(_)) => ActionKind::FinishErr,
    }
}

/// The supervisor's state as the lifecycle rules see it.
pub struct ManagerView {
    pub stage: Stage,
    pub handle: Option<BackendHandle>,
    /// Progress of the readiness wait (polls made, last one succeeded).
    pub health: (nat, bool),
    /// The stop sequence in flight was caused by a failed readiness wait.
    pub timed_out: bool,
}

/// A stage in which no other request may begin.
pub open spec fn in_flight(s: Stage) -> bool {
    s != Stage::Idle && s != Stage::Running
}

/// A process handle is held exactly in the stages after a spawn and before
/// its termination.
pub open spec fn holds_handle(s: Stage) -> bool {
    s == Stage::CheckingLiveness || s == Stage::Starting || s == Stage::Running
        || s == Stage::ShuttingDown || s == Stage::Terminating
}

pub open spec fn consistent(v: ManagerView) -> bool {
    v.handle is Some <==> holds_handle(v.stage)
}

pub open spec fn ok_pid(spawned: Result<u32, String>) -> Option<u32> {
    match spawned {
        Ok(p) => Some(p),
        Err(_) => None,
    }
}

pub open spec fn with_stage(v: ManagerView, s: Stage) -> ManagerView {
    ManagerView { stage: s, ..v }
}

/// Starts the graceful stop of the held process.
pub open spec fn begin_stop(v: ManagerView, timed_out: bool) -> (ManagerView, ActionKind) {
    (ManagerView { stage: Stage::ShuttingDown, timed_out, ..v }, ActionKind::RequestShutdown)
}

pub open spec fn ensure_running_step(v: ManagerView) -> (ManagerView, ActionKind) {
    if in_flight(v.stage) {
        (v, ActionKind::Busy)
    } else if v.handle is Some {
        (with_stage(v, Stage::CheckingLiveness), ActionKind::CheckLiveness)
    } else {
        (with_stage(v, Stage::Resolving), ActionKind::Resolve)
    }
}

pub open spec fn liveness_step(v: ManagerView, l: Liveness) -> (ManagerView, ActionKind) {
    if l == Liveness::Alive {
        (with_stage(v, Stage::Running), ActionKind::FinishOk)
    } else {
        (ManagerView { stage: Stage::Resolving, handle: None, ..v }, ActionKind::Resolve)
    }
}

pub open spec fn start_step(v: ManagerView) -> (ManagerView, ActionKind) {
    if v.stage == Stage::Idle || v.stage == Stage::Resolving {
        (with_stage(v, Stage::Locating), ActionKind::LocateInterpreter)
    } else {
        (v, ActionKind::Busy)
    }
}

pub open spec fn resolved_step(v: ManagerView, found: bool) -> (ManagerView, ActionKind) {
    if found {
        start_step(v)
    } else {
        (with_stage(v, Stage::Idle), ActionKind::FinishErr)
    }
}

pub open spec fn located_step(v: ManagerView, found: bool) -> (ManagerView, ActionKind) {
    if found {
        (with_stage(v, Stage::Spawning), ActionKind::Spawn)
    } else {
        (with_stage(v, Stage::Idle), ActionKind::FinishErr)
    }
}

pub open spec fn spawned_step(v: ManagerView, pid: Option<u32>) -> (ManagerView, ActionKind) {
    match pid {
        Some(p) => (
            ManagerView {
                stage: Stage::Starting,
                handle: Some(BackendHandle { pid: p }),
                health: (0nat, false),
                ..v
            },
            ActionKind::PollHealth,
        ),
        None => (with_stage(v, Stage::Idle), ActionKind::FinishErr),
    }
}

pub open spec fn health_step(v: ManagerView, response: Option<u16>) -> (ManagerView, ActionKind) {
    let h = after_response(v.health, response);
    let w = ManagerView { health: h, ..v };
    if h.1 {
        (with_stage(w, Stage::Running), ActionKind::FinishOk)
    } else if finished(h) {
        begin_stop(w, true)
    } else {
        (w, ActionKind::PollHealth)
    }
}

pub open spec fn stop_step(v: ManagerView) -> (ManagerView, ActionKind) {
    if in_flight(v.stage) {
        (v, ActionKind::Busy)
    } else if v.handle is Some {
        begin_stop(v, false)
    } else {
        (with_stage(v, Stage::Idle), ActionKind::FinishOk)
    }
}

pub open spec fn shutdown_attempted_step(v: ManagerView, answered: bool) -> (ManagerView, ActionKind) {
    (with_stage(v, Stage::Terminating), ActionKind::Terminate)
}

pub open spec fn terminated_step(v: ManagerView) -> (ManagerView, ActionKind) {
    (
        ManagerView { stage: Stage::Idle, handle: None, timed_out: false, ..v },
        if v.timed_out { ActionKind::FinishErr } else { ActionKind::FinishOk },
    )
}

/// A successful start from nothing issues exactly one spawn and leaves the
/// backend running; asking again while the process is alive then only checks
/// its liveness and succeeds, leaving the state as it was.
pub proof fn lemma_ensure_running_idempotent(v: ManagerView, pid: u32, response: Option<u16>)
    requires
        consistent(v),
        v.stage == Stage::Idle,
        answered_ok(response),
    ensures
        ({
            let (v1, a1) = ensure_running_step(v);
            let (v2, a2) = resolved_step(v1, true);
            let (v3, a3) = located_step(v2, true);
            let (v4, a4) = spawned_step(v3, Some(pid));
            let (v5, a5) = health_step(v4, response);
            let (v6, a6) = ensure_running_step(v5);
            let (v7, a7) = liveness_step(v6, Liveness::Alive);
            &&& a1 == ActionKind::Resolve
            &&& a2 == ActionKind::LocateInterpreter
            &&& a3 == ActionKind::Spawn
            &&& a4 == ActionKind::PollHealth
            &&& a5 == ActionKind::FinishOk
            &&& v5.stage == Stage::Running
            &&& v5.handle == Some(BackendHandle { pid })
            &&& a6 == ActionKind::CheckLiveness
            &&& a7 == ActionKind::FinishOk
            &&& v7 == v5
        }),
{
}

/// While a start is in flight, a second request to run (or stop) the backend
/// changes nothing and spawns nothing; and a spawn is only ever asked for
/// when no process is held.
pub proof fn lemma_in_flight_requests_wait(v: ManagerView, found: bool)
    requires
        consistent(v),
    ensures
        in_flight(v.stage) ==> ensure_running_step(v) == (v, ActionKind::Busy),
        in_flight(v.stage) ==> stop_step(v) == (v, ActionKind::Busy),
        v.stage == Stage::Locating && located_step(v, found).1 == ActionKind::Spawn ==> v.handle is None,
{
}

/// Two callers asking for the backend while the first one's start is in
/// flight: the second is told to wait at every step, the start spawns one
/// process, and once it runs the second request succeeds without a spawn.
pub proof fn lemma_concurrent_requests_spawn_once(v: ManagerView, pid: u32, response: Option<u16>)
    requires
        consistent(v),
        v.stage == Stage::Idle,
        answered_ok(response),
    ensures
        ({
            let (v1, a1) = ensure_running_step(v);
            let (w1, b1) = ensure_running_step(v1);
            let (v2, a2) = resolved_step(w1, true);
            let (w2, b2) = ensure_running_step(v2);
            let (v3, a3) = located_step(w2, true);
            let (w3, b3) = ensure_running_step(v3);
            let (v4, a4) = spawned_step(w3, Some(pid));
            let (w4, b4) = ensure_running_step(v4);
            let (v5, a5) = health_step(w4, response);
            let (v6, a6) = ensure_running_step(v5);
            let (v7, a7) = liveness_step(v6, Liveness::Alive);
            &&& w1 == v1 && w2 == v2 && w3 == v3 && w4 == v4
            &&& b1 == ActionKind::Busy && b2 == ActionKind::Busy
            &&& b3 == ActionKind::Busy && b4 == ActionKind::Busy
            &&& a1 != ActionKind::Spawn && a2 != ActionKind::Spawn
            &&& a3 == ActionKind::Spawn
            &&& a4 != ActionKind::Spawn && a5 == ActionKind::FinishOk
            &&& a6 == ActionKind::CheckLiveness && a7 == ActionKind::FinishOk
            &&& v7 == v5 && v7.handle == Some(BackendHandle { pid })
        }),
{
}

/// Stopping ends with the process terminated and no handle held, whether the
/// graceful request was answered or not: a held process always goes through
/// the forced termination.
pub proof fn lemma_stop_leaves_no_process(v: ManagerView, answered: bool)
    requires
        consistent(v),
        !in_flight(v.stage),
    ensures
        ({
            let (v1, a1) = stop_step(v);
            let (v2, a2) = shutdown_attempted_step(v1, answered);
            let (v3, a3) = terminated_step(v2);
            &&& v.handle is None ==> a1 == ActionKind::FinishOk && v1.handle is None && v1.stage == Stage::Idle
            &&& v.handle is Some ==> {
                &&& a1 == ActionKind::RequestShutdown
                &&& a2 == ActionKind::Terminate
                &&& a3 == ActionKind::FinishOk
                &&& v3.handle is None
                &&& v3.stage == Stage::Idle
            }
        }),
{
}

/// A readiness wait whose last allowed poll fails stops the half-started
/// process through the same forced termination, and the start then ends
/// with an error and no process held.
pub proof fn lemma_timeout_cleans_up(v: ManagerView, response: Option<u16>, answered: bool)
    requires
        consistent(v),
        v.stage == Stage::Starting,
        v.health == (14nat, false),
        !answered_ok(response),
    ensures
        ({
            let (v1, a1) = health_step(v, response);
            let (v2, a2) = shutdown_attempted_step(v1, answered);
            let (v3, a3) = terminated_step(v2);
            &&& a1 == ActionKind::RequestShutdown
            &&& a2 == ActionKind::Terminate
            &&& a3 == ActionKind::FinishErr
            &&& v3.handle is None
            &&& v3.stage == Stage::Idle
        }),
{
}

/// The supervisor of the one backend process. It holds the handle and
/// decides every step; the caller performs each returned action under the
/// lock that guards this value, and reports the outcome.
pub struct BackendManager {
    port: u16,
    host: String,
    mode: BuildMode,
    stage: Stage,
    handle: Option<BackendHandle>,
    dir: Option<BackendPath>,
    command: String,
    health: HealthCheck,
    timed_out: bool,
}

impl View for BackendManager {
    type V = ManagerView;

    closed spec fn view(&self) -> ManagerView {
        ManagerView {
            stage: self.stage,
            handle: self.handle,
            health: self.health@,
            timed_out: self.timed_out,
        }
    }
}

impl BackendManager {
    pub closed spec fn wf(&self) -> bool {
        &&& consistent(self@)
        &&& (self.stage == Stage::Locating || self.stage == Stage::Spawning) ==> self.dir is Some
    }

    pub closed spec fn spec_port(&self) -> u16 {
        self.port
    }

    pub closed spec fn spec_host(&self) -> Seq<char> {
        self.host@
    }

    pub closed spec fn spec_mode(&self) -> BuildMode {
        self.mode
    }

    /// The directory chosen for the start in progress.
    pub closed spec fn spec_dir(&self) -> Seq<Seq<char>> {
        match self.dir {
            Some(d) => d@,
            None => seq![],
        }
    }

    /// The command line of the spawn in progress.
    pub closed spec fn spec_command(&self) -> Seq<char> {
        self.command@
    }

    /// A supervisor for a backend on `port`, bound to all interfaces, in a
    /// production build.
    pub fn new(port: u16) -> (r: BackendManager)
        ensures
            r.wf(),
            r@.stage == Stage::Idle,
            r@.handle is None,
            r@.health == (0nat, false),
            r@.timed_out == false,
            r.spec_port() == port,
            r.spec_host() == "0.0.0.0"@,
            r.spec_mode() == BuildMode::Production,
    {
        BackendManager {
            port,
            host: String::from_str("0.0.0.0"),
            mode: BuildMode::Production,
            stage: Stage::Idle,
            handle: None,
            dir: None,
            command: String::new(),
            health: HealthCheck::new(),
            timed_out: false,
        }
    }

    /// The same supervisor, telling the backend to bind to `host`.
    pub fn with_host(self, host: String) -> (r: BackendManager)
        requires
            self.wf(),
        ensures
            r.wf(),
            r@ == self@,
            r.spec_host() == host@,
            r.spec_port() == self.spec_port(),
            r.spec_mode() == self.spec_mode(),
    {
        BackendManager { host, ..self }
    }

    /// The same supervisor, for a build of the given kind.
    pub fn with_mode(self, mode: BuildMode) -> (r: BackendManager)
        requires
            self.wf(),
        ensures
            r.wf(),
            r@ == self@,
            r.spec_host() == self.spec_host(),
            r.spec_port() == self.spec_port(),
            r.spec_mode() == mode,
    {
        BackendManager { mode, ..self }
    }

    /// Port, host and build mode are unchanged.
    pub open spec fn same_setup(&self, other: &BackendManager) -> bool {
        &&& self.spec_port() == other.spec_port()
        &&& self.spec_host() == other.spec_host()
        &&& self.spec_mode() == other.spec_mode()
    }

    fn poll_action(&self) -> (r: Action)
        ensures
            r matches Action::PollHealth { wait_ms, url, timeout_ms } && wait_ms == POLL_INTERVAL_MS
                && url@ == endpoint_url(self.spec_port(), "/health"@) && timeout_ms == PROBE_TIMEOUT_MS,
    {
        Action::PollHealth { wait_ms: POLL_INTERVAL_MS, url: health_url(self.port), timeout_ms: PROBE_TIMEOUT_MS }
    }

    fn begin_stop(&mut self, timed_out: bool) -> (r: Action)
        ensures
            *final(self) == (BackendManager { stage: Stage::ShuttingDown, timed_out, ..*old(self) }),
            r matches Action::RequestShutdown { url, timeout_ms } && timeout_ms == SHUTDOWN_TIMEOUT_MS
                && url@ == endpoint_url(old(self).spec_port(), "/shutdown"@),
    {
        self.stage = Stage::ShuttingDown;
        self.timed_out = timed_out;
        Action::RequestShutdown { url: shutdown_url(self.port), timeout_ms: SHUTDOWN_TIMEOUT_MS }
    }

    /// Brings the backend up unless it is already running. With a process
    /// held, first asks whether it is alive; without one, asks for the
    /// backend directory. While another sequence is in flight nothing changes.
    pub fn ensure_running(&mut self) -> (r: Action)
        requires
            old(self).wf(),
        ensures
            final(self).wf(),
            final(self).same_setup(old(self)),
            (final(self)@, kind_of(r)) == ensure_running_step(old(self)@),
            r matches Action::CheckLiveness(h) ==> old(self)@.handle == Some(h),
            r matches Action::Resolve(m) ==> m == old(self).spec_mode(),
    {
        if self.stage != Stage::Idle && self.stage != Stage::Running {
            return Action::Busy;
        }
        match self.handle {
            Some(h) => {
                self.stage = Stage::CheckingLiveness;
                Action::CheckLiveness(h)
            },
            None => {
                self.stage = Stage::Resolving;
                Action::Resolve(self.mode)
            },
        }
    }

    /// A live process is kept and the request succeeds; an exited one is
    /// forgotten and a fresh start begins.
    pub fn on_liveness(&mut self, liveness: Liveness) -> (r: Action)
        requires
            old(self).wf(),
            old(self)@.stage == Stage::CheckingLiveness,
        ensures
            final(self).wf(),
            final(self).same_setup(old(self)),
            (final(self)@, kind_of(r)) == liveness_step(old(self)@, liveness),
            r matches Action::Resolve(m) ==> m == old(self).spec_mode(),
    {
        match liveness {
            Liveness::Alive => {
                self.stage = Stage::Running;
                Action::Finish(Ok(()))
            },
            _ => {
                self.handle = None;
                self.stage = Stage::Resolving;
                Action::Resolve(self.mode)
            },
        }
    }

    /// Begins a start from a known backend directory: the interpreter is
    /// looked for next.
    pub fn start(&mut self, backend_dir: BackendPath) -> (r: Action)
        requires
            old(self).wf(),
        ensures
            final(self).wf(),
            final(self).same_setup(old(self)),
            (final(self)@, kind_of(r)) == start_step(old(self)@),
            r is LocateInterpreter ==> final(self).spec_dir() == backend_dir@,
    {
        if self.stage != Stage::Idle && self.stage != Stage::Resolving {
            return Action::Busy;
        }
        self.dir = Some(backend_dir);
        self.stage = Stage::Locating;
        Action::LocateInterpreter
    }

    /// With a directory the start goes on; without one it ends with the
    /// resolver's error.
    pub fn on_resolved(&mut self, resolved: Result<BackendPath, BackendError>) -> (r: Action)
        requires
            old(self).wf(),
            old(self)@.stage == Stage::Resolving,
        ensures
            final(self).wf(),
            final(self).same_setup(old(self)),
            (final(self)@, kind_of(r)) == resolved_step(old(self)@, resolved is Ok),
            resolved matches Ok(d) ==> final(self).spec_dir() == d@,
            resolved matches Err(e) ==> r == Action::Finish(Err(e)),
    {
        match resolved {
            Ok(dir) => self.start(dir),
            Err(e) => {
                self.stage = Stage::Idle;
                Action::Finish(Err(e))
            },
        }
    }

    /// With an interpreter the process is spawned from the chosen directory;
    /// without one the start ends.
    pub fn on_located(&mut self, interpreter: Option<String>) -> (r: Action)
        requires
            old(self).wf(),
            old(self)@.stage == Stage::Locating,
        ensures
            final(self).wf(),
            final(self).same_setup(old(self)),
            (final(self)@, kind_of(r)) == located_step(old(self)@, interpreter is Some),
            interpreter is None ==> (r matches Action::Finish(Err(e)) && e is InterpreterNotFound),
            r matches Action::Spawn(s) ==> {
                &&& interpreter matches Some(c) && s.program@ == c@
                &&& strings_view(s.args@) == server_args(old(self).spec_host(), old(self).spec_port())
                &&& pairs_view(s.env@) == server_env(
                    old(self).spec_host(),
                    old(self).spec_port(),
                    old(self).spec_mode(),
                )
                &&& s.dir@ == old(self).spec_dir()
                &&& final(self).spec_command() == spaced(seq![s.program@] + strings_view(s.args@))
            },
    {
        match interpreter {
            Some(cmd) => {
                let spec = launch_spec(self.dir.as_ref().unwrap(), &cmd, &self.host, self.port, self.mode);
                self.command = spec.command_line();
                self.stage = Stage::Spawning;
                Action::Spawn(spec)
            },
            None => {
                self.stage = Stage::Idle;
                Action::Finish(Err(BackendError::InterpreterNotFound))
            },
        }
    }

    /// A created process is held and its readiness polled; a refused spawn
    /// ends the start with the command and the system's reason.
    pub fn on_spawned(&mut self, spawned: Result<u32, String>) -> (r: Action)
        requires
            old(self).wf(),
            old(self)@.stage == Stage::Spawning,
        ensures
            final(self).wf(),
            final(self).same_setup(old(self)),
            (final(self)@, kind_of(r)) == spawned_step(old(self)@, ok_pid(spawned)),
            spawned matches Err(cause) ==> (r matches Action::Finish(
                Err(BackendError::SpawnFailed { cause: c, command }),
            ) && c@ == cause@ && command@ == old(self).spec_command()),
            r matches Action::PollHealth { wait_ms, url, timeout_ms } ==> wait_ms == POLL_INTERVAL_MS
                && url@ == endpoint_url(old(self).spec_port(), "/health"@) && timeout_ms == PROBE_TIMEOUT_MS,
    {
        match spawned {
            Ok(pid) => {
                self.handle = Some(BackendHandle { pid });
                self.health = HealthCheck::new();
                self.stage = Stage::Starting;
                self.poll_action()
            },
            Err(cause) => {
                self.stage = Stage::Idle;
                Action::Finish(Err(BackendError::SpawnFailed { cause, command: self.command.clone() }))
            },
        }
    }

    /// A successful poll makes the backend running; after the last failed
    /// poll the half-started process is stopped, and the start will end with
    /// a timeout; otherwise another poll follows.
    pub fn on_health(&mut self, response: Option<u16>) -> (r: Action)
        requires
            old(self).wf(),
            old(self)@.stage == Stage::Starting,
        ensures
            final(self).wf(),
            final(self).same_setup(old(self)),
            (final(self)@, kind_of(r)) == health_step(old(self)@, response),
            r matches Action::PollHealth { wait_ms, url, timeout_ms } ==> wait_ms == POLL_INTERVAL_MS
                && url@ == endpoint_url(old(self).spec_port(), "/health"@) && timeout_ms == PROBE_TIMEOUT_MS,
            r matches Action::RequestShutdown { url, timeout_ms } ==> timeout_ms == SHUTDOWN_TIMEOUT_MS
                && url@ == endpoint_url(old(self).spec_port(), "/shutdown"@),
    {
        self.health.record(response);
        if self.health.is_ready() {
            self.stage = Stage::Running;
            Action::Finish(Ok(()))
        } else if self.health.is_finished() {
            self.begin_stop(true)
        } else {
            self.poll_action()
        }
    }

    /// Stops the held process: a graceful request first, then a forced
    /// termination whatever came of it. Without a process nothing is to do.
    pub fn stop(&mut self) -> (r: Action)
        requires
            old(self).wf(),
        ensures
            final(self).wf(),
            final(self).same_setup(old(self)),
            (final(self)@, kind_of(r)) == stop_step(old(self)@),
            r matches Action::RequestShutdown { url, timeout_ms } ==> timeout_ms == SHUTDOWN_TIMEOUT_MS
                && url@ == endpoint_url(old(self).spec_port(), "/shutdown"@),
    {
        if self.stage != Stage::Idle && self.stage != Stage::Running {
            return Action::Busy;
        }
        if self.handle.is_some() {
            self.begin_stop(false)
        } else {
            self.stage = Stage::Idle;
            Action::Finish(Ok(()))
        }
    }

    /// Whatever became of the graceful request, the process is terminated
    /// after the grace period.
    pub fn on_shutdown_attempted(&mut self, answered: bool) -> (r: Action)
        requires
            old(self).wf(),
            old(self)@.stage == Stage::ShuttingDown,
        ensures
            final(self).wf(),
            final(self).same_setup(old(self)),
            (final(self)@, kind_of(r)) == shutdown_attempted_step(old(self)@, answered),
            r matches Action::Terminate { grace_ms, handle } ==> grace_ms == GRACE_PERIOD_MS
                && old(self)@.handle == Some(handle),
    {
        let handle = self.handle.unwrap();
        self.stage = Stage::Terminating;
        Action::Terminate { grace_ms: GRACE_PERIOD_MS, handle }
    }

    /// The process has exited: the handle is dropped, and the operation that
    /// led here ends, with a timeout if a failed readiness wait caused it.
    pub fn on_terminated(&mut self) -> (r: Action)
        requires
            old(self).wf(),
            old(self)@.stage == Stage::Terminating,
        ensures
            final(self).wf(),
            final(self).same_setup(old(self)),
            (final(self)@, kind_of(r)) == terminated_step(old(self)@),
            r matches Action::Finish(Err(e)) ==> e is HealthTimeout,
    {
        self.handle = None;
        self.stage = Stage::Idle;
        if self.timed_out {
            self.timed_out = false;
            Action::Finish(Err(BackendError::HealthTimeout))
        } else {
            Action::Finish(Ok(()))
        }
    }

    pub fn port(&self) -> (r: u16)
        ensures
            r == self.spec_port(),
    {
        self.port
    }

    pub fn mode(&self) -> (r: BuildMode)
        ensures
            r == self.spec_mode(),
    {
        self.mode
    }

    pub fn stage(&self) -> (r: Stage)
        ensures
            r == self@.stage,
    {
        self.stage
    }

    pub fn handle(&self) -> (r: Option<BackendHandle>)
        ensures
            r == self@.handle,
    {
        self.handle
    }
}

} // verus!
