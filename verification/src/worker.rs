//! Lifecycle of one listener epoch.
//!
//! A `ServerWorker` owns the live listener for exactly one epoch and walks the
//! state machine `Starting -> Running <-> Paused -> Stopping -> Stopped`.
//! Binding is the worker's externally visible effect: the model tracks whether
//! the configured addresses are claimed and how many accepted connections are
//! in flight. The listener itself runs outside the library, which is handed
//! each observable event (bound, bind failed, connection arrived, drain done)
//! and keeps the state exact.

use vstd::prelude::*;

verus! {

/// Where a worker stands in its epoch.
#[derive(Clone, Copy, Debug, PartialEq, Eq, Structural)]
pub enum WorkerState {
    Starting,
    Running,
    Paused,
    Stopping,
    Stopped,
}

/// A lifecycle command, delivered to the worker in the order issued.
/// `Stop(true)` drains in-flight work before releasing the socket;
/// `Stop(false)` releases it immediately.
#[derive(Clone, Copy, Debug, PartialEq, Eq, Structural)]
pub enum ControlCommand {
    Pause,
    Resume,
    Stop(bool),
}

/// Why binding the configured addresses failed.
#[derive(Clone, Copy, Debug, PartialEq, Eq, Structural)]
pub enum BindError {
    AddressInUse,
    PermissionDenied,
}

/// The worker as the contracts see it.
pub struct WorkerView {
    pub state: WorkerState,
    pub addrs: Seq<Seq<char>>,
    pub bound: bool,
    pub conns: nat,
    pub fault: Option<BindError>,
}

impl WorkerView {
    /// The socket addresses are claimed exactly while the worker is between a
    /// successful bind and the release of the socket, and connections exist
    /// only then.
    pub open spec fn wf(self) -> bool {
        &&& self.bound <==> (self.state is Running || self.state is Paused || self.state
            is Stopping)
        &&& !self.bound ==> self.conns == 0
    }

    /// A new connection is accepted exactly while the worker runs.
    pub open spec fn accepting(self) -> bool {
        self.state is Running
    }
}

/// A fresh worker: constructed, not yet bound.
pub open spec fn start_view(addrs: Seq<Seq<char>>) -> WorkerView {
    WorkerView {
        state: WorkerState::Starting,
        addrs: addrs,
        bound: false,
        conns: 0,
        fault: None,
    }
}

/// The bind succeeded: the addresses are claimed and accepting begins.
pub open spec fn bound_step(w: WorkerView) -> WorkerView {
    WorkerView { state: WorkerState::Running, bound: true, ..w }
}

/// The bind failed: the epoch is over before it began, and the error is
/// surfaced to the owner.
pub open spec fn bind_failed_step(w: WorkerView, e: BindError) -> WorkerView {
    WorkerView { state: WorkerState::Stopped, bound: false, conns: 0, fault: Some(e), ..w }
}

/// Pause keeps the socket and the in-flight connections, and stops accepting.
pub open spec fn pause_step(w: WorkerView) -> WorkerView {
    WorkerView { state: WorkerState::Paused, ..w }
}

/// Resume restores accepting.
pub open spec fn resume_step(w: WorkerView) -> WorkerView {
    WorkerView { state: WorkerState::Running, ..w }
}

/// Stop cancels accepting at once. A graceful stop with work in flight drains
/// first and keeps the socket until the drain is done; otherwise the socket is
/// released immediately and remaining connections are closed.
pub open spec fn stop_step(w: WorkerView, graceful: bool) -> WorkerView {
    if graceful && w.conns > 0 {
        WorkerView { state: WorkerState::Stopping, ..w }
    } else {
        WorkerView { state: WorkerState::Stopped, bound: false, conns: 0, ..w }
    }
}

/// The drain is over (completed or timed out): the socket is released and any
/// connection left is forcibly closed.
pub open spec fn drained_step(w: WorkerView) -> WorkerView {
    WorkerView { state: WorkerState::Stopped, bound: false, conns: 0, ..w }
}

/// An accepted connection.
pub open spec fn connect_step(w: WorkerView) -> WorkerView {
    WorkerView { conns: w.conns + 1, ..w }
}

/// A connection completed.
pub open spec fn finish_step(w: WorkerView) -> WorkerView {
    WorkerView { conns: (w.conns - 1) as nat, ..w }
}

/// A command applies only before the epoch is over: `Pause` and `Resume` need
/// a bound, live listener; `Stop` is reachable from `Starting`, `Running` and
/// `Paused`. Nothing applies to a `Stopped` worker.
pub open spec fn can_apply(w: WorkerView, cmd: ControlCommand) -> bool {
    match cmd {
        ControlCommand::Pause => w.state is Running || w.state is Paused,
        ControlCommand::Resume => w.state is Running || w.state is Paused,
        ControlCommand::Stop(_) => w.state is Starting || w.state is Running || w.state
            is Paused,
    }
}

/// What one command does to the worker.
pub open spec fn apply_step(w: WorkerView, cmd: ControlCommand) -> WorkerView {
    match cmd {
        ControlCommand::Pause => pause_step(w),
        ControlCommand::Resume => resume_step(w),
        ControlCommand::Stop(graceful) => stop_step(w, graceful),
    }
}

/// One listener epoch. The fields are the observable state of the live
/// listener; the listener's own multiplexing of requests stays outside.
pub struct ServerWorker {
    pub state: WorkerState,
    pub addrs: Vec<String>,
    pub bound: bool,
    pub conns: u64,
    pub fault: Option<BindError>,
}

impl View for ServerWorker {
    type V = WorkerView;

    open spec fn view(&self) -> WorkerView {
        WorkerView {
            state: self.state,
            addrs: self.addrs.deep_view(),
            bound: self.bound,
            conns: self.conns as nat,
            fault: self.fault,
        }
    }
}

impl ServerWorker {
    /// A worker for one epoch on the given addresses, not yet bound.
    pub fn new(addrs: Vec<String>) -> (w: ServerWorker)
        ensures
            w@ == start_view(addrs.deep_view()),
            w@.wf(),
    {
        ServerWorker {
            state: WorkerState::Starting,
            addrs: addrs,
            bound: false,
            conns: 0,
            fault: None,
        }
    }

    /// The listener reported a successful bind: the epoch runs.
    pub fn on_bound(&mut self)
        requires
            old(self)@.wf(),
            old(self)@.state is Starting,
        ensures
            final(self)@ == bound_step(old(self)@),
            final(self)@.wf(),
    {
        self.state = WorkerState::Running;
        self.bound = true;
    }

    /// The listener could not bind: the epoch is terminated and the error is
    /// kept for the owner to read.
    pub fn on_bind_failed(&mut self, e: BindError)
        requires
            old(self)@.wf(),
            old(self)@.state is Starting,
        ensures
            final(self)@ == bind_failed_step(old(self)@, e),
            final(self)@.wf(),
    {
        self.state = WorkerState::Stopped;
        self.fault = Some(e);
    }

    /// Stop accepting new connections; existing connections and the socket
    /// stay. Idempotent when already paused.
    pub fn pause(&mut self)
        requires
            old(self)@.wf(),
            old(self)@.state is Running || old(self)@.state is Paused,
        ensures
            final(self)@ == pause_step(old(self)@),
            final(self)@.wf(),
    {
        self.state = WorkerState::Paused;
    }

    /// Accept connections again. Idempotent when already running.
    pub fn resume(&mut self)
        requires
            old(self)@.wf(),
            old(self)@.state is Running || old(self)@.state is Paused,
        ensures
            final(self)@ == resume_step(old(self)@),
            final(self)@.wf(),
    {
        self.state = WorkerState::Running;
    }

    /// Stop the epoch. Accepting ends at once; a graceful stop with work in
    /// flight moves to `Stopping` and keeps the socket until the drain is
    /// done, anything else terminates and releases the socket immediately.
    pub fn stop(&mut self, graceful: bool)
        requires
            old(self)@.wf(),
            old(self)@.state is Starting || old(self)@.state is Running || old(self)@.state
                is Paused,
        ensures
            final(self)@ == stop_step(old(self)@, graceful),
            final(self)@.wf(),
    {
        if graceful && self.conns > 0 {
            self.state = WorkerState::Stopping;
        } else {
            self.state = WorkerState::Stopped;
            self.bound = false;
            self.conns = 0;
        }
    }

    /// The drain window closed: the epoch is terminated, the socket free.
    pub fn drain_complete(&mut self)
        requires
            old(self)@.wf(),
            old(self)@.state is Stopping,
        ensures
            final(self)@ == drained_step(old(self)@),
            final(self)@.wf(),
    {
        self.state = WorkerState::Stopped;
        self.bound = false;
        self.conns = 0;
    }

    /// A connection attempt arrived: it is accepted exactly while the worker
    /// runs, and a refused attempt changes nothing.
    pub fn try_connect(&mut self) -> (accepted: bool)
        requires
            old(self)@.wf(),
            old(self).conns < u64::MAX,
        ensures
            accepted == old(self)@.accepting(),
            accepted ==> final(self)@ == connect_step(old(self)@),
            !accepted ==> final(self)@ == old(self)@,
            final(self)@.wf(),
    {
        match self.state {
            WorkerState::Running => {
                self.conns = self.conns + 1;
                true
            },
            _ => false,
        }
    }

    /// An accepted connection completed and went away.
    pub fn finish_connection(&mut self)
        requires
            old(self)@.wf(),
            old(self)@.conns > 0,
        ensures
            final(self)@ == finish_step(old(self)@),
            final(self)@.wf(),
    {
        self.conns = self.conns - 1;
    }

    /// Apply one delivered command.
    pub fn apply(&mut self, cmd: ControlCommand)
        requires
            old(self)@.wf(),
            can_apply(old(self)@, cmd),
        ensures
            final(self)@ == apply_step(old(self)@, cmd),
            final(self)@.wf(),
    {
        match cmd {
            ControlCommand::Pause => self.pause(),
            ControlCommand::Resume => self.resume(),
            ControlCommand::Stop(graceful) => self.stop(graceful),
        }
    }
}

/// Starting a worker whose bind succeeded takes it from `Starting` to
/// `Running`, with the addresses claimed and the listener connectable: an
/// arriving connection attempt is accepted.
pub proof fn lemma_start_reaches_running(w: WorkerView)
    requires
        w.wf(),
        w.state is Starting,
    ensures
        bound_step(w).state is Running,
        bound_step(w).bound,
        bound_step(w).accepting(),
        bound_step(w).addrs == w.addrs,
        bound_step(w).wf(),
{
}

/// Pausing refuses new connections while the connections already accepted
/// stay servable; pausing twice is pausing once; resuming restores
/// acceptance, and resuming a running worker changes nothing.
pub proof fn lemma_pause_refuses_resume_restores(w: WorkerView)
    requires
        w.wf(),
        w.state is Running || w.state is Paused,
    ensures
        !pause_step(w).accepting(),
        pause_step(w).conns == w.conns,
        pause_step(w).bound == w.bound,
        pause_step(pause_step(w)) == pause_step(w),
        resume_step(pause_step(w)).accepting(),
        w.state is Running ==> resume_step(w) == w,
        pause_step(w).wf(),
        resume_step(pause_step(w)).wf(),
{
}

/// A stop, with its drain completed when one is needed, terminates the epoch:
/// the worker is `Stopped`, the socket is released, and no connection is
/// left.
pub proof fn lemma_stop_terminates(w: WorkerView, graceful: bool)
    requires
        w.wf(),
        w.state is Starting || w.state is Running || w.state is Paused,
    ensures
        ({
            let s = stop_step(w, graceful);
            let t = if s.state is Stopping {
                drained_step(s)
            } else {
                s
            };
            t.state is Stopped && !t.bound && t.conns == 0 && t.wf()
        }),
{
}

/// `Stopped` is terminal: no command applies to a stopped worker, so a new
/// epoch requires a new worker.
pub proof fn lemma_stopped_is_terminal(w: WorkerView, cmd: ControlCommand)
    requires
        w.state is Stopped,
    ensures
        !can_apply(w, cmd),
{
}

} // verus!
