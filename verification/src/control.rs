//! The control plane: epoch sequencing and the operator menu.
//!
//! The plane owns at most one worker, the current epoch's. It builds the
//! epoch's configuration and TLS identity, starts the worker, and then
//! translates each operator selection into a worker command, synchronously:
//! no command is issued before the previous one's effect is confirmed. On
//! reload the old worker is stopped and its termination acknowledged before a
//! new epoch may begin, so an address is never bound by two epochs at once.

use vstd::prelude::*;

use crate::worker::{
    apply_step, bind_failed_step, bound_step, can_apply, drained_step, pause_step, resume_step,
    start_view, stop_step, BindError, ControlCommand, ServerWorker, WorkerView,
};

verus! {

/// What the operator picked from the menu.
#[derive(Clone, Copy, Debug, PartialEq, Eq, Structural)]
pub enum Selection {
    Pause,
    Resume,
    Reload,
    Quit,
}

/// What the control plane does next.
#[derive(Clone, Copy, Debug, PartialEq, Eq, Structural)]
pub enum Action {
    ShowMenu,
    SendPause,
    SendResume,
    StopForReload,
    StopForQuit,
}

/// The menu's order: pause, resume, reload, quit.
pub open spec fn selection_at(i: int) -> Option<Selection> {
    if i == 0 {
        Some(Selection::Pause)
    } else if i == 1 {
        Some(Selection::Resume)
    } else if i == 2 {
        Some(Selection::Reload)
    } else if i == 3 {
        Some(Selection::Quit)
    } else {
        None
    }
}

/// The selection behind a menu index, in the menu's order.
pub fn selection_of_index(i: usize) -> (s: Option<Selection>)
    ensures
        s == selection_at(i as int),
{
    if i == 0 {
        Some(Selection::Pause)
    } else if i == 1 {
        Some(Selection::Resume)
    } else if i == 2 {
        Some(Selection::Reload)
    } else if i == 3 {
        Some(Selection::Quit)
    } else {
        None
    }
}

/// What each selection asks for. No selection (an interrupted prompt) is a
/// no-op that re-displays the menu, never an implicit quit.
pub open spec fn action_for(sel: Option<Selection>) -> Action {
    match sel {
        None => Action::ShowMenu,
        Some(Selection::Pause) => Action::SendPause,
        Some(Selection::Resume) => Action::SendResume,
        Some(Selection::Reload) => Action::StopForReload,
        Some(Selection::Quit) => Action::StopForQuit,
    }
}

/// Translate an operator selection into the next action.
pub fn decide(sel: Option<Selection>) -> (a: Action)
    ensures
        a == action_for(sel),
{
    match sel {
        None => Action::ShowMenu,
        Some(Selection::Pause) => Action::SendPause,
        Some(Selection::Resume) => Action::SendResume,
        Some(Selection::Reload) => Action::StopForReload,
        Some(Selection::Quit) => Action::StopForQuit,
    }
}

/// The worker command behind an action. Reload and quit both stop the epoch
/// gracefully; they differ in what the plane does once the stop is
/// acknowledged. Re-displaying the menu sends nothing.
pub open spec fn command_for(a: Action) -> Option<ControlCommand> {
    match a {
        Action::ShowMenu => None,
        Action::SendPause => Some(ControlCommand::Pause),
        Action::SendResume => Some(ControlCommand::Resume),
        Action::StopForReload => Some(ControlCommand::Stop(true)),
        Action::StopForQuit => Some(ControlCommand::Stop(true)),
    }
}

pub fn command_of(a: Action) -> (c: Option<ControlCommand>)
    ensures
        c == command_for(a),
{
    match a {
        Action::ShowMenu => None,
        Action::SendPause => Some(ControlCommand::Pause),
        Action::SendResume => Some(ControlCommand::Resume),
        Action::StopForReload => Some(ControlCommand::Stop(true)),
        Action::StopForQuit => Some(ControlCommand::Stop(true)),
    }
}

/// The menu label of a selection.
pub fn selection_label(s: Selection) -> (r: &'static str)
    ensures
        s is Pause ==> r@ == "Pause"@,
        s is Resume ==> r@ == "Resume"@,
        s is Reload ==> r@ == "Reload"@,
        s is Quit ==> r@ == "Quit"@,
{
    match s {
        Selection::Pause => "Pause",
        Selection::Resume => "Resume",
        Selection::Reload => "Reload",
        Selection::Quit => "Quit",
    }
}

/// The control plane as the contracts see it.
pub struct PlaneView {
    pub epoch: nat,
    pub worker: Option<WorkerView>,
}

impl PlaneView {
    pub open spec fn wf(self) -> bool {
        self.worker matches Some(w) ==> w.wf()
    }

    /// The current epoch's worker exists and has not terminated.
    pub open spec fn live(self) -> bool {
        self.worker matches Some(w) && !(w.state is Stopped)
    }

    /// Some listener still holds its addresses.
    pub open spec fn bound_somewhere(self) -> bool {
        self.worker matches Some(w) && w.bound
    }

    /// A new epoch may begin: there is no worker, or the previous one has
    /// acknowledged termination.
    pub open spec fn may_begin(self) -> bool {
        !self.live()
    }
}

/// The supervising loop's state: the epoch counter and the current epoch's
/// worker, if one exists. Epochs are counted from the first `begin_epoch`.
pub struct ControlPlane {
    pub epoch: u64,
    pub worker: Option<ServerWorker>,
}

impl View for ControlPlane {
    type V = PlaneView;

    open spec fn view(&self) -> PlaneView {
        PlaneView {
            epoch: self.epoch as nat,
            worker: match self.worker {
                Some(w) => Some(w@),
                None => None,
            },
        }
    }
}

impl ControlPlane {
    /// A fresh plane: no epoch has begun.
    pub fn new() -> (cp: ControlPlane)
        ensures
            cp@.epoch == 0,
            cp@.worker is None,
            cp@.wf(),
    {
        ControlPlane { epoch: 0, worker: None }
    }

    /// Begin the next epoch on the given addresses: only once the previous
    /// epoch's worker, if any, has acknowledged termination. The new worker
    /// starts unbound.
    pub fn begin_epoch(&mut self, addrs: Vec<String>)
        requires
            old(self)@.wf(),
            old(self)@.may_begin(),
            old(self).epoch < u64::MAX,
        ensures
            final(self)@.epoch == old(self)@.epoch + 1,
            final(self)@.worker == Some(start_view(addrs.deep_view())),
            final(self)@.wf(),
    {
        self.epoch = self.epoch + 1;
        self.worker = Some(ServerWorker::new(addrs));
    }

    /// The new epoch's listener reported a successful bind.
    pub fn confirm_bound(&mut self)
        requires
            old(self)@.wf(),
            old(self)@.worker matches Some(w) && w.state is Starting,
        ensures
            final(self)@.epoch == old(self)@.epoch,
            final(self)@.worker == Some(bound_step(old(self)@.worker->0)),
            final(self)@.wf(),
    {
        match &mut self.worker {
            Some(w) => w.on_bound(),
            None => proof {
                assert(false);
            },
        }
    }

    /// The new epoch's listener could not bind; the epoch is over and the
    /// error is surfaced on the worker.
    pub fn bind_failed(&mut self, e: BindError)
        requires
            old(self)@.wf(),
            old(self)@.worker matches Some(w) && w.state is Starting,
        ensures
            final(self)@.epoch == old(self)@.epoch,
            final(self)@.worker == Some(bind_failed_step(old(self)@.worker->0, e)),
            final(self)@.may_begin(),
            final(self)@.wf(),
    {
        match &mut self.worker {
            Some(w) => w.on_bind_failed(e),
            None => proof {
                assert(false);
            },
        }
    }

    /// Pause the current epoch's listener.
    pub fn pause(&mut self)
        requires
            old(self)@.wf(),
            old(self)@.worker matches Some(w) && (w.state is Running || w.state is Paused),
        ensures
            final(self)@.epoch == old(self)@.epoch,
            final(self)@.worker == Some(pause_step(old(self)@.worker->0)),
            final(self)@.wf(),
    {
        match &mut self.worker {
            Some(w) => w.pause(),
            None => proof {
                assert(false);
            },
        }
    }

    /// Resume the current epoch's listener.
    pub fn resume(&mut self)
        requires
            old(self)@.wf(),
            old(self)@.worker matches Some(w) && (w.state is Running || w.state is Paused),
        ensures
            final(self)@.epoch == old(self)@.epoch,
            final(self)@.worker == Some(resume_step(old(self)@.worker->0)),
            final(self)@.wf(),
    {
        match &mut self.worker {
            Some(w) => w.resume(),
            None => proof {
                assert(false);
            },
        }
    }

    /// Stop the current epoch's listener, for a reload or for quit.
    pub fn begin_stop(&mut self, graceful: bool)
        requires
            old(self)@.wf(),
            old(self)@.worker matches Some(w) && (w.state is Starting || w.state is Running
                || w.state is Paused),
        ensures
            final(self)@.epoch == old(self)@.epoch,
            final(self)@.worker == Some(stop_step(old(self)@.worker->0, graceful)),
            final(self)@.wf(),
    {
        match &mut self.worker {
            Some(w) => w.stop(graceful),
            None => proof {
                assert(false);
            },
        }
    }

    /// The stopping worker acknowledged termination: its drain is over and
    /// its addresses are free, so a new epoch may begin.
    pub fn ack_stopped(&mut self)
        requires
            old(self)@.wf(),
            old(self)@.worker matches Some(w) && w.state is Stopping,
        ensures
            final(self)@.epoch == old(self)@.epoch,
            final(self)@.worker == Some(drained_step(old(self)@.worker->0)),
            final(self)@.may_begin(),
            !final(self)@.bound_somewhere(),
            final(self)@.wf(),
    {
        match &mut self.worker {
            Some(w) => w.drain_complete(),
            None => proof {
                assert(false);
            },
        }
    }

    /// A command could not be delivered: the worker crashed, its resources
    /// with it. The operator loop must not go on driving a dead server; the
    /// epoch is abandoned and the plane proceeds as if reload had been
    /// selected, free to begin a new epoch.
    pub fn on_worker_unavailable(&mut self)
        requires
            old(self)@.wf(),
        ensures
            final(self)@.epoch == old(self)@.epoch,
            final(self)@.worker is None,
            final(self)@.may_begin(),
            final(self)@.wf(),
    {
        self.worker = None;
    }

    /// A configuration or TLS failure while setting an epoch up is fatal only
    /// before any epoch ever began: then there is no prior state to keep. On
    /// a reload it is reported and the operator may retry.
    pub fn setup_failure_is_fatal(&self) -> (fatal: bool)
        ensures
            fatal == (self@.epoch == 0),
    {
        self.epoch == 0
    }

    /// Quit has stopped the epoch: nothing stays bound, and the process exit
    /// code for a completed quit is zero.
    pub fn finish_quit(&self) -> (code: i32)
        requires
            self@.wf(),
            !self@.live(),
        ensures
            code == 0,
            !self@.bound_somewhere(),
    {
        0
    }
}

/// An epoch may begin only when no listener of an earlier epoch still holds
/// an address: acknowledged termination frees the socket first.
pub proof fn lemma_begin_needs_address_free(cp: PlaneView)
    requires
        cp.wf(),
        cp.may_begin(),
    ensures
        !cp.bound_somewhere(),
{
}

/// A reload never double-binds: while the old epoch's listener is still
/// draining, no new epoch may begin; once the stop is acknowledged the
/// addresses are free, and only then is a new bind enabled.
pub proof fn lemma_reload_never_double_binds(cp: PlaneView)
    requires
        cp.wf(),
        cp.worker matches Some(w) && w.state is Stopping,
    ensures
        !cp.may_begin(),
        ({
            let after = (PlaneView {
                epoch: cp.epoch,
                worker: Some(drained_step(cp.worker->0)),
            });
            after.may_begin() && !after.bound_somewhere() && after.wf()
        }),
{
}

/// Quit stops the epoch and leaves no bound socket: after the stop, with its
/// drain completed when one was needed, nothing is live and nothing is bound.
pub proof fn lemma_quit_leaves_no_sockets(cp: PlaneView, graceful: bool)
    requires
        cp.wf(),
        cp.worker matches Some(w) && can_apply(w, ControlCommand::Stop(graceful)),
    ensures
        ({
            let s = apply_step(cp.worker->0, ControlCommand::Stop(graceful));
            let t = if s.state is Stopping {
                drained_step(s)
            } else {
                s
            };
            let after = (PlaneView { epoch: cp.epoch, worker: Some(t) });
            !after.live() && !after.bound_somewhere() && after.wf()
        }),
{
}

} // verus!
