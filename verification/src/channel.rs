//! The command channel between the control plane and the worker.
//!
//! Exactly one producer (the control plane) and one consumer (the worker's
//! execution context) share it; delivery is ordered and lossless, and the
//! consumer takes commands one at a time, each fully processed before the
//! next is dequeued.

use vstd::prelude::*;

use crate::worker::{apply_step, can_apply, ControlCommand, ServerWorker};

verus! {

/// An ordered, lossless queue of pending commands.
pub struct CommandChannel {
    queue: Vec<ControlCommand>,
}

impl View for CommandChannel {
    type V = Seq<ControlCommand>;

    closed spec fn view(&self) -> Seq<ControlCommand> {
        self.queue@
    }
}

impl CommandChannel {
    /// An empty channel.
    pub fn new() -> (ch: CommandChannel)
        ensures
            ch@ == Seq::<ControlCommand>::empty(),
    {
        CommandChannel { queue: Vec::new() }
    }

    pub fn len(&self) -> (n: usize)
        ensures
            n == self@.len(),
    {
        self.queue.len()
    }

    /// Issue a command: it joins the queue behind everything already pending,
    /// and nothing pending is lost.
    pub fn send(&mut self, cmd: ControlCommand)
        ensures
            final(self)@ == old(self)@.push(cmd),
    {
        self.queue.push(cmd);
    }

    /// Take the next command: the one issued earliest of those pending.
    pub fn recv(&mut self) -> (r: Option<ControlCommand>)
        ensures
            old(self)@.len() == 0 ==> r is None && final(self)@ == old(self)@,
            old(self)@.len() > 0 ==> r == Some(old(self)@[0]) && final(self)@ == old(
                self,
            )@.drop_first(),
    {
        if self.queue.len() == 0 {
            None
        } else {
            let cmd = self.queue.remove(0);
            proof {
                assert(old(self)@.remove(0) =~= old(self)@.drop_first());
            }
            Some(cmd)
        }
    }
}

/// Dequeue the next command and apply it to the worker, completely, before
/// any later command can be looked at.
pub fn deliver_next(w: &mut ServerWorker, ch: &mut CommandChannel)
    requires
        old(w)@.wf(),
        old(ch)@.len() > 0,
        can_apply(old(w)@, old(ch)@[0]),
    ensures
        final(ch)@ == old(ch)@.drop_first(),
        final(w)@ == apply_step(old(w)@, old(ch)@[0]),
        final(w)@.wf(),
{
    let next = ch.recv();
    match next {
        Some(cmd) => w.apply(cmd),
        None => proof {
            assert(false);
        },
    }
}

/// Delivery is ordered and lossless: a send keeps every pending command in
/// its place and appends the new one last, so commands leave the channel in
/// the order they were issued.
pub proof fn lemma_ordered_lossless(q: Seq<ControlCommand>, cmd: ControlCommand)
    ensures
        q.push(cmd).len() == q.len() + 1,
        forall|i: int| 0 <= i < q.len() ==> q.push(cmd)[i] == q[i],
        q.push(cmd)[q.len() as int] == cmd,
{
}

} // verus!
