//! The agent that runs inside the observed process.
//!
//! A message hook latches a flag when the new-message sentinel passes by; a
//! worker forwards the latched flag as one byte over the channel, connecting
//! and reconnecting as needed. Here the agent is a state machine: the hosting
//! code reports hook calls and the outcome of each connect or write, and asks
//! what to do next.

use crate::common::{NEW_MSG, WECHAT_EXE_NAME, WECHAT_NEW_MSG_ID, WECHAT_NEW_MSG_WPARAM};
use vstd::prelude::*;

verus! {

/// Whether a hook call carries the new-message sentinel pair.
pub open spec fn is_new_msg(ncode: i32, message: u32, wparam: usize) -> bool {
    ncode >= 0 && message == WECHAT_NEW_MSG_ID && wparam == WECHAT_NEW_MSG_WPARAM
}

/// Decides whether a hook call carries the new-message sentinel pair: a
/// non-negative hook code, the sentinel message id and the sentinel `wParam`.
pub fn is_new_msg_event(ncode: i32, message: u32, wparam: usize) -> (r: bool)
    ensures
        r == is_new_msg(ncode, message, wparam),
{
    ncode >= 0 && message == WECHAT_NEW_MSG_ID && wparam == WECHAT_NEW_MSG_WPARAM
}

/// What the agent's worker does next.
#[derive(Clone, Copy, Debug, PartialEq, Eq, Structural)]
pub enum AgentAction {
    /// The agent is no longer running: leave the worker loop.
    Stop,
    /// Write the one-byte signal on the open connection, then pause briefly.
    Write,
    /// Nothing to forward: pause briefly and ask again.
    Sleep,
    /// No connection: try to open one with a bounded wait.
    Connect,
}

/// State of the agent: whether it runs, whether it holds a channel
/// connection, and the latched "new message" flag.
#[derive(Clone, Copy, Debug, PartialEq, Eq, Structural)]
pub struct Agent {
    pub running: bool,
    pub connected: bool,
    pub pending: bool,
}

impl Agent {
    /// The agent after a hook call: the latch is set on a sentinel call
    /// while the agent runs, and nothing else changes.
    pub open spec fn hook_spec(self, ncode: i32, message: u32, wparam: usize) -> Agent {
        Agent { pending: self.pending || (self.running && is_new_msg(ncode, message, wparam)), ..self }
    }

    /// The worker's next action and the state after taking it. Asking for a
    /// write clears the latch (check-and-clear).
    pub open spec fn step_spec(self) -> (Agent, AgentAction) {
        if !self.running {
            (self, AgentAction::Stop)
        } else if self.connected {
            if self.pending {
                (Agent { pending: false, ..self }, AgentAction::Write)
            } else {
                (self, AgentAction::Sleep)
            }
        } else {
            (self, AgentAction::Connect)
        }
    }

    /// The agent after a write: a failed write re-latches the signal and
    /// drops the connection.
    pub open spec fn write_done_spec(self, ok: bool) -> Agent {
        if ok {
            self
        } else {
            Agent { pending: true, connected: false, ..self }
        }
    }

    /// The agent after a connection attempt.
    pub open spec fn connect_done_spec(self, ok: bool) -> Agent {
        Agent { connected: ok, ..self }
    }

    /// The agent after a sequence of hook calls, oldest first.
    pub open spec fn hooks_spec(self, calls: Seq<(i32, u32, usize)>) -> Agent
        decreases calls.len(),
    {
        if calls.len() == 0 {
            self
        } else {
            let c = calls.last();
            self.hooks_spec(calls.drop_last()).hook_spec(c.0, c.1, c.2)
        }
    }

    /// Starts the agent in the process named `process_name`. It runs only
    /// inside the observed application; elsewhere every hook call and every
    /// worker step is a no-op.
    pub fn attach(process_name: &String) -> (r: Agent)
        ensures
            r.running == (process_name@ == WECHAT_EXE_NAME@),
            !r.connected,
            !r.pending,
    {
        let target = WECHAT_EXE_NAME.to_owned();
        Agent { running: *process_name == target, connected: false, pending: false }
    }

    /// Records one hook call.
    pub fn on_hook(&mut self, ncode: i32, message: u32, wparam: usize)
        ensures
            *final(self) == old(self).hook_spec(ncode, message, wparam),
    {
        if self.running && is_new_msg_event(ncode, message, wparam) {
            self.pending = true;
        }
    }

    /// Takes in the latch that a hook running on another thread set (and
    /// that the caller cleared as it read it); it counts only while the
    /// agent runs.
    pub fn merge_latch(&mut self, latched: bool)
        ensures
            *final(self) == (Agent { pending: old(self).pending || (old(self).running && latched), ..*old(self) }),
    {
        if self.running && latched {
            self.pending = true;
        }
    }

    /// Chooses the worker's next action.
    pub fn next_action(&mut self) -> (r: AgentAction)
        ensures
            (*final(self), r) == old(self).step_spec(),
    {
        if !self.running {
            AgentAction::Stop
        } else if self.connected {
            if self.pending {
                self.pending = false;
                AgentAction::Write
            } else {
                AgentAction::Sleep
            }
        } else {
            AgentAction::Connect
        }
    }

    /// Records the outcome of a [`AgentAction::Write`].
    pub fn on_write_result(&mut self, ok: bool)
        ensures
            *final(self) == old(self).write_done_spec(ok),
    {
        if !ok {
            self.pending = true;
            self.connected = false;
        }
    }

    /// Records the outcome of a [`AgentAction::Connect`].
    pub fn on_connect_result(&mut self, ok: bool)
        ensures
            *final(self) == old(self).connect_done_spec(ok),
    {
        self.connected = ok;
    }

    /// Stops the agent when its module is unloaded. Returns whether a
    /// connection was held, which the caller must then release.
    pub fn detach(&mut self) -> (release: bool)
        ensures
            release == old(self).connected,
            !final(self).running,
            !final(self).connected,
            final(self).pending == old(self).pending,
    {
        let release = self.connected;
        self.running = false;
        self.connected = false;
        release
    }
}

/// The hook calls of a sequence only ever set the latch: running and the
/// connection stay as they were, and the latch ends up set exactly when it
/// was set before or some call carried the sentinel while the agent ran.
pub proof fn lemma_hooks_latch(s: Agent, calls: Seq<(i32, u32, usize)>)
    ensures
        s.hooks_spec(calls).running == s.running,
        s.hooks_spec(calls).connected == s.connected,
        s.hooks_spec(calls).pending == (s.pending || (s.running && exists|i: int|
            0 <= i < calls.len() && #[trigger] is_new_msg(calls[i].0, calls[i].1, calls[i].2))),
    decreases calls.len(),
{
    if calls.len() > 0 {
        let init = calls.drop_last();
        lemma_hooks_latch(s, init);
        let c = calls.last();
        if s.running && exists|i: int| 0 <= i < init.len() && #[trigger] is_new_msg(init[i].0, init[i].1, init[i].2) {
            let i = choose|i: int| 0 <= i < init.len() && #[trigger] is_new_msg(init[i].0, init[i].1, init[i].2);
            assert(calls[i] == init[i]);
        }
        if s.running && is_new_msg(c.0, c.1, c.2) {
            assert(calls[calls.len() - 1] == c);
        }
        if s.running && exists|i: int| 0 <= i < calls.len() && #[trigger] is_new_msg(calls[i].0, calls[i].1, calls[i].2) {
            let i = choose|i: int| 0 <= i < calls.len() && #[trigger] is_new_msg(calls[i].0, calls[i].1, calls[i].2);
            if i < calls.len() - 1 {
                assert(init[i] == calls[i]);
            }
        }
    }
}

/// Latch: any number (at least one) of sentinel hook calls made while the
/// running agent is disconnected are forwarded, once a connection exists, as
/// exactly one write; while disconnected the agent only tries to connect and
/// keeps the latch; after the write, with no new call, it writes nothing more.
pub proof fn lemma_latch_collapses(s: Agent, calls: Seq<(i32, u32, usize)>)
    requires
        s.running,
        !s.connected,
        calls.len() > 0,
        forall|i: int| 0 <= i < calls.len() ==> #[trigger] is_new_msg(calls[i].0, calls[i].1, calls[i].2),
    ensures
        s.hooks_spec(calls).pending,
        s.hooks_spec(calls).step_spec() == (s.hooks_spec(calls), AgentAction::Connect),
        s.hooks_spec(calls).connect_done_spec(true).step_spec().1 == AgentAction::Write,
        s.hooks_spec(calls).connect_done_spec(true).step_spec().0.step_spec().1 == AgentAction::Sleep,
{
    lemma_hooks_latch(s, calls);
    assert(is_new_msg(calls[0].0, calls[0].1, calls[0].2));
}

/// Retry: when the write of a latched signal fails, the signal is latched
/// again and the connection dropped; the agent reconnects, and the first
/// step after a successful reconnect writes the signal.
pub proof fn lemma_write_failure_retried(s: Agent)
    requires
        s.running,
        s.connected,
        s.pending,
    ensures
        s.step_spec().1 == AgentAction::Write,
        s.step_spec().0.write_done_spec(false).pending,
        !s.step_spec().0.write_done_spec(false).connected,
        s.step_spec().0.write_done_spec(false).step_spec().1 == AgentAction::Connect,
        s.step_spec().0.write_done_spec(false).connect_done_spec(true).step_spec().1
            == AgentAction::Write,
{
}

/// The byte written for one forwarded signal.
pub fn signal_byte() -> (r: u8)
    ensures
        r == NEW_MSG,
{
    NEW_MSG
}

} // verus!
