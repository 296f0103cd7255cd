//! Cooperative shutdown.
//!
//! The controller sets its exit flag, spawns the wake helper so that a
//! pending process subscription returns, unloads any injected agent, and
//! joins its registered threads, last registered first. The agent stops when
//! its module is unloaded.

use crate::agent::{Agent, AgentAction};
use crate::channel::{Server, ServerAction, ServerEvent};
use crate::lifecycle::{Lifecycle, LifecycleAction, LifecycleEvent};
use vstd::prelude::*;

verus! {

/// Shutdown: with the exit flag set, the orchestrator and the channel server
/// stop at their next step, whatever they observed and whatever state they
/// are in, and the orchestrator keeps its state (so an agent it holds is
/// still unloaded by the shutdown sequence); an agent that was detached stops
/// at its next step; and draining the thread registry hands back every
/// registered thread exactly once, last registered first.
pub proof fn lemma_shutdown<H>(
    l: Lifecycle,
    l_event: LifecycleEvent,
    s: Server,
    running: bool,
    s_event: ServerEvent,
    a: Agent,
    threads: Seq<H>,
)
    ensures
        l.step_spec(true, l_event) == (l, LifecycleAction::Stop),
        s.step_spec(true, running, s_event) == (s, ServerAction::Stop),
        (Agent { running: false, connected: false, ..a }).step_spec().1 == AgentAction::Stop,
        threads.reverse().len() == threads.len(),
        forall|i: int| 0 <= i < threads.len() ==> threads.reverse()[threads.len() - 1 - i] == threads[i],
{
}

} // verus!
