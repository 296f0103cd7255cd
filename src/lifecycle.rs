//! The lifecycle orchestrator.
//!
//! It watches the observed application start and stop. When the application
//! starts it looks for its main window a bounded number of times, one second
//! apart, and injects the agent; when it stops it unloads the agent. A wake
//! helper process ends the current subscription so that the exit flag is
//! looked at again. Every error is fatal: the orchestrator asks for the exit
//! flag to be set and ends.

use crate::common::INJECT_TRY_TIME;
use crate::injection::{InjectionError, LifecycleError};
use crate::watch::{ProcessKind, WatchControl};
use vstd::prelude::*;

verus! {

/// Where the orchestrator stands.
#[derive(Clone, Copy, Debug, PartialEq, Eq, Structural)]
pub enum Phase {
    /// Just started: the application may already be running.
    Launch,
    /// The application is not running: waiting for it to start.
    AwaitStart,
    /// The application started: looking for its main window.
    Searching,
    /// The window was found: the agent is being injected.
    Injecting,
    /// The agent is injected: waiting for the application to close.
    AwaitClose,
    /// A fatal error ended the orchestrator.
    Failed,
}

/// What the orchestrator's driver observed since the last action.
#[derive(Clone, Copy, Debug, PartialEq, Eq, Structural)]
pub enum LifecycleEvent {
    /// The loop starts an iteration (also when a subscription returned).
    Poll,
    /// A process-creation notification.
    Started(ProcessKind),
    /// A process-deletion notification.
    Closed(ProcessKind),
    /// One lookup of the application's main window: whether it was found.
    WindowSearched(bool),
    /// The agent was injected.
    Injected,
    /// Injecting the agent failed.
    InjectFailed(InjectionError),
    /// A subscription could not be opened, or a notification not decoded.
    WatchFailed,
}

/// What the orchestrator's driver does next.
#[derive(Clone, Copy, Debug, PartialEq, Eq, Structural)]
pub enum LifecycleAction {
    /// Leave the loop.
    Stop,
    /// Subscribe to process creations.
    WatchStart,
    /// Subscribe to process deletions.
    WatchClose,
    /// Tell the current subscription to go on or to end.
    Watch(WatchControl),
    /// Look for the application's main window now.
    FindWindow,
    /// Wait one second, then look for the main window again.
    FindWindowLater,
    /// Inject the agent into the thread of the window just found.
    Inject,
    /// Unload the injected agent, then end the current subscription.
    Unload,
    /// Set the exit flag and leave the loop with this error.
    Fatal(LifecycleError),
}

/// State of the orchestrator: its phase, the failed window lookups of the
/// current search, and whether it holds an injected agent that it has not
/// unloaded (one left after a fatal error is unloaded at shutdown).
#[derive(Clone, Copy, Debug, PartialEq, Eq, Structural)]
pub struct Lifecycle {
    pub phase: Phase,
    pub attempts: u8,
    pub injected: bool,
}

impl Lifecycle {
    /// Whether the application is known to run; this is the running flag.
    pub open spec fn running_spec(self) -> bool {
        self.phase == Phase::AwaitClose
    }

    /// Well-formedness: a search counts fewer failed lookups than allowed,
    /// and an agent is held exactly while the application is known to run,
    /// or after a fatal error.
    pub open spec fn wf(self) -> bool {
        &&& self.attempts < INJECT_TRY_TIME
        &&& self.phase == Phase::AwaitClose ==> self.injected
        &&& (self.phase != Phase::AwaitClose && self.phase != Phase::Failed) ==> !self.injected
    }

    /// The state after `event` and the action it calls for, given the exit
    /// flag.
    pub open spec fn step_spec(self, exit: bool, event: LifecycleEvent) -> (Lifecycle, LifecycleAction) {
        if exit {
            (self, LifecycleAction::Stop)
        } else {
            match self.phase {
                Phase::Launch => match event {
                    LifecycleEvent::WindowSearched(true) => (
                        Lifecycle { phase: Phase::Injecting, ..self },
                        LifecycleAction::Inject,
                    ),
                    LifecycleEvent::WindowSearched(false) => (
                        Lifecycle { phase: Phase::AwaitStart, ..self },
                        LifecycleAction::WatchStart,
                    ),
                    _ => (self, LifecycleAction::FindWindow),
                },
                Phase::AwaitStart => match event {
                    LifecycleEvent::Poll => (self, LifecycleAction::WatchStart),
                    LifecycleEvent::Started(ProcessKind::Target) => (
                        Lifecycle { phase: Phase::Searching, attempts: 0, ..self },
                        LifecycleAction::FindWindow,
                    ),
                    LifecycleEvent::Started(ProcessKind::Helper) => (
                        self,
                        LifecycleAction::Watch(WatchControl::End),
                    ),
                    LifecycleEvent::WatchFailed => (
                        Lifecycle { phase: Phase::Failed, ..self },
                        LifecycleAction::Fatal(LifecycleError::Watcher),
                    ),
                    _ => (self, LifecycleAction::Watch(WatchControl::Continue)),
                },
                Phase::Searching => match event {
                    LifecycleEvent::WindowSearched(true) => (
                        Lifecycle { phase: Phase::Injecting, attempts: 0, ..self },
                        LifecycleAction::Inject,
                    ),
                    LifecycleEvent::WindowSearched(false) => if self.attempts + 1 < INJECT_TRY_TIME {
                        (
                            Lifecycle { attempts: (self.attempts + 1) as u8, ..self },
                            LifecycleAction::FindWindowLater,
                        )
                    } else {
                        (
                            Lifecycle { phase: Phase::Failed, attempts: 0, ..self },
                            LifecycleAction::Fatal(
                                LifecycleError::Injection(InjectionError::WindowNotFound),
                            ),
                        )
                    },
                    _ => (self, LifecycleAction::FindWindow),
                },
                Phase::Injecting => match event {
                    LifecycleEvent::Injected => (
                        Lifecycle { phase: Phase::AwaitClose, injected: true, ..self },
                        LifecycleAction::Watch(WatchControl::End),
                    ),
                    LifecycleEvent::InjectFailed(e) => (
                        Lifecycle { phase: Phase::Failed, ..self },
                        LifecycleAction::Fatal(LifecycleError::Injection(e)),
                    ),
                    _ => (self, LifecycleAction::Watch(WatchControl::Continue)),
                },
                Phase::AwaitClose => match event {
                    LifecycleEvent::Poll => (self, LifecycleAction::WatchClose),
                    LifecycleEvent::Closed(ProcessKind::Target) => (
                        Lifecycle { phase: Phase::AwaitStart, injected: false, ..self },
                        LifecycleAction::Unload,
                    ),
                    LifecycleEvent::Closed(ProcessKind::Helper) => (
                        self,
                        LifecycleAction::Watch(WatchControl::End),
                    ),
                    LifecycleEvent::WatchFailed => (
                        Lifecycle { phase: Phase::Failed, ..self },
                        LifecycleAction::Fatal(LifecycleError::Watcher),
                    ),
                    _ => (self, LifecycleAction::Watch(WatchControl::Continue)),
                },
                Phase::Failed => (self, LifecycleAction::Stop),
            }
        }
    }

    /// An orchestrator that has not yet looked for the application.
    pub fn new() -> (r: Lifecycle)
        ensures
            r.phase == Phase::Launch,
            r.attempts == 0,
            !r.injected,
            r.wf(),
    {
        Lifecycle { phase: Phase::Launch, attempts: 0, injected: false }
    }

    /// Whether the application is known to run.
    pub fn is_running(&self) -> (r: bool)
        ensures
            r == self.running_spec(),
    {
        match self.phase {
            Phase::AwaitClose => true,
            _ => false,
        }
    }

    /// Takes one event and chooses the next action.
    pub fn step(&mut self, exit: bool, event: LifecycleEvent) -> (r: LifecycleAction)
        requires
            old(self).wf(),
        ensures
            (*final(self), r) == old(self).step_spec(exit, event),
            final(self).wf(),
    {
        if exit {
            return LifecycleAction::Stop;
        }
        match self.phase {
            Phase::Launch => match event {
                LifecycleEvent::WindowSearched(found) => if found {
                    self.phase = Phase::Injecting;
                    LifecycleAction::Inject
                } else {
                    self.phase = Phase::AwaitStart;
                    LifecycleAction::WatchStart
                },
                _ => LifecycleAction::FindWindow,
            },
            Phase::AwaitStart => match event {
                LifecycleEvent::Poll => LifecycleAction::WatchStart,
                LifecycleEvent::Started(ProcessKind::Target) => {
                    self.phase = Phase::Searching;
                    self.attempts = 0;
                    LifecycleAction::FindWindow
                },
                LifecycleEvent::Started(ProcessKind::Helper) => LifecycleAction::Watch(
                    WatchControl::End,
                ),
                LifecycleEvent::WatchFailed => {
                    self.phase = Phase::Failed;
                    LifecycleAction::Fatal(LifecycleError::Watcher)
                },
                _ => LifecycleAction::Watch(WatchControl::Continue),
            },
            Phase::Searching => match event {
                LifecycleEvent::WindowSearched(found) => if found {
                    self.phase = Phase::Injecting;
                    self.attempts = 0;
                    LifecycleAction::Inject
                } else if self.attempts + 1 < INJECT_TRY_TIME {
                    self.attempts = self.attempts + 1;
                    LifecycleAction::FindWindowLater
                } else {
                    self.phase = Phase::Failed;
                    self.attempts = 0;
                    LifecycleAction::Fatal(LifecycleError::Injection(InjectionError::WindowNotFound))
                },
                _ => LifecycleAction::FindWindow,
            },
            Phase::Injecting => match event {
                LifecycleEvent::Injected => {
                    self.phase = Phase::AwaitClose;
                    self.injected = true;
                    LifecycleAction::Watch(WatchControl::End)
                },
                LifecycleEvent::InjectFailed(e) => {
                    self.phase = Phase::Failed;
                    LifecycleAction::Fatal(LifecycleError::Injection(e))
                },
                _ => LifecycleAction::Watch(WatchControl::Continue),
            },
            Phase::AwaitClose => match event {
                LifecycleEvent::Poll => LifecycleAction::WatchClose,
                LifecycleEvent::Closed(ProcessKind::Target) => {
                    self.phase = Phase::AwaitStart;
                    self.injected = false;
                    LifecycleAction::Unload
                },
                LifecycleEvent::Closed(ProcessKind::Helper) => LifecycleAction::Watch(
                    WatchControl::End,
                ),
                LifecycleEvent::WatchFailed => {
                    self.phase = Phase::Failed;
                    LifecycleAction::Fatal(LifecycleError::Watcher)
                },
                _ => LifecycleAction::Watch(WatchControl::Continue),
            },
            Phase::Failed => LifecycleAction::Stop,
        }
    }
}

/// One live injection: the orchestrator asks to inject only while it holds
/// no agent, and comes to hold one only when the injection it asked for
/// succeeded; it gives an agent up only by asking to unload it. So at most
/// one agent is live at a time, and each is unloaded before the next is
/// injected.
pub proof fn lemma_one_live_injection(s: Lifecycle, exit: bool, event: LifecycleEvent)
    requires
        s.wf(),
    ensures
        s.step_spec(exit, event).0.wf(),
        s.step_spec(exit, event).1 == LifecycleAction::Inject ==> !s.injected
            && !s.step_spec(exit, event).0.injected,
        (!s.injected && s.step_spec(exit, event).0.injected) ==> s.phase == Phase::Injecting
            && event == LifecycleEvent::Injected,
        (s.injected && !s.step_spec(exit, event).0.injected) ==> s.step_spec(exit, event).1
            == LifecycleAction::Unload,
        s.step_spec(exit, event).1 == LifecycleAction::Unload ==> s.injected
            && !s.step_spec(exit, event).0.injected,
{
}

/// The orchestrator's state and actions after a sequence of events, each
/// taken with the exit flag as it was then, oldest first.
pub open spec fn run_spec(s: Lifecycle, events: Seq<(bool, LifecycleEvent)>) -> (Lifecycle, Seq<LifecycleAction>)
    decreases events.len(),
{
    if events.len() == 0 {
        (s, Seq::empty())
    } else {
        let prev = run_spec(s, events.drop_last());
        let e = events.last();
        let next = prev.0.step_spec(e.0, e.1);
        (next.0, prev.1.push(next.1))
    }
}

/// The number of injections asked for, minus the number of unloads asked
/// for, in a sequence of actions.
pub open spec fn injection_balance(actions: Seq<LifecycleAction>) -> int
    decreases actions.len(),
{
    if actions.len() == 0 {
        0
    } else {
        injection_balance(actions.drop_last()) + if actions.last() == LifecycleAction::Inject {
            1int
        } else if actions.last() == LifecycleAction::Unload {
            -1int
        } else {
            0int
        }
    }
}

/// The state reached from launch by a sequence of events.
pub open spec fn launched_run(events: Seq<(bool, LifecycleEvent)>) -> (Lifecycle, Seq<LifecycleAction>) {
    run_spec(Lifecycle { phase: Phase::Launch, attempts: 0, injected: false }, events)
}

/// One live injection, over any sequence of events from launch: the state
/// stays well formed, and the injections asked for minus the unloads asked
/// for is never more than one nor less than zero, so every injection after
/// the first is preceded by the unload of the one before. Until a fatal
/// error it is one exactly while an injection is in flight or an agent is
/// held.
pub proof fn lemma_injections_alternate(events: Seq<(bool, LifecycleEvent)>)
    ensures
        launched_run(events).0.wf(),
        0 <= injection_balance(launched_run(events).1) <= 1,
        launched_run(events).0.phase != Phase::Failed ==> injection_balance(launched_run(events).1)
            == (if launched_run(events).0.injected || launched_run(events).0.phase
            == Phase::Injecting { 1int } else { 0int }),
    decreases events.len(),
{
    if events.len() > 0 {
        lemma_injections_alternate(events.drop_last());
        let prev = launched_run(events.drop_last());
        let e = events.last();
        lemma_one_live_injection(prev.0, e.0, e.1);
        assert(launched_run(events).1.drop_last() == prev.1);
    }
}

} // verus!
