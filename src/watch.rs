//! Process notifications, as the process watchers deliver them.

use crate::common::{PUPPET_EXE_NAME, WECHAT_EXE_NAME};
use vstd::prelude::*;

verus! {

/// A process that was created or deleted.
pub struct Process {
    pub process_id: u32,
    pub name: String,
    pub executable_path: Option<String>,
}

/// What a watcher does after handing one process to its handler.
#[derive(Clone, Copy, Debug, PartialEq, Eq, Structural)]
pub enum WatchControl {
    /// Close the subscription and return.
    End,
    /// Wait for the next notification.
    Continue,
}

/// What a process is to the orchestrator.
#[derive(Clone, Copy, Debug, PartialEq, Eq, Structural)]
pub enum ProcessKind {
    /// The observed application.
    Target,
    /// The helper spawned only to wake the watchers.
    Helper,
    /// Any other process.
    Other,
}

/// The kind of a process with executable name `name`.
pub open spec fn kind_of(name: Seq<char>) -> ProcessKind {
    if name == WECHAT_EXE_NAME@ {
        ProcessKind::Target
    } else if name == PUPPET_EXE_NAME@ {
        ProcessKind::Helper
    } else {
        ProcessKind::Other
    }
}

impl Process {
    /// Tells the observed application and the wake helper from other
    /// processes, by executable name.
    pub fn kind(&self) -> (r: ProcessKind)
        ensures
            r == kind_of(self.name@),
    {
        let target = WECHAT_EXE_NAME.to_owned();
        let helper = PUPPET_EXE_NAME.to_owned();
        if self.name == target {
            ProcessKind::Target
        } else if self.name == helper {
            ProcessKind::Helper
        } else {
            ProcessKind::Other
        }
    }
}

} // verus!
