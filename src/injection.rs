//! Outcomes of installing the agent into the observed process.
//!
//! Injection runs in order: find the module next to the controller, load it,
//! resolve the exported hook procedure, resolve the thread that owns the
//! target window, install the hook. The first step that fails decides the
//! error, and a module that was loaded before the failure is released again.

use vstd::prelude::*;

verus! {

/// Why an injection failed.
#[derive(Clone, Copy, Debug, PartialEq, Eq, Structural)]
pub enum InjectionError {
    /// The agent module is not next to the controller, or could not load.
    ModuleNotFound,
    /// The module does not export the hook procedure.
    ExportNotFound,
    /// The target window is missing or has no owning thread.
    WindowNotFound,
    /// The hook could not be installed.
    HookInstallFailed,
}

/// A fatal error of the lifecycle orchestrator.
#[derive(Clone, Copy, Debug, PartialEq, Eq, Structural)]
pub enum LifecycleError {
    /// Injecting the agent failed.
    Injection(InjectionError),
    /// Subscribing to process events, or decoding one, failed.
    Watcher,
}

/// The outcome of an injection whose steps reported these results, in
/// order: the module was found and loaded, the export was resolved, the
/// window's owning thread id (0 for none), the hook was installed.
pub open spec fn injection_outcome_spec(
    module_loaded: bool,
    export_found: bool,
    thread_id: u32,
    hook_installed: bool,
) -> Result<(), InjectionError> {
    if !module_loaded {
        Err(InjectionError::ModuleNotFound)
    } else if !export_found {
        Err(InjectionError::ExportNotFound)
    } else if thread_id == 0 {
        Err(InjectionError::WindowNotFound)
    } else if !hook_installed {
        Err(InjectionError::HookInstallFailed)
    } else {
        Ok(())
    }
}

/// Decides an injection from the results of its steps: the first failing
/// step gives the error. Results of steps after a failure are not looked at.
pub fn injection_outcome(
    module_loaded: bool,
    export_found: bool,
    thread_id: u32,
    hook_installed: bool,
) -> (r: Result<(), InjectionError>)
    ensures
        r == injection_outcome_spec(module_loaded, export_found, thread_id, hook_installed),
{
    if !module_loaded {
        Err(InjectionError::ModuleNotFound)
    } else if !export_found {
        Err(InjectionError::ExportNotFound)
    } else if thread_id == 0 {
        Err(InjectionError::WindowNotFound)
    } else if !hook_installed {
        Err(InjectionError::HookInstallFailed)
    } else {
        Ok(())
    }
}

/// Whether a failed injection had loaded the module, which must then be
/// released: every failure but a missing module.
pub fn must_release_module(e: InjectionError) -> (r: bool)
    ensures
        r == (e != InjectionError::ModuleNotFound),
{
    match e {
        InjectionError::ModuleNotFound => false,
        _ => true,
    }
}

} // verus!
