//! Names, wire constants and shared flags used on both sides of the channel.

use std::sync::atomic::AtomicBool;
use std::sync::atomic::Ordering;
use vstd::prelude::*;

verus! {

/// Message id that the observed application posts when a message arrives.
pub const WECHAT_NEW_MSG_ID: u32 = 0x0118;

/// `wParam` that accompanies [`WECHAT_NEW_MSG_ID`] for a new message.
pub const WECHAT_NEW_MSG_WPARAM: usize = 0xFFF8;

/// Title of the notification window.
pub const NOTIFY_WINDOW_TITLE: &'static str = "WeChat Notify";

/// Title of the observed application's main window.
pub const WECHAT_WINDOW_TITLE: &'static str = "微信";

/// File name of the agent module, next to the controller executable.
pub const DLL_NAME: &'static str = "msg_listener.dll";

/// Exported hook procedure of the agent module.
pub const DLL_PROC_NAME: &'static str = "wechat_msg_proc";

/// Executable name of the controller.
pub const APP_EXE_NAME: &'static str = "wechat_notify.exe";

/// Executable name of the observed application.
pub const WECHAT_EXE_NAME: &'static str = "Weixin.exe";

/// Executable name of the short-lived helper spawned to wake the watchers.
pub const PUPPET_EXE_NAME: &'static str = "cmd.exe";

/// Name of the signalling channel.
pub const PIPE_FILE: &'static str = "\\\\.\\pipe\\wechat_notify";

/// The one byte that means "new event" on the channel.
pub const NEW_MSG: u8 = 1;

/// How many times the main window of a freshly started target is looked for.
pub const INJECT_TRY_TIME: u8 = 10;

/// Process creation flag that keeps the helper process windowless.
pub const CREATE_NO_WINDOW: u32 = 0x08000000;

/// Publishes `val` into a process-wide flag (relaxed ordering: readers poll).
pub fn set_atomicbool(val: bool, atomicbool: &AtomicBool) {
    atomicbool.store(val, Ordering::Relaxed);
}

/// Reads a process-wide flag (relaxed ordering: writers are polled for).
///
/// Other threads may write the flag at any time, so nothing is promised of
/// the value beyond its being some value the flag held.
pub fn get_atomicbool(atomicbool: &AtomicBool) -> bool {
    atomicbool.load(Ordering::Relaxed)
}

} // verus!
