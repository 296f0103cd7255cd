use wechat_notify::channel::{Server, ServerAction, ServerEvent};
use wechat_notify::display::is_visible;
use wechat_notify::injection::{injection_outcome, must_release_module, InjectionError, LifecycleError};
use wechat_notify::lifecycle::{Lifecycle, LifecycleAction, LifecycleEvent, Phase};
use wechat_notify::state::set_dll_handle;
use wechat_notify::watch::{Process, ProcessKind, WatchControl};

fn process(name: &str) -> Process {
    Process { process_id: 42, name: name.to_string(), executable_path: None }
}

fn awaiting_start() -> Lifecycle {
    let mut lc = Lifecycle::new();
    assert_eq!(lc.step(false, LifecycleEvent::Poll), LifecycleAction::FindWindow);
    assert_eq!(lc.step(false, LifecycleEvent::WindowSearched(false)), LifecycleAction::WatchStart);
    lc
}

fn awaiting_close() -> Lifecycle {
    let mut lc = Lifecycle::new();
    assert_eq!(lc.step(false, LifecycleEvent::WindowSearched(true)), LifecycleAction::Inject);
    assert_eq!(lc.step(false, LifecycleEvent::Injected), LifecycleAction::Watch(WatchControl::End));
    lc
}

#[test]
fn process_kinds_by_name() {
    assert_eq!(process("Weixin.exe").kind(), ProcessKind::Target);
    assert_eq!(process("cmd.exe").kind(), ProcessKind::Helper);
    assert_eq!(process("notepad.exe").kind(), ProcessKind::Other);
    assert_eq!(process("weixin.exe").kind(), ProcessKind::Other);
    assert_eq!(process("").kind(), ProcessKind::Other);
}

#[test]
fn target_absent_at_launch_waits_for_start() {
    let mut lc = awaiting_start();
    assert_eq!(lc.phase, Phase::AwaitStart);
    assert!(!lc.is_running());
    assert_eq!(
        lc.step(false, LifecycleEvent::Started(process("notepad.exe").kind())),
        LifecycleAction::Watch(WatchControl::Continue)
    );
    assert_eq!(lc.step(false, LifecycleEvent::Poll), LifecycleAction::WatchStart);
    assert!(!lc.is_running());
    // no client is accepted while the target is absent
    let mut server = Server::new();
    assert_eq!(server.step(false, lc.is_running(), ServerEvent::Poll), ServerAction::WaitForTarget);
    assert!(!server.connected);
    // the notification stays hidden
    assert!(!is_visible(None, 1_000, lc.is_running(), 5_000));
}

#[test]
fn target_running_at_launch_is_injected() {
    let lc = awaiting_close();
    assert!(lc.is_running());
    assert!(lc.injected);
}

#[test]
fn window_found_on_third_attempt_injects() {
    let mut lc = awaiting_start();
    assert_eq!(lc.step(false, LifecycleEvent::Started(ProcessKind::Target)), LifecycleAction::FindWindow);
    assert_eq!(lc.step(false, LifecycleEvent::WindowSearched(false)), LifecycleAction::FindWindowLater);
    assert_eq!(lc.step(false, LifecycleEvent::WindowSearched(false)), LifecycleAction::FindWindowLater);
    assert_eq!(lc.step(false, LifecycleEvent::WindowSearched(true)), LifecycleAction::Inject);
    assert_eq!(injection_outcome(true, true, 1234, true), Ok(()));
    assert_eq!(lc.step(false, LifecycleEvent::Injected), LifecycleAction::Watch(WatchControl::End));
    assert!(lc.is_running());
    assert_eq!(lc.step(false, LifecycleEvent::Poll), LifecycleAction::WatchClose);
}

#[test]
fn window_never_found_is_fatal() {
    let mut lc = awaiting_start();
    assert_eq!(lc.step(false, LifecycleEvent::Started(ProcessKind::Target)), LifecycleAction::FindWindow);
    for _ in 0..9 {
        assert_eq!(lc.step(false, LifecycleEvent::WindowSearched(false)), LifecycleAction::FindWindowLater);
    }
    assert_eq!(
        lc.step(false, LifecycleEvent::WindowSearched(false)),
        LifecycleAction::Fatal(LifecycleError::Injection(InjectionError::WindowNotFound))
    );
    assert_eq!(lc.phase, Phase::Failed);
    assert!(!lc.injected);
    assert_eq!(lc.step(false, LifecycleEvent::Poll), LifecycleAction::Stop);
}

#[test]
fn failed_injection_is_fatal() {
    let mut lc = awaiting_start();
    lc.step(false, LifecycleEvent::Started(ProcessKind::Target));
    assert_eq!(lc.step(false, LifecycleEvent::WindowSearched(true)), LifecycleAction::Inject);
    let e = injection_outcome(true, true, 1234, false).unwrap_err();
    assert_eq!(e, InjectionError::HookInstallFailed);
    assert_eq!(
        lc.step(false, LifecycleEvent::InjectFailed(e)),
        LifecycleAction::Fatal(LifecycleError::Injection(InjectionError::HookInstallFailed))
    );
    assert!(!lc.is_running());
    assert_eq!(lc.step(false, LifecycleEvent::Poll), LifecycleAction::Stop);
}

#[test]
fn watcher_failure_is_fatal() {
    let mut lc = awaiting_start();
    assert_eq!(lc.step(false, LifecycleEvent::WatchFailed), LifecycleAction::Fatal(LifecycleError::Watcher));
    let mut lc = awaiting_close();
    assert_eq!(lc.step(false, LifecycleEvent::WatchFailed), LifecycleAction::Fatal(LifecycleError::Watcher));
    // the agent is still held, for the shutdown sequence to unload
    assert!(lc.injected);
}

#[test]
fn target_close_unloads_agent() {
    let mut lc = awaiting_close();
    assert_eq!(lc.step(false, LifecycleEvent::Closed(ProcessKind::Other)), LifecycleAction::Watch(WatchControl::Continue));
    assert_eq!(lc.step(false, LifecycleEvent::Closed(ProcessKind::Target)), LifecycleAction::Unload);
    assert!(!lc.is_running());
    assert!(!lc.injected);
    assert_eq!(lc.step(false, LifecycleEvent::Poll), LifecycleAction::WatchStart);
}

#[test]
fn helper_process_wakes_watchers() {
    let mut lc = awaiting_start();
    assert_eq!(lc.step(false, LifecycleEvent::Started(ProcessKind::Helper)), LifecycleAction::Watch(WatchControl::End));
    assert_eq!(lc.phase, Phase::AwaitStart);
    let mut lc = awaiting_close();
    assert_eq!(lc.step(false, LifecycleEvent::Closed(ProcessKind::Helper)), LifecycleAction::Watch(WatchControl::End));
    assert!(lc.is_running());
    assert_eq!(lc.step(true, LifecycleEvent::Poll), LifecycleAction::Stop);
}

#[test]
fn reinjection_follows_unload() {
    let mut lc = awaiting_close();
    let mut actions = Vec::new();
    let events = [
        LifecycleEvent::Closed(ProcessKind::Target),
        LifecycleEvent::Poll,
        LifecycleEvent::Started(ProcessKind::Target),
        LifecycleEvent::WindowSearched(true),
        LifecycleEvent::Injected,
        LifecycleEvent::Poll,
    ];
    for e in events {
        actions.push(lc.step(false, e));
    }
    let unload = actions.iter().position(|a| *a == LifecycleAction::Unload).unwrap();
    let inject = actions.iter().position(|a| *a == LifecycleAction::Inject).unwrap();
    assert!(unload < inject);
    assert_eq!(actions.iter().filter(|a| **a == LifecycleAction::Inject).count(), 1);
    assert!(lc.injected);
}

#[test]
fn exit_flag_stops_orchestrator() {
    let mut lc = awaiting_start();
    assert_eq!(lc.step(true, LifecycleEvent::Started(ProcessKind::Target)), LifecycleAction::Stop);
    assert_eq!(lc.phase, Phase::AwaitStart);
    let mut lc = Lifecycle::new();
    assert_eq!(lc.step(true, LifecycleEvent::Poll), LifecycleAction::Stop);
}

#[test]
fn injection_errors_in_step_order() {
    assert_eq!(injection_outcome(false, false, 0, false), Err(InjectionError::ModuleNotFound));
    assert_eq!(injection_outcome(true, false, 0, false), Err(InjectionError::ExportNotFound));
    assert_eq!(injection_outcome(true, true, 0, true), Err(InjectionError::WindowNotFound));
    assert_eq!(injection_outcome(true, true, 7, false), Err(InjectionError::HookInstallFailed));
    assert_eq!(injection_outcome(true, true, u32::MAX, true), Ok(()));
    assert!(!must_release_module(InjectionError::ModuleNotFound));
    assert!(must_release_module(InjectionError::ExportNotFound));
    assert!(must_release_module(InjectionError::WindowNotFound));
    assert!(must_release_module(InjectionError::HookInstallFailed));
}

#[test]
fn dll_handle_slot_hands_back_previous() {
    let mut slot: Option<u32> = None;
    assert_eq!(set_dll_handle(&mut slot, Some(1)), None);
    assert_eq!(slot, Some(1));
    assert_eq!(set_dll_handle(&mut slot, None), Some(1));
    assert_eq!(slot, None);
}
