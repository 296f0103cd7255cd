//! When the notification is shown.
//!
//! The notification shows for a fixed time after the last signal, and only
//! while the observed application runs; while it shows, the application's
//! window is captured into frames. Times are milliseconds on one clock.

use vstd::prelude::*;

verus! {

/// One captured frame, as tightly packed RGBA bytes.
pub struct SharedFrame {
    pub width: u32,
    pub height: u32,
    pub rgba: Vec<u8>,
}

/// Whether a signal at time `last` has expired at time `now`, for a
/// notification that shows `show_ms` milliseconds.
pub open spec fn expired(last: u64, now: u64, show_ms: u64) -> bool {
    now > last + show_ms
}

/// Whether the notification shows at time `now`.
pub open spec fn visible_spec(last: Option<u64>, now: u64, running: bool, show_ms: u64) -> bool {
    running && match last {
        Some(t) => !expired(t, now, show_ms),
        None => false,
    }
}

/// Whether a signal at `last` has expired at `now`; computed without
/// overflow.
pub fn is_expired(last: u64, now: u64, show_ms: u64) -> (r: bool)
    ensures
        r == expired(last, now, show_ms),
{
    now > last && now - last > show_ms
}

/// Decides whether the notification shows at time `now`: the application
/// runs, a signal came, and it has not expired.
pub fn is_visible(last: Option<u64>, now: u64, running: bool, show_ms: u64) -> (r: bool)
    ensures
        r == visible_spec(last, now, running, show_ms),
{
    match last {
        Some(t) => running && !is_expired(t, now, show_ms),
        None => false,
    }
}

/// Whether a new capture must start: the notification shows and no capture
/// runs.
pub fn should_start_capture(visible: bool, capture_running: bool) -> (r: bool)
    ensures
        r == (visible && !capture_running),
{
    visible && !capture_running
}

/// Whether a running capture stops at time `now`: the exit flag is set, or
/// the notification no longer shows.
pub fn should_stop_capture(last: Option<u64>, now: u64, running: bool, exit: bool, show_ms: u64) -> (r: bool)
    ensures
        r == (exit || !visible_spec(last, now, running, show_ms)),
{
    exit || !is_visible(last, now, running, show_ms)
}

} // verus!
