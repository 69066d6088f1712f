//! The two background watchers of an instance: the poller that drains the
//! browser's control-channel events, and the watchdog that samples its process.

use vstd::prelude::*;

verus! {

/// Pause between two watchdog samples, in milliseconds.
pub const WATCHDOG_INTERVAL_MS: u64 = 100;

/// What the watchdog does after looking for its process.
#[derive(Debug, Clone, Copy, PartialEq, Eq, Structural)]
pub enum WatchdogAction {
    /// Record the sample, then look again after this many milliseconds.
    SampleAfter(u64),
    /// The process is gone: the watchdog ends.
    Stop,
}

/// The watchdog observes only: it keeps sampling while the process exists and
/// ends cleanly once it does not.
pub fn watchdog_step(process_alive: bool) -> (r: WatchdogAction)
    ensures
        process_alive ==> r == WatchdogAction::SampleAfter(WATCHDOG_INTERVAL_MS),
        !process_alive ==> r == WatchdogAction::Stop,
{
    if process_alive {
        WatchdogAction::SampleAfter(WATCHDOG_INTERVAL_MS)
    } else {
        WatchdogAction::Stop
    }
}

/// What the control channel yielded to the poller.
#[derive(Debug, Clone, Copy, PartialEq, Eq, Structural)]
pub enum PollerEvent {
    /// An event was handled.
    Handled,
    /// The channel reported an error.
    Failed,
    /// The channel's stream ended.
    Ended,
}

/// What the poller does next.
#[derive(Debug, Clone, Copy, PartialEq, Eq, Structural)]
pub enum PollerAction {
    /// Wait for the next event.
    Continue,
    /// End the poller; `failed` tells whether an error ended it.
    Stop { failed: bool },
}

/// The poller consumes events until the stream ends or yields an error; an
/// error ends only the poller.
pub fn poller_step(ev: PollerEvent) -> (r: PollerAction)
    ensures
        ev == PollerEvent::Handled ==> r == PollerAction::Continue,
        ev == PollerEvent::Failed ==> r == (PollerAction::Stop { failed: true }),
        ev == PollerEvent::Ended ==> r == (PollerAction::Stop { failed: false }),
{
    match ev {
        PollerEvent::Handled => PollerAction::Continue,
        PollerEvent::Failed => PollerAction::Stop { failed: true },
        PollerEvent::Ended => PollerAction::Stop { failed: false },
    }
}

} // verus!
