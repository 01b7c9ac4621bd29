use vstd::prelude::*;

verus! {

/// Signal sent over the watchdog-stop channel to make the monitor starve the
/// hardware watchdog deliberately, forcing a bounded-time hardware reset.
#[derive(Clone, Copy, Debug, PartialEq, Eq, Structural)]
pub enum StopWatchdog {
    Yes,
}

/// State of the watchdog monitor. `Feeding` is the default; `Stopped` is
/// terminal and leads to an external hardware reset. There is no in-software
/// recovery from `Stopped`.
#[derive(Clone, Copy, Debug, PartialEq, Eq, Structural)]
pub enum WatchdogState {
    Feeding,
    Stopped,
}

/// Period in milliseconds on which the monitor refreshes the hardware
/// watchdog while `Feeding`.
pub const WATCHDOG_FEED_INTERVAL_MS: u64 = 750;

/// Timeout in milliseconds the hardware watchdog is started with. The feed
/// interval is strictly shorter, so a reset follows in bounded time once
/// feeding stops.
pub const WATCHDOG_TIMEOUT_MS: u64 = 1050;

/// What one tick of the monitor does: while `Feeding` it refreshes the
/// hardware watchdog and then moves to `Stopped` exactly when a stop signal
/// is pending; `Stopped` is absorbing and never feeds again.
pub open spec fn spec_feed_watchdog(state: WatchdogState, signal: Option<StopWatchdog>) -> (
    WatchdogState,
    bool,
) {
    match state {
        WatchdogState::Stopped => (WatchdogState::Stopped, false),
        WatchdogState::Feeding => {
            if signal is Some {
                (WatchdogState::Stopped, true)
            } else {
                (WatchdogState::Feeding, true)
            }
        },
    }
}

/// One tick of the watchdog monitor task. `signal` is what a non-blocking
/// receive on the watchdog-stop channel returned; the result says whether the
/// hardware watchdog was refreshed on this tick.
pub fn feed_watchdog(state: &mut WatchdogState, signal: Option<StopWatchdog>) -> (fed: bool)
    ensures
        *final(state) == spec_feed_watchdog(*old(state), signal).0,
        fed == spec_feed_watchdog(*old(state), signal).1,
        *old(state) is Stopped ==> *final(state) is Stopped && !fed,
{
    match state {
        WatchdogState::Stopped => false,
        WatchdogState::Feeding => {
            match signal {
                Some(StopWatchdog::Yes) => {
                    *state = WatchdogState::Stopped;
                },
                None => {},
            }
            true
        },
    }
}

/// The state the monitor is in after the first `i` ticks of `signals`, having
/// started in `Stopped`.
pub open spec fn run_from_stopped(signals: Seq<Option<StopWatchdog>>, i: int) -> WatchdogState
    decreases i,
{
    if i <= 0 {
        WatchdogState::Stopped
    } else {
        spec_feed_watchdog(run_from_stopped(signals, i - 1), signals[i - 1]).0
    }
}

/// Fail-stop is irreversible: once the monitor has stopped, no sequence of
/// later ticks, whatever signals they carry, ever leaves `Stopped` or feeds
/// the hardware watchdog again, so the pending hardware reset cannot be
/// averted in software.
pub proof fn lemma_stopped_is_terminal(signals: Seq<Option<StopWatchdog>>, i: int)
    requires
        0 <= i,
    ensures
        run_from_stopped(signals, i) == WatchdogState::Stopped,
        !spec_feed_watchdog(run_from_stopped(signals, i), signals[i]).1,
    decreases i,
{
    if i > 0 {
        lemma_stopped_is_terminal(signals, i - 1);
    }
}

} // verus!
