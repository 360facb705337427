//! The synchronization loop's state machine: polling, diffing,
//! retrying and shutting down, as pure transitions.
//!
//! The application runs the loop: it performs each [`LoopAction`]
//! (connect, sleep, scan, resolve-and-set, clear) and answers with the
//! matching [`LoopEvent`]; every decision — what to do next, which id
//! is displayed, when to forget it — is taken here and verified.

use vstd::prelude::*;
use crate::config::Configuration;
use crate::constants;

verus! {

/// The connection standing of the loop, as the design names it.
#[derive(Debug, Clone, Copy, PartialEq, Eq, Structural)]
pub enum ConnectionState {
    Disconnected,
    Connected,
}

/// What the loop waits on at each point.
#[derive(Debug, Clone, Copy, PartialEq, Eq, Structural)]
pub enum LoopPhase {
    /// A connect attempt is under way.
    AwaitingConnection,
    /// The long backoff after a failed connect attempt.
    ConnectBackoff,
    /// The liveness probe at the top of a tick.
    Probing,
    /// The long backoff after a failed probe; nothing is scanned or
    /// updated while disconnected.
    Reconnecting,
    /// The process snapshot is being scanned.
    Scanning,
    /// Metadata resolution and the activity update for this id.
    SettingActivity(u32),
    /// The displayed activity is being cleared.
    ClearingActivity,
    /// The short wait between ticks.
    TickWait,
    /// Cancellation was observed; the final best-effort clear runs.
    Finishing,
    /// The loop has exited.
    Done,
}

/// What the driver must do next.
#[derive(Debug, Clone, Copy, PartialEq, Eq, Structural)]
pub enum LoopAction {
    /// Attempt to connect to the backend; answer `Connected`.
    Connect,
    /// Sleep the long backoff, watching for cancellation; answer
    /// `Slept` or `Cancelled`.
    SleepLong,
    /// Probe connection liveness; answer `Probed`.
    Probe,
    /// Take and scan a process snapshot; answer `Scanned` with the
    /// first reported game's id.
    Scan,
    /// Resolve metadata for this id and push the activity update;
    /// answer `SetResult`.
    ResolveAndSet(u32),
    /// Clear the displayed activity; answer `ClearResult`.
    ClearActivity,
    /// Sleep the short poll interval, watching for cancellation
    /// first; answer `Slept` or `Cancelled`.
    SleepShort,
    /// Attempt one best-effort clear, then stop; answer `FinalCleared`.
    FinalClear,
    /// The loop is over; nothing more to do.
    Exit,
}

/// The driver's answer to the last action.
#[derive(Debug, Clone, Copy, PartialEq, Eq, Structural)]
pub enum LoopEvent {
    /// Whether the connect attempt succeeded.
    Connected(bool),
    /// A sleep ran its full course without cancellation.
    Slept,
    /// Cancellation was observed during a wait.
    Cancelled,
    /// Whether the liveness probe succeeded.
    Probed(bool),
    /// The id of the first running game the scan reported, `None`
    /// when no game is running.
    Scanned(Option<u32>),
    /// Whether resolving and setting the activity succeeded.
    SetResult(bool),
    /// Whether clearing the activity succeeded (forgotten either way).
    ClearResult(bool),
    /// The final clear attempt finished (either way).
    FinalCleared,
}

/// The loop's whole state.
#[derive(Debug, Clone, Copy, PartialEq, Eq, Structural)]
pub struct LoopState {
    /// What the loop waits on.
    pub phase: LoopPhase,
    /// The app id currently displayed; the sentinel when none is.
    pub displayed: u32,
    /// Whether the backend variant offers a liveness probe.  The
    /// session-based variant has none; its ticks start at the scan.
    pub can_probe: bool,
}

/// The phases that make up the polling steady state.
pub open spec fn in_polling(p: LoopPhase) -> bool {
    ||| p is Probing
    ||| p is Scanning
    ||| p matches LoopPhase::SettingActivity(_)
    ||| p is ClearingActivity
    ||| p is TickWait
}

/// The design's two-state connection view of a phase.
pub open spec fn connection_state(p: LoopPhase) -> ConnectionState {
    if in_polling(p) {
        ConnectionState::Connected
    } else {
        ConnectionState::Disconnected
    }
}

/// Where a tick begins: at the probe when the backend offers one, else
/// directly at the scan.
pub open spec fn tick_start(s: LoopState) -> (LoopState, LoopAction) {
    if s.can_probe {
        (LoopState { phase: LoopPhase::Probing, ..s }, LoopAction::Probe)
    } else {
        (LoopState { phase: LoopPhase::Scanning, ..s }, LoopAction::Scan)
    }
}

/// Which answers fit which phase: the driver's protocol obligation.
/// Cancellation is observed only during the waits.
pub open spec fn loop_expects(s: LoopState, e: LoopEvent) -> bool {
    match (s.phase, e) {
        (LoopPhase::AwaitingConnection, LoopEvent::Connected(_)) => true,
        (LoopPhase::ConnectBackoff, LoopEvent::Slept) => true,
        (LoopPhase::ConnectBackoff, LoopEvent::Cancelled) => true,
        (LoopPhase::Probing, LoopEvent::Probed(_)) => true,
        (LoopPhase::Reconnecting, LoopEvent::Slept) => true,
        (LoopPhase::Reconnecting, LoopEvent::Cancelled) => true,
        (LoopPhase::Scanning, LoopEvent::Scanned(_)) => true,
        (LoopPhase::SettingActivity(_), LoopEvent::SetResult(_)) => true,
        (LoopPhase::ClearingActivity, LoopEvent::ClearResult(_)) => true,
        (LoopPhase::TickWait, LoopEvent::Slept) => true,
        (LoopPhase::TickWait, LoopEvent::Cancelled) => true,
        (LoopPhase::Finishing, LoopEvent::FinalCleared) => true,
        _ => false,
    }
}

/// The loop's transition function.
///
/// Connect failures back off and retry without bound.  A failed probe
/// forgets the displayed id and backs off; ticks resume at the probe.
/// A scan showing no game clears only when something is displayed, and
/// the id is forgotten whether or not the clear succeeded.  A scanned
/// game triggers an update only when its id differs from the displayed
/// one; a failed update forgets the id so the next tick retries from
/// scratch.  Cancellation during a wait leads to one best-effort
/// clear and the exit; while still unconnected it exits directly.
pub open spec fn loop_step(s: LoopState, e: LoopEvent) -> (LoopState, LoopAction) {
    match (s.phase, e) {
        (LoopPhase::AwaitingConnection, LoopEvent::Connected(true)) => tick_start(s),
        (LoopPhase::AwaitingConnection, LoopEvent::Connected(false)) => (
            LoopState { phase: LoopPhase::ConnectBackoff, ..s },
            LoopAction::SleepLong,
        ),
        (LoopPhase::ConnectBackoff, LoopEvent::Slept) => (
            LoopState { phase: LoopPhase::AwaitingConnection, ..s },
            LoopAction::Connect,
        ),
        (LoopPhase::ConnectBackoff, LoopEvent::Cancelled) => (
            LoopState { phase: LoopPhase::Done, ..s },
            LoopAction::Exit,
        ),
        (LoopPhase::Probing, LoopEvent::Probed(true)) => (
            LoopState { phase: LoopPhase::Scanning, ..s },
            LoopAction::Scan,
        ),
        (LoopPhase::Probing, LoopEvent::Probed(false)) => (
            LoopState { phase: LoopPhase::Reconnecting, displayed: constants::NO_APPID, ..s },
            LoopAction::SleepLong,
        ),
        (LoopPhase::Reconnecting, LoopEvent::Slept) => (
            LoopState { phase: LoopPhase::Probing, ..s },
            LoopAction::Probe,
        ),
        (LoopPhase::Reconnecting, LoopEvent::Cancelled) => (
            LoopState { phase: LoopPhase::Finishing, ..s },
            LoopAction::FinalClear,
        ),
        (LoopPhase::Scanning, LoopEvent::Scanned(None)) => if s.displayed != constants::NO_APPID {
            (LoopState { phase: LoopPhase::ClearingActivity, ..s }, LoopAction::ClearActivity)
        } else {
            (LoopState { phase: LoopPhase::TickWait, ..s }, LoopAction::SleepShort)
        },
        (LoopPhase::Scanning, LoopEvent::Scanned(Some(id))) => if id != s.displayed {
            (LoopState { phase: LoopPhase::SettingActivity(id), ..s }, LoopAction::ResolveAndSet(id))
        } else {
            (LoopState { phase: LoopPhase::TickWait, ..s }, LoopAction::SleepShort)
        },
        (LoopPhase::SettingActivity(id), LoopEvent::SetResult(ok)) => (
            LoopState {
                phase: LoopPhase::TickWait,
                displayed: if ok {
                    id
                } else {
                    constants::NO_APPID
                },
                ..s
            },
            LoopAction::SleepShort,
        ),
        (LoopPhase::ClearingActivity, LoopEvent::ClearResult(_)) => (
            LoopState { phase: LoopPhase::TickWait, displayed: constants::NO_APPID, ..s },
            LoopAction::SleepShort,
        ),
        (LoopPhase::TickWait, LoopEvent::Slept) => tick_start(s),
        (LoopPhase::TickWait, LoopEvent::Cancelled) => (
            LoopState { phase: LoopPhase::Finishing, ..s },
            LoopAction::FinalClear,
        ),
        (LoopPhase::Finishing, LoopEvent::FinalCleared) => (
            LoopState { phase: LoopPhase::Done, ..s },
            LoopAction::Exit,
        ),
        _ => (s, LoopAction::Exit),
    }
}

/// Validates the configuration and sets the loop up.  An invalid
/// configuration fails here, before any network or backend action is
/// even named; otherwise the first action is the connect attempt.
pub fn loop_start(config: &Configuration, can_probe: bool) -> (r: Result<
    (LoopState, LoopAction),
    String,
>)
    ensures
        config.discord_client_id@.len() == 0 ==> r is Err,
        config.discord_client_id@.len() != 0 ==> r == Ok::<(LoopState, LoopAction), String>(
            (
                LoopState {
                    phase: LoopPhase::AwaitingConnection,
                    displayed: constants::NO_APPID,
                    can_probe,
                },
                LoopAction::Connect,
            ),
        ),
{
    match crate::config::validate_config(config) {
        Ok(()) => Ok(
            (
                LoopState {
                    phase: LoopPhase::AwaitingConnection,
                    displayed: constants::NO_APPID,
                    can_probe,
                },
                LoopAction::Connect,
            ),
        ),
        Err(m) => Err(m),
    }
}

/// Applies the driver's answer to the pending action and yields the
/// next action.
pub fn detection_step(s: &mut LoopState, e: LoopEvent) -> (a: LoopAction)
    requires
        loop_expects(*old(s), e),
    ensures
        (*final(s), a) == loop_step(*old(s), e),
{
    let (next, action): (LoopState, LoopAction) = match (s.phase, e) {
        (LoopPhase::AwaitingConnection, LoopEvent::Connected(true)) => if s.can_probe {
            (LoopState { phase: LoopPhase::Probing, ..*s }, LoopAction::Probe)
        } else {
            (LoopState { phase: LoopPhase::Scanning, ..*s }, LoopAction::Scan)
        },
        (LoopPhase::AwaitingConnection, LoopEvent::Connected(false)) => (
            LoopState { phase: LoopPhase::ConnectBackoff, ..*s },
            LoopAction::SleepLong,
        ),
        (LoopPhase::ConnectBackoff, LoopEvent::Slept) => (
            LoopState { phase: LoopPhase::AwaitingConnection, ..*s },
            LoopAction::Connect,
        ),
        (LoopPhase::ConnectBackoff, LoopEvent::Cancelled) => (
            LoopState { phase: LoopPhase::Done, ..*s },
            LoopAction::Exit,
        ),
        (LoopPhase::Probing, LoopEvent::Probed(true)) => (
            LoopState { phase: LoopPhase::Scanning, ..*s },
            LoopAction::Scan,
        ),
        (LoopPhase::Probing, LoopEvent::Probed(false)) => (
            LoopState { phase: LoopPhase::Reconnecting, displayed: constants::NO_APPID, ..*s },
            LoopAction::SleepLong,
        ),
        (LoopPhase::Reconnecting, LoopEvent::Slept) => (
            LoopState { phase: LoopPhase::Probing, ..*s },
            LoopAction::Probe,
        ),
        (LoopPhase::Reconnecting, LoopEvent::Cancelled) => (
            LoopState { phase: LoopPhase::Finishing, ..*s },
            LoopAction::FinalClear,
        ),
        (LoopPhase::Scanning, LoopEvent::Scanned(None)) => if s.displayed
            != constants::NO_APPID {
            (LoopState { phase: LoopPhase::ClearingActivity, ..*s }, LoopAction::ClearActivity)
        } else {
            (LoopState { phase: LoopPhase::TickWait, ..*s }, LoopAction::SleepShort)
        },
        (LoopPhase::Scanning, LoopEvent::Scanned(Some(id))) => if id != s.displayed {
            (
                LoopState { phase: LoopPhase::SettingActivity(id), ..*s },
                LoopAction::ResolveAndSet(id),
            )
        } else {
            (LoopState { phase: LoopPhase::TickWait, ..*s }, LoopAction::SleepShort)
        },
        (LoopPhase::SettingActivity(id), LoopEvent::SetResult(ok)) => (
            LoopState {
                phase: LoopPhase::TickWait,
                displayed: if ok {
                    id
                } else {
                    constants::NO_APPID
                },
                ..*s
            },
            LoopAction::SleepShort,
        ),
        (LoopPhase::ClearingActivity, LoopEvent::ClearResult(_)) => (
            LoopState { phase: LoopPhase::TickWait, displayed: constants::NO_APPID, ..*s },
            LoopAction::SleepShort,
        ),
        (LoopPhase::TickWait, LoopEvent::Slept) => if s.can_probe {
            (LoopState { phase: LoopPhase::Probing, ..*s }, LoopAction::Probe)
        } else {
            (LoopState { phase: LoopPhase::Scanning, ..*s }, LoopAction::Scan)
        },
        (LoopPhase::TickWait, LoopEvent::Cancelled) => (
            LoopState { phase: LoopPhase::Finishing, ..*s },
            LoopAction::FinalClear,
        ),
        (LoopPhase::Finishing, LoopEvent::FinalCleared) => (
            LoopState { phase: LoopPhase::Done, ..*s },
            LoopAction::Exit,
        ),
        _ => (*s, LoopAction::Exit),
    };
    *s = next;
    action
}

// ---------------------------------------------------------------------
// Laws of the loop
// ---------------------------------------------------------------------

/// No redundant update: an activity update is only ever issued for an
/// id that differs from the displayed one, and a clear only while
/// something is displayed.
pub proof fn lemma_no_redundant_update(s: LoopState, e: LoopEvent)
    ensures
        loop_step(s, e).1 matches LoopAction::ResolveAndSet(id) ==> id != s.displayed,
        loop_step(s, e).1 is ClearActivity ==> s.displayed != constants::NO_APPID,
{
}

/// Convergence of the loop on the scan sequence "one game, none, a
/// different game": starting a tick with nothing displayed, the loop
/// issues exactly one update for the first game, exactly one clear
/// when it disappears, and exactly one update for the second game —
/// with only waits and scans in between, and never a redundant update.
pub proof fn lemma_loop_convergence(a: u32, b: u32, s0: LoopState)
    requires
        s0.phase is Scanning,
        s0.displayed == constants::NO_APPID,
        !s0.can_probe,
        a != constants::NO_APPID,
        b != constants::NO_APPID,
        b != a,
    ensures
        ({
            let (s1, a1) = loop_step(s0, LoopEvent::Scanned(Some(a)));
            let (s2, a2) = loop_step(s1, LoopEvent::SetResult(true));
            let (s3, a3) = loop_step(s2, LoopEvent::Slept);
            let (s4, a4) = loop_step(s3, LoopEvent::Scanned(None));
            let (s5, a5) = loop_step(s4, LoopEvent::ClearResult(true));
            let (s6, a6) = loop_step(s5, LoopEvent::Slept);
            let (s7, a7) = loop_step(s6, LoopEvent::Scanned(Some(b)));
            &&& a1 == LoopAction::ResolveAndSet(a)
            &&& a2 == LoopAction::SleepShort
            &&& s2.displayed == a
            &&& a3 == LoopAction::Scan
            &&& a4 == LoopAction::ClearActivity
            &&& a5 == LoopAction::SleepShort
            &&& s5.displayed == constants::NO_APPID
            &&& a6 == LoopAction::Scan
            &&& a7 == LoopAction::ResolveAndSet(b)
        }),
{
}

/// A second scan of the game already displayed issues no update at
/// all: the tick goes straight back to its wait.
pub proof fn lemma_same_game_is_quiet(s: LoopState, id: u32)
    requires
        s.phase is Scanning,
        s.displayed == id,
    ensures
        loop_step(s, LoopEvent::Scanned(Some(id))).1 == LoopAction::SleepShort,
        loop_step(s, LoopEvent::Scanned(Some(id))).0.displayed == id,
{
}

/// Failed connect attempts only ever back off and retry: after any
/// number of failures the loop still awaits the connection, sleeping
/// the long backoff between attempts, and enters polling exactly when
/// a connect attempt succeeds.  Spelled out for three failures.
pub proof fn lemma_connect_retries(s0: LoopState)
    requires
        s0.phase is AwaitingConnection,
    ensures
        ({
            let (s1, a1) = loop_step(s0, LoopEvent::Connected(false));
            let (s2, a2) = loop_step(s1, LoopEvent::Slept);
            let (s3, a3) = loop_step(s2, LoopEvent::Connected(false));
            let (s4, a4) = loop_step(s3, LoopEvent::Slept);
            let (s5, a5) = loop_step(s4, LoopEvent::Connected(false));
            let (s6, a6) = loop_step(s5, LoopEvent::Slept);
            let (s7, a7) = loop_step(s6, LoopEvent::Connected(true));
            &&& a1 == LoopAction::SleepLong && s1.phase is ConnectBackoff
            &&& a2 == LoopAction::Connect && s2.phase is AwaitingConnection
            &&& a3 == LoopAction::SleepLong && s3.phase is ConnectBackoff
            &&& a4 == LoopAction::Connect && s4.phase is AwaitingConnection
            &&& a5 == LoopAction::SleepLong && s5.phase is ConnectBackoff
            &&& a6 == LoopAction::Connect && s6.phase is AwaitingConnection
            &&& in_polling(s7.phase)
        }),
{
}

/// A failed connect attempt never enters polling: the loop stays on
/// the disconnected side until an attempt succeeds.
pub proof fn lemma_no_early_polling(s: LoopState)
    requires
        s.phase is AwaitingConnection,
    ensures
        !in_polling(loop_step(s, LoopEvent::Connected(false)).0.phase),
        connection_state(loop_step(s, LoopEvent::Connected(false)).0.phase)
            is Disconnected,
        in_polling(loop_step(s, LoopEvent::Connected(true)).0.phase),
{
}

} // verus!
