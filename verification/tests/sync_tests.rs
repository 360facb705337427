use discord_rpc_helper::config::Configuration;
use discord_rpc_helper::sync::{
    detection_step, loop_start, LoopAction, LoopEvent, LoopPhase, LoopState,
};

fn started(can_probe: bool) -> LoopState {
    let config = Configuration {
        discord_client_id: "5456".to_string(),
    };
    let (state, action) = loop_start(&config, can_probe).unwrap();
    assert_eq!(action, LoopAction::Connect);
    state
}

#[test]
fn loop_converges_on_game_change() {
    let mut s = started(false);

    // The backend connects; the first tick begins with a scan.
    assert_eq!(detection_step(&mut s, LoopEvent::Connected(true)), LoopAction::Scan);

    // One game appears: exactly one update.
    assert_eq!(
        detection_step(&mut s, LoopEvent::Scanned(Some(10))),
        LoopAction::ResolveAndSet(10)
    );
    assert_eq!(detection_step(&mut s, LoopEvent::SetResult(true)), LoopAction::SleepShort);
    assert_eq!(s.displayed, 10);

    // The game disappears: exactly one clear.
    assert_eq!(detection_step(&mut s, LoopEvent::Slept), LoopAction::Scan);
    assert_eq!(detection_step(&mut s, LoopEvent::Scanned(None)), LoopAction::ClearActivity);
    assert_eq!(detection_step(&mut s, LoopEvent::ClearResult(true)), LoopAction::SleepShort);
    assert_eq!(s.displayed, 0);

    // A different game appears: exactly one update.
    assert_eq!(detection_step(&mut s, LoopEvent::Slept), LoopAction::Scan);
    assert_eq!(
        detection_step(&mut s, LoopEvent::Scanned(Some(20))),
        LoopAction::ResolveAndSet(20)
    );
}

#[test]
fn displayed_game_is_never_set_again() {
    let mut s = started(false);
    detection_step(&mut s, LoopEvent::Connected(true));
    detection_step(&mut s, LoopEvent::Scanned(Some(10)));
    detection_step(&mut s, LoopEvent::SetResult(true));
    detection_step(&mut s, LoopEvent::Slept);

    // The same game is still running: no redundant update.
    assert_eq!(detection_step(&mut s, LoopEvent::Scanned(Some(10))), LoopAction::SleepShort);
    assert_eq!(s.displayed, 10);
}

#[test]
fn no_game_and_nothing_displayed_is_a_noop() {
    let mut s = started(false);
    detection_step(&mut s, LoopEvent::Connected(true));

    assert_eq!(detection_step(&mut s, LoopEvent::Scanned(None)), LoopAction::SleepShort);
    assert_eq!(s.displayed, 0);
}

#[test]
fn failed_update_forgets_the_displayed_id() {
    let mut s = started(false);
    detection_step(&mut s, LoopEvent::Connected(true));
    detection_step(&mut s, LoopEvent::Scanned(Some(10)));

    assert_eq!(detection_step(&mut s, LoopEvent::SetResult(false)), LoopAction::SleepShort);
    assert_eq!(s.displayed, 0, "a failed update must fall back to the sentinel");

    // The next tick retries from scratch.
    assert_eq!(detection_step(&mut s, LoopEvent::Slept), LoopAction::Scan);
    assert_eq!(
        detection_step(&mut s, LoopEvent::Scanned(Some(10))),
        LoopAction::ResolveAndSet(10)
    );
}

#[test]
fn connect_retries_three_times_then_polls() {
    let mut s = started(false);

    for _ in 0..3 {
        assert_eq!(s.phase, LoopPhase::AwaitingConnection);
        assert_eq!(
            detection_step(&mut s, LoopEvent::Connected(false)),
            LoopAction::SleepLong,
            "each failed attempt sleeps the long backoff"
        );
        assert_eq!(s.phase, LoopPhase::ConnectBackoff);
        assert_eq!(detection_step(&mut s, LoopEvent::Slept), LoopAction::Connect);
    }

    assert_eq!(detection_step(&mut s, LoopEvent::Connected(true)), LoopAction::Scan);
    assert_eq!(s.phase, LoopPhase::Scanning, "polling starts only after a success");
}

#[test]
fn failed_probe_backs_off_and_forgets() {
    let mut s = started(true);
    assert_eq!(detection_step(&mut s, LoopEvent::Connected(true)), LoopAction::Probe);
    detection_step(&mut s, LoopEvent::Probed(true));
    detection_step(&mut s, LoopEvent::Scanned(Some(10)));
    detection_step(&mut s, LoopEvent::SetResult(true));
    detection_step(&mut s, LoopEvent::Slept);

    assert_eq!(detection_step(&mut s, LoopEvent::Probed(false)), LoopAction::SleepLong);
    assert_eq!(s.phase, LoopPhase::Reconnecting);
    assert_eq!(s.displayed, 0, "nothing counts as displayed while disconnected");

    // While disconnected nothing is scanned; the probe is retried.
    assert_eq!(detection_step(&mut s, LoopEvent::Slept), LoopAction::Probe);
}

#[test]
fn cancellation_clears_once_and_exits() {
    let mut s = started(false);
    detection_step(&mut s, LoopEvent::Connected(true));
    detection_step(&mut s, LoopEvent::Scanned(Some(10)));
    detection_step(&mut s, LoopEvent::SetResult(true));

    assert_eq!(detection_step(&mut s, LoopEvent::Cancelled), LoopAction::FinalClear);
    assert_eq!(detection_step(&mut s, LoopEvent::FinalCleared), LoopAction::Exit);
    assert_eq!(s.phase, LoopPhase::Done);
}

#[test]
fn cancellation_before_any_connection_exits_directly() {
    let mut s = started(false);
    detection_step(&mut s, LoopEvent::Connected(false));

    assert_eq!(detection_step(&mut s, LoopEvent::Cancelled), LoopAction::Exit);
    assert_eq!(s.phase, LoopPhase::Done);
}
