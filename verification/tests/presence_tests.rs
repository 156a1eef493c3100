use discord_imhex::imhex::WindowObserver;
use discord_imhex::presence::{
    derive_activity, loop_step, session_step, tick, ActivityTracker, AppState, LoopDirective,
    PresenceAction, SessionCommand, SessionEvent, SessionState,
};
use discord_imhex::AppError;

#[test]
fn test_derive_activity_analyzing() {
    let a = derive_activity(Some("report.bin"));
    assert_eq!(a.details, "Analyzing: [report.bin]");
    assert_eq!(a.state, "Bytes: [0x2E-0x74]");
}

#[test]
fn test_derive_activity_idle_for_sentinel() {
    let a = derive_activity(Some("ImHex"));
    assert_eq!(a.details, "Idle");
    assert_eq!(a.state, "Bytes: [0x00-0x00]");
}

#[test]
fn test_derive_activity_no_window() {
    let a = derive_activity(None);
    assert_eq!(a.details, "Idle");
    assert_eq!(a.state, "");
}

#[test]
fn test_identical_ticks_publish_once() {
    let mut state = AppState::new();
    let mut tracker = ActivityTracker::new();
    let a1 = tick(&mut state, &mut tracker, true, Some("report.bin"), 100);
    match a1 {
        Some(PresenceAction::Publish(u)) => {
            assert_eq!(u.activity.details, "Analyzing: [report.bin]");
            assert_eq!(u.start_time, Some(100));
        },
        other => panic!("expected a publish, got {:?}", other.is_some()),
    }
    // the second tick derives the identical activity: no second publish
    let a2 = tick(&mut state, &mut tracker, true, Some("report.bin"), 101);
    assert!(a2.is_none());
}

#[test]
fn test_start_time_recorded_once() {
    let mut state = AppState::new();
    let mut tracker = ActivityTracker::new();
    let _ = tick(&mut state, &mut tracker, true, Some("a.bin"), 42);
    assert_eq!(state.start_time, Some(42));
    // a later publish still carries the original start
    let a = tick(&mut state, &mut tracker, true, Some("b.bin"), 50);
    match a {
        Some(PresenceAction::Publish(u)) => assert_eq!(u.start_time, Some(42)),
        other => panic!("expected a publish, got {:?}", other.is_some()),
    }
}

#[test]
fn test_clear_exactly_once_across_stopped_ticks() {
    let mut state = AppState::new();
    let mut tracker = ActivityTracker::new();
    let _ = tick(&mut state, &mut tracker, true, Some("report.bin"), 10);
    let c1 = tick(&mut state, &mut tracker, false, None, 11);
    assert!(matches!(c1, Some(PresenceAction::ClearActivity)));
    // further not-running ticks issue nothing
    assert!(tick(&mut state, &mut tracker, false, None, 12).is_none());
    assert!(tick(&mut state, &mut tracker, false, None, 13).is_none());
    assert_eq!(state.start_time, None);
}

#[test]
fn test_no_window_publishes_idle_without_start() {
    let mut state = AppState::new();
    let mut tracker = ActivityTracker::new();
    let a = tick(&mut state, &mut tracker, true, None, 7);
    match a {
        Some(PresenceAction::Publish(u)) => {
            assert_eq!(u.activity.state, "");
            assert_eq!(u.activity.details, "Idle");
            assert_eq!(u.start_time, None);
        },
        other => panic!("expected a publish, got {:?}", other.is_some()),
    }
}

#[test]
fn test_end_to_end_tick_sequence() {
    // the session connects first
    let (session, cmd) = session_step(SessionState::Disconnected, SessionEvent::ConnectSucceeded);
    assert_eq!(session, SessionState::Connected);
    assert_eq!(cmd, SessionCommand::Proceed);

    let mut obs = WindowObserver::new();
    let mut state = AppState::new();
    let mut tracker = ActivityTracker::new();
    let mut published: Vec<String> = Vec::new();
    let mut clears: usize = 0;

    let ticks: Vec<(bool, Vec<String>)> = vec![
        (false, vec![]),
        (true, vec!["ImHex - report.bin".to_string()]),
        (true, vec!["ImHex - report.bin".to_string()]),
        (false, vec![]),
    ];
    for (running, titles) in &ticks {
        let file = if *running {
            obs.check_if_imhex_window_exists(titles).0
        } else {
            None
        };
        match tick(&mut state, &mut tracker, *running, file.as_deref(), 1000) {
            Some(PresenceAction::Publish(u)) => published.push(u.activity.details),
            Some(PresenceAction::ClearActivity) => clears += 1,
            None => {},
        }
    }
    // exactly one publish, on the first running tick; nothing on the third;
    // exactly one clear, on the last tick
    assert_eq!(published, vec!["Analyzing: [report.bin]".to_string()]);
    assert_eq!(clears, 1);
}

#[test]
fn test_shutdown_stops_with_one_final_clear() {
    let mut state = AppState::new();
    let mut tracker = ActivityTracker::new();
    // a normal tick completes first
    let d1 = loop_step(&mut state, &mut tracker, false, true, Some("a.bin"), 5);
    assert!(matches!(d1, LoopDirective::Continue(Some(PresenceAction::Publish(_)))));
    // the flag is set: the next step runs no tick and directs the stop
    let d2 = loop_step(&mut state, &mut tracker, true, true, Some("a.bin"), 6);
    assert!(matches!(d2, LoopDirective::Stop));
    // the caller owes the broker exactly one final clear, then exits
    tracker.clear_activity();
    assert!(tracker.last_activity.is_none());
    // the directive stays Stop however often the flag is read
    let d3 = loop_step(&mut state, &mut tracker, true, false, None, 7);
    assert!(matches!(d3, LoopDirective::Stop));
}

#[test]
fn test_update_activity_suppression() {
    let mut tracker = ActivityTracker::new();
    let first = tracker.update_activity("s".to_string(), "d".to_string(), Some(1));
    assert!(first.is_some());
    let second = tracker.update_activity("s".to_string(), "d".to_string(), Some(2));
    assert!(second.is_none());
    // a changed payload publishes again
    let third = tracker.update_activity("s".to_string(), "d2".to_string(), Some(3));
    assert!(third.is_some());
}

#[test]
fn test_session_lifecycle_table() {
    assert_eq!(
        session_step(SessionState::Disconnected, SessionEvent::ConnectFailed),
        (SessionState::Disconnected, SessionCommand::RetryAfterDelay)
    );
    assert_eq!(
        session_step(SessionState::Disconnected, SessionEvent::ConnectSucceeded),
        (SessionState::Connected, SessionCommand::Proceed)
    );
    assert_eq!(
        session_step(SessionState::Connected, SessionEvent::PublishSucceeded),
        (SessionState::Connected, SessionCommand::Proceed)
    );
    assert_eq!(
        session_step(SessionState::Connected, SessionEvent::PublishFailed),
        (SessionState::Disconnected, SessionCommand::Teardown)
    );
    assert_eq!(
        session_step(SessionState::Connected, SessionEvent::ClearSucceeded),
        (SessionState::Connected, SessionCommand::Proceed)
    );
    assert_eq!(
        session_step(SessionState::Connected, SessionEvent::ClearFailed),
        (SessionState::Disconnected, SessionCommand::Teardown)
    );
}

#[test]
fn test_error_messages() {
    assert_eq!(AppError::Discord("x".to_string()).message(), "Discord error: x");
    assert_eq!(AppError::Filesystem("y".to_string()).message(), "Filesystem error: y");
    assert_eq!(AppError::Configuration("z".to_string()).message(), "Configuration error: z");
}
