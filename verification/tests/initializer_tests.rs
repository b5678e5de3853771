use survey_backend::backoff::secs_to_nanos;
use survey_backend::initializer::{Action, Event, Initializer, Phase, STARTUP_WINDOW_SECS};

/// Drives an initializer against a database that opens at `ready_at_secs`
/// (never, if `None`). Attempts take no time; pauses take what was asked.
/// Returns the last action, the attempts made, and the clock in seconds.
fn drive(window_secs: u64, ready_at_secs: Option<u64>) -> (Action, u64, u64) {
    let (mut init, mut action) = Initializer::start(secs_to_nanos(window_secs));
    let mut clock_secs: u64 = 0;
    let mut connects: u64 = 0;
    let mut steps: u32 = 0;
    loop {
        steps += 1;
        assert!(steps < 10_000, "the initializer did not settle");
        match action {
            Action::Connect => {
                connects += 1;
                let ready: bool = match ready_at_secs {
                    Some(at) => clock_secs >= at,
                    None => false,
                };
                action = init.step(if ready { Event::Connected } else { Event::ConnectFailed });
            }
            Action::Sleep { secs } => {
                clock_secs += secs;
                action = init.step(Event::Slept { elapsed_nanos: secs_to_nanos(clock_secs) });
            }
            Action::Finish | Action::Abort { .. } => {
                assert_eq!(init.attempts(), connects);
                assert!(init.is_settled());
                return (action, connects, clock_secs);
            }
        }
    }
}

#[test]
fn first_action_is_always_connect() {
    let windows: Vec<u128> = vec![0, 1, 999_999_999, 1_000_000_000, 600_000_000_000, u128::MAX];
    for window in windows {
        let (init, action) = Initializer::start(window);
        assert_eq!(action, Action::Connect);
        assert_eq!(init.phase(), Phase::Attempting);
        assert_eq!(init.attempts(), 1);
        assert_eq!(init.window_nanos(), window);
        assert_eq!(init.pending(), Action::Connect);
        assert!(!init.is_settled());
    }
}

#[test]
fn zero_window_attempts_exactly_once_then_aborts() {
    let (mut init, action) = Initializer::start(0);
    assert_eq!(action, Action::Connect);
    assert_eq!(init.step(Event::ConnectFailed), Action::Sleep { secs: 5 });
    assert_eq!(init.phase(), Phase::Sleeping);
    assert_eq!(
        init.step(Event::Slept { elapsed_nanos: 5_000_000_000 }),
        Action::Abort { window_secs: 0 }
    );
    assert_eq!(init.phase(), Phase::FatallyFailed);
    assert_eq!(init.attempts(), 1);
    assert!(init.is_settled());

    let (last, connects, clock_secs) = drive(0, None);
    assert_eq!(last, Action::Abort { window_secs: 0 });
    assert_eq!(connects, 1);
    assert_eq!(clock_secs, 5);
}

#[test]
fn zero_window_still_succeeds_if_the_first_attempt_does() {
    let (mut init, _) = Initializer::start(0);
    assert_eq!(init.step(Event::Connected), Action::Finish);
    assert_eq!(init.phase(), Phase::Succeeded);
    assert_eq!(init.attempts(), 1);
}

#[test]
fn database_ready_after_twelve_seconds_of_a_thirty_second_window() {
    let (last, connects, clock_secs) = drive(30, Some(12));
    assert_eq!(last, Action::Finish);
    // attempts at 0, 5 and 10 seconds fail; the one at 15 seconds succeeds
    assert_eq!(connects, 4);
    assert_eq!(clock_secs, 15);
    assert!(clock_secs - 12 <= 5);
}

#[test]
fn elapsed_time_is_taken_as_reported_not_counted_anew() {
    let (mut init, _) = Initializer::start(secs_to_nanos(30));
    assert_eq!(init.step(Event::ConnectFailed), Action::Sleep { secs: 5 });
    // a slow attempt: 29 seconds have passed when the first pause is over
    assert_eq!(init.step(Event::Slept { elapsed_nanos: secs_to_nanos(29) }), Action::Connect);
    assert_eq!(init.attempts(), 2);
    assert_eq!(init.step(Event::ConnectFailed), Action::Sleep { secs: 5 });
    assert_eq!(
        init.step(Event::Slept { elapsed_nanos: secs_to_nanos(34) }),
        Action::Abort { window_secs: 30 }
    );
    assert_eq!(init.attempts(), 2);
}

#[test]
fn the_window_is_held_to_the_nanosecond() {
    let (mut init, _) = Initializer::start(30_500_000_000);
    init.step(Event::ConnectFailed);
    assert_eq!(init.step(Event::Slept { elapsed_nanos: 30_499_999_999 }), Action::Connect);
    init.step(Event::ConnectFailed);
    assert_eq!(
        init.step(Event::Slept { elapsed_nanos: 30_500_000_000 }),
        Action::Abort { window_secs: 30 }
    );
}

#[test]
fn failure_comes_within_one_pause_of_the_window() {
    let windows: Vec<u64> = vec![0, 1, 4, 5, 6, 30, 99, 100, 101, 250, 299, 300, 310, 600, 601];
    for window in windows {
        let (last, connects, clock_secs) = drive(window, None);
        let pause: u64 = survey_backend::backoff::backoff_interval(window);
        assert_eq!(last, Action::Abort { window_secs: window as u128 });
        assert!(clock_secs >= window, "window {} failed at {}", window, clock_secs);
        assert!(clock_secs <= window + pause, "window {} failed at {}", window, clock_secs);
        assert_eq!(clock_secs, connects * pause);
        assert!(connects >= 1);
    }
}

#[test]
fn startup_window_is_ten_minutes() {
    assert_eq!(STARTUP_WINDOW_SECS, 60 * 10);
}

#[test]
fn six_hundred_second_window_makes_ten_attempts() {
    let (last, connects, clock_secs) = drive(STARTUP_WINDOW_SECS, None);
    assert_eq!(last, Action::Abort { window_secs: 600 });
    assert_eq!(connects, 10);
    assert_eq!(clock_secs, 600);
}

#[test]
fn pause_follows_the_window() {
    let cases: Vec<(u64, u64)> = vec![(0, 5), (99, 5), (100, 10), (300, 30), (310, 60), (600, 60)];
    for (window, pause) in cases {
        let (mut init, _) = Initializer::start(secs_to_nanos(window));
        assert_eq!(init.step(Event::ConnectFailed), Action::Sleep { secs: pause });
        assert_eq!(init.pending(), Action::Sleep { secs: pause });
    }
}

#[test]
fn events_out_of_turn_change_nothing() {
    let (mut init, _) = Initializer::start(secs_to_nanos(30));
    assert_eq!(init.step(Event::Slept { elapsed_nanos: secs_to_nanos(100) }), Action::Connect);
    assert_eq!(init.phase(), Phase::Attempting);
    assert_eq!(init.attempts(), 1);

    assert_eq!(init.step(Event::ConnectFailed), Action::Sleep { secs: 5 });
    assert_eq!(init.step(Event::ConnectFailed), Action::Sleep { secs: 5 });
    assert_eq!(init.step(Event::Connected), Action::Sleep { secs: 5 });
    assert_eq!(init.phase(), Phase::Sleeping);
    assert_eq!(init.attempts(), 1);
}

#[test]
fn final_phases_are_final() {
    let (mut ok, _) = Initializer::start(secs_to_nanos(30));
    assert_eq!(ok.step(Event::Connected), Action::Finish);
    assert_eq!(ok.step(Event::ConnectFailed), Action::Finish);
    assert_eq!(ok.step(Event::Slept { elapsed_nanos: u128::MAX }), Action::Finish);
    assert_eq!(ok.step(Event::Connected), Action::Finish);
    assert_eq!(ok.phase(), Phase::Succeeded);

    let (mut failed, _) = Initializer::start(0);
    failed.step(Event::ConnectFailed);
    failed.step(Event::Slept { elapsed_nanos: 1 });
    assert_eq!(failed.phase(), Phase::FatallyFailed);
    assert_eq!(failed.step(Event::Connected), Action::Abort { window_secs: 0 });
    assert_eq!(failed.step(Event::ConnectFailed), Action::Abort { window_secs: 0 });
    assert_eq!(failed.step(Event::Slept { elapsed_nanos: 0 }), Action::Abort { window_secs: 0 });
    assert_eq!(failed.phase(), Phase::FatallyFailed);
    assert_eq!(failed.attempts(), 1);
}

#[test]
fn abort_reports_whole_seconds_of_the_window() {
    let (mut init, _) = Initializer::start(1_999_999_999);
    init.step(Event::ConnectFailed);
    assert_eq!(
        init.step(Event::Slept { elapsed_nanos: 5_000_000_000 }),
        Action::Abort { window_secs: 1 }
    );
}

#[test]
fn success_on_a_later_attempt() {
    let (mut init, _) = Initializer::start(secs_to_nanos(600));
    assert_eq!(init.step(Event::ConnectFailed), Action::Sleep { secs: 60 });
    assert_eq!(init.step(Event::Slept { elapsed_nanos: secs_to_nanos(61) }), Action::Connect);
    assert_eq!(init.step(Event::ConnectFailed), Action::Sleep { secs: 60 });
    assert_eq!(init.step(Event::Slept { elapsed_nanos: secs_to_nanos(122) }), Action::Connect);
    assert_eq!(init.attempts(), 3);
    assert_eq!(init.step(Event::Connected), Action::Finish);
    assert_eq!(init.phase(), Phase::Succeeded);
    assert_eq!(init.attempts(), 3);
    assert!(init.is_settled());
}
