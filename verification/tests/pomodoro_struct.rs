use pomodoro::pomodoro::{Pomodoro, PomodoroConfig, Session, TICK_INTERVAL};

#[test]
fn can_set_time_manually() {
    let mut pomodoro = Pomodoro::new(PomodoroConfig {
        is_running: true,
        ..Default::default()
    });

    pomodoro.set_time_remaining(4);
    pomodoro.tick();
    assert_eq!(pomodoro.get_time_remaining(), 3);
}

// A session of one second shows zero after its first tick and is left on the
// second: the tests below tick twice to see a session end.

#[test]
fn stops_session_on_zero() {
    let mut pomodoro = Pomodoro::new(PomodoroConfig {
        is_running: true,
        focus_duration: TICK_INTERVAL,
        ..Default::default()
    });
    pomodoro.tick();
    pomodoro.tick();
    assert_eq!(pomodoro.get_is_running(), false);
}

#[test]
fn increments_round_on_zero() {
    let mut pomodoro = Pomodoro::new(PomodoroConfig {
        is_running: true,
        focus_duration: TICK_INTERVAL,
        ..Default::default()
    });
    pomodoro.tick();
    pomodoro.tick();
    assert_eq!(pomodoro.get_rounds(), 1);
}

#[test]
fn switches_to_short_break_after_focus() {
    let mut pomodoro = Pomodoro::new(PomodoroConfig {
        is_running: true,
        focus_duration: TICK_INTERVAL,
        ..Default::default()
    });
    pomodoro.tick();
    pomodoro.tick();
    assert_eq!(*pomodoro.get_session(), Session::ShortBreak);
}

#[test]
fn switches_to_focus_after_short_break() {
    let mut pomodoro = Pomodoro::new(PomodoroConfig {
        is_running: true,
        focus_duration: TICK_INTERVAL,
        short_break_duration: TICK_INTERVAL,
        ..Default::default()
    });
    pomodoro.tick();
    pomodoro.tick();
    assert_eq!(*pomodoro.get_session(), Session::ShortBreak);
    pomodoro.start_session();
    pomodoro.tick();
    pomodoro.tick();
    assert_eq!(*pomodoro.get_session(), Session::Focus);
}

#[test]
fn switches_to_long_break_after_4_rounds() {
    let mut pomodoro = Pomodoro::new(PomodoroConfig {
        is_running: true,
        short_break_duration: TICK_INTERVAL,
        focus_duration: TICK_INTERVAL,
        ..Default::default()
    });
    assert_eq!(pomodoro.get_rounds(), 0);
    pomodoro.tick();
    pomodoro.tick();
    assert_eq!(*pomodoro.get_session(), Session::ShortBreak);
    assert_eq!(pomodoro.get_rounds(), 1);
    pomodoro.start_session();
    pomodoro.tick();
    pomodoro.tick();
    assert_eq!(*pomodoro.get_session(), Session::Focus);
    pomodoro.start_session();
    pomodoro.tick();
    pomodoro.tick();
    assert_eq!(*pomodoro.get_session(), Session::ShortBreak);
    assert_eq!(pomodoro.get_rounds(), 2);
    pomodoro.start_session();
    pomodoro.tick();
    pomodoro.tick();
    assert_eq!(*pomodoro.get_session(), Session::Focus);
    pomodoro.start_session();
    pomodoro.tick();
    pomodoro.tick();
    assert_eq!(*pomodoro.get_session(), Session::ShortBreak);
    assert_eq!(pomodoro.get_rounds(), 3);
    pomodoro.start_session();
    pomodoro.tick();
    pomodoro.tick();
    assert_eq!(*pomodoro.get_session(), Session::Focus);
    pomodoro.start_session();
    pomodoro.tick();
    pomodoro.tick();
    assert_eq!(*pomodoro.get_session(), Session::LongBreak);
    assert_eq!(pomodoro.get_rounds(), 4);
}

#[test]
fn next_session_test() {
    let mut pomodoro = Pomodoro::new(PomodoroConfig {
        is_running: true,
        focus_duration: TICK_INTERVAL,
        short_break_duration: TICK_INTERVAL,
        ..Default::default()
    });

    assert_eq!(*pomodoro.get_session(), Session::Focus);
    pomodoro.next_session(true);
    assert_eq!(*pomodoro.get_session(), Session::ShortBreak);
    assert_eq!(pomodoro.get_is_running(), false);
    pomodoro.next_session(true);
    assert_eq!(*pomodoro.get_session(), Session::Focus);
    assert_eq!(pomodoro.get_is_running(), false);
}

#[test]
fn should_reset_rounds() {
    let mut pomodoro = Pomodoro::new(PomodoroConfig {
        is_running: true,
        focus_duration: TICK_INTERVAL,
        short_break_duration: TICK_INTERVAL,
        ..Default::default()
    });

    assert_eq!(pomodoro.get_session(), &Session::Focus);
    pomodoro.next_session(false);
    assert_eq!(pomodoro.get_is_running(), true);
    assert_eq!(pomodoro.get_rounds(), 1);
    pomodoro.reset_rounds();
    assert_eq!(pomodoro.get_rounds(), 0);
    assert_eq!(pomodoro.get_is_running(), false);
    assert_eq!(*pomodoro.get_session(), Session::Focus);
}
