use pomodoro::pomodoro::{
    create_notification_config_for_session, Pomodoro, PomodoroConfig, Session, TICK_INTERVAL,
};

fn running_timer() -> Pomodoro {
    Pomodoro::new(PomodoroConfig {
        is_running: true,
        ..Default::default()
    })
}

#[test]
fn default_configuration_is_the_classic_one() {
    let config = PomodoroConfig::default();
    assert_eq!(config.focus_duration, 1500);
    assert_eq!(config.short_break_duration, 300);
    assert_eq!(config.long_break_duration, 1500);
    assert_eq!(config.initial_session, Session::Focus);
    assert!(!config.is_running);
    assert!(!config.should_notify);
    assert_eq!(TICK_INTERVAL, 1);
}

#[test]
fn fresh_timer_is_a_stopped_full_focus_session() {
    let pomodoro = Pomodoro::new(PomodoroConfig::default());
    assert_eq!(*pomodoro.get_session(), Session::Focus);
    assert_eq!(pomodoro.get_rounds(), 0);
    assert_eq!(pomodoro.get_time_remaining(), 1500);
    assert!(!pomodoro.get_is_running());
}

#[test]
fn fresh_timer_starts_in_the_configured_session() {
    let short = Pomodoro::new(PomodoroConfig {
        initial_session: Session::ShortBreak,
        short_break_duration: 7,
        ..Default::default()
    });
    assert_eq!(*short.get_session(), Session::ShortBreak);
    assert_eq!(short.get_time_remaining(), 7);
    let long = Pomodoro::new(PomodoroConfig {
        initial_session: Session::LongBreak,
        long_break_duration: 11,
        ..Default::default()
    });
    assert_eq!(*long.get_session(), Session::LongBreak);
    assert_eq!(long.get_time_remaining(), 11);
}

#[test]
fn stopped_timer_ignores_ticks() {
    let mut pomodoro = Pomodoro::new(PomodoroConfig::default());
    pomodoro.set_time_remaining(0);
    for _ in 0..10 {
        assert!(pomodoro.tick().is_none());
        assert_eq!(*pomodoro.get_session(), Session::Focus);
        assert_eq!(pomodoro.get_rounds(), 0);
        assert_eq!(pomodoro.get_time_remaining(), 0);
        assert!(!pomodoro.get_is_running());
    }
    pomodoro.set_time_remaining(42);
    pomodoro.tick();
    assert_eq!(pomodoro.get_time_remaining(), 42);
}

#[test]
fn running_timer_counts_down_one_second_a_tick() {
    let mut pomodoro = running_timer();
    pomodoro.set_time_remaining(5);
    for shown in [4u64, 3, 2, 1, 0] {
        pomodoro.tick();
        assert_eq!(pomodoro.get_time_remaining(), shown);
        assert_eq!(*pomodoro.get_session(), Session::Focus);
        assert_eq!(pomodoro.get_rounds(), 0);
        assert!(pomodoro.get_is_running());
    }
}

#[test]
fn tick_after_zero_switches_and_stops() {
    let mut pomodoro = running_timer();
    pomodoro.set_time_remaining(1);
    pomodoro.tick();
    assert_eq!(pomodoro.get_time_remaining(), 0);
    assert_eq!(*pomodoro.get_session(), Session::Focus);
    assert!(pomodoro.get_is_running());
    pomodoro.tick();
    assert_eq!(*pomodoro.get_session(), Session::ShortBreak);
    assert_eq!(pomodoro.get_time_remaining(), 300);
    assert_eq!(pomodoro.get_rounds(), 1);
    assert!(!pomodoro.get_is_running());
}

#[test]
fn time_set_to_zero_while_running_switches_on_the_next_tick() {
    let mut pomodoro = running_timer();
    pomodoro.set_time_remaining(0);
    pomodoro.tick();
    assert_eq!(*pomodoro.get_session(), Session::ShortBreak);
    assert_eq!(pomodoro.get_time_remaining(), 300);
    assert!(!pomodoro.get_is_running());
}

#[test]
fn start_and_stop_are_idempotent() {
    let mut pomodoro = Pomodoro::new(PomodoroConfig::default());
    pomodoro.start_session();
    assert!(pomodoro.get_is_running());
    pomodoro.start_session();
    assert!(pomodoro.get_is_running());
    assert_eq!(pomodoro.get_time_remaining(), 1500);
    pomodoro.stop_session();
    assert!(!pomodoro.get_is_running());
    pomodoro.stop_session();
    assert!(!pomodoro.get_is_running());
    assert_eq!(pomodoro.get_time_remaining(), 1500);
}

#[test]
fn set_time_works_while_stopped() {
    let mut pomodoro = Pomodoro::new(PomodoroConfig::default());
    pomodoro.set_time_remaining(u64::MAX);
    assert_eq!(pomodoro.get_time_remaining(), u64::MAX);
    assert!(!pomodoro.get_is_running());
    pomodoro.start_session();
    pomodoro.tick();
    assert_eq!(pomodoro.get_time_remaining(), u64::MAX - 1);
}

#[test]
fn leaving_focus_counts_a_round_and_every_fourth_break_is_long() {
    let mut pomodoro = Pomodoro::new(PomodoroConfig {
        short_break_duration: 3,
        long_break_duration: 9,
        focus_duration: 5,
        ..Default::default()
    });
    for round in 1u32..=12 {
        assert_eq!(*pomodoro.get_session(), Session::Focus);
        assert_eq!(pomodoro.get_time_remaining(), 5);
        pomodoro.next_session(true);
        assert_eq!(pomodoro.get_rounds(), round);
        if round % 4 == 0 {
            assert_eq!(*pomodoro.get_session(), Session::LongBreak);
            assert_eq!(pomodoro.get_time_remaining(), 9);
        } else {
            assert_eq!(*pomodoro.get_session(), Session::ShortBreak);
            assert_eq!(pomodoro.get_time_remaining(), 3);
        }
        pomodoro.next_session(true);
        assert_eq!(pomodoro.get_rounds(), round);
    }
}

#[test]
fn leaving_a_break_leads_to_focus_whatever_the_rounds() {
    for initial in [Session::ShortBreak, Session::LongBreak] {
        let mut pomodoro = Pomodoro::new(PomodoroConfig {
            initial_session: initial,
            ..Default::default()
        });
        pomodoro.next_session(true);
        assert_eq!(*pomodoro.get_session(), Session::Focus);
        assert_eq!(pomodoro.get_rounds(), 0);
        assert_eq!(pomodoro.get_time_remaining(), 1500);
    }
}

#[test]
fn reset_twice_is_reset_once() {
    let mut pomodoro = running_timer();
    pomodoro.next_session(false);
    pomodoro.next_session(false);
    pomodoro.next_session(false);
    pomodoro.set_time_remaining(17);
    assert_eq!(pomodoro.get_rounds(), 2);
    pomodoro.reset_rounds();
    let once = (
        *pomodoro.get_session(),
        pomodoro.get_rounds(),
        pomodoro.get_is_running(),
        pomodoro.get_time_remaining(),
    );
    assert_eq!(once, (Session::Focus, 0, false, 1500));
    pomodoro.reset_rounds();
    let twice = (
        *pomodoro.get_session(),
        pomodoro.get_rounds(),
        pomodoro.get_is_running(),
        pomodoro.get_time_remaining(),
    );
    assert_eq!(twice, once);
}

#[test]
fn next_session_starts_the_clock_unless_told_not_to() {
    let mut pomodoro = Pomodoro::new(PomodoroConfig::default());
    pomodoro.next_session(false);
    assert_eq!(*pomodoro.get_session(), Session::ShortBreak);
    assert!(pomodoro.get_is_running());
    pomodoro.next_session(true);
    assert_eq!(*pomodoro.get_session(), Session::Focus);
    assert!(!pomodoro.get_is_running());
}

#[test]
fn default_focus_session_ends_on_the_tick_after_zero() {
    let mut pomodoro = Pomodoro::new(PomodoroConfig::default());
    pomodoro.start_session();
    for _ in 0..1500 {
        pomodoro.tick();
    }
    assert_eq!(*pomodoro.get_session(), Session::Focus);
    assert_eq!(pomodoro.get_time_remaining(), 0);
    assert_eq!(pomodoro.get_rounds(), 0);
    assert!(pomodoro.get_is_running());
    pomodoro.tick();
    assert_eq!(*pomodoro.get_session(), Session::ShortBreak);
    assert_eq!(pomodoro.get_rounds(), 1);
    assert!(!pomodoro.get_is_running());
    assert_eq!(pomodoro.get_time_remaining(), 300);
}

#[test]
fn fourth_focus_session_ends_in_a_long_break() {
    let mut pomodoro = Pomodoro::new(PomodoroConfig::default());
    for round in 1u32..=4 {
        assert_eq!(*pomodoro.get_session(), Session::Focus);
        pomodoro.start_session();
        for _ in 0..1501 {
            pomodoro.tick();
        }
        assert_eq!(pomodoro.get_rounds(), round);
        assert!(!pomodoro.get_is_running());
        if round < 4 {
            assert_eq!(*pomodoro.get_session(), Session::ShortBreak);
            pomodoro.start_session();
            for _ in 0..301 {
                pomodoro.tick();
            }
        }
    }
    assert_eq!(*pomodoro.get_session(), Session::LongBreak);
    assert_eq!(pomodoro.get_rounds(), 4);
    assert_eq!(pomodoro.get_time_remaining(), 1500);
}

#[test]
fn only_a_tick_that_ends_a_session_is_announced() {
    let mut pomodoro = Pomodoro::new(PomodoroConfig {
        is_running: true,
        should_notify: true,
        focus_duration: 1,
        short_break_duration: 1,
        ..Default::default()
    });
    assert!(pomodoro.tick().is_none());
    let notice = pomodoro.tick().unwrap();
    assert_eq!(notice.title, "Focus Session Ended");
    assert_eq!(notice.body, "Take a break");
    assert!(pomodoro.tick().is_none());
    pomodoro.start_session();
    assert!(pomodoro.tick().is_none());
    let notice = pomodoro.tick().unwrap();
    assert_eq!(notice.title, "Short Break Ended");
    assert_eq!(notice.body, "Get back To work");
}

#[test]
fn nothing_is_announced_when_notifications_are_off() {
    let mut pomodoro = Pomodoro::new(PomodoroConfig {
        is_running: true,
        focus_duration: 0,
        ..Default::default()
    });
    assert!(pomodoro.tick().is_none());
    assert_eq!(*pomodoro.get_session(), Session::ShortBreak);
}

#[test]
fn notifications_are_keyed_by_the_session_that_ended() {
    let focus = create_notification_config_for_session(&Session::Focus);
    assert_eq!((focus.title, focus.body), ("Focus Session Ended", "Take a break"));
    let long = create_notification_config_for_session(&Session::LongBreak);
    assert_eq!((long.title, long.body), ("Long Break Ended", "Get back To work"));
    let short = create_notification_config_for_session(&Session::ShortBreak);
    assert_eq!((short.title, short.body), ("Short Break Ended", "Get back To work"));
}

#[test]
fn sessions_have_their_numbers() {
    assert_eq!(Session::Focus.code(), 1);
    assert_eq!(Session::ShortBreak.code(), 2);
    assert_eq!(Session::LongBreak.code(), 3);
}
