//! The session state machine.
//!
//! [`TimerState`] is the timer as a mathematical value, with one spec function
//! for each thing that can happen to it. [`Pomodoro`] is the executable timer;
//! the contract of each of its methods says which of those functions it
//! computes. The proof functions at the end state what follows for every timer.

use vstd::prelude::*;

verus! {

/// The length of one tick, in seconds.
pub const TICK_INTERVAL: u64 = 1;

/// One phase of the timer.
#[derive(Clone, Copy, Debug, PartialEq, Eq, Structural)]
pub enum Session {
    Focus,
    ShortBreak,
    LongBreak,
}

impl Session {
    /// The number by which a session is told to a client.
    pub open spec fn spec_code(self) -> nat {
        match self {
            Session::Focus => 1,
            Session::ShortBreak => 2,
            Session::LongBreak => 3,
        }
    }

    /// The number by which a session is told to a client: 1 for focus, 2 for
    /// a short break, 3 for a long one.
    pub fn code(&self) -> (code: u8)
        ensures
            code == self.spec_code(),
    {
        match self {
            Session::Focus => 1,
            Session::ShortBreak => 2,
            Session::LongBreak => 3,
        }
    }
}

/// The title and body of the desktop notification that announces the end of a
/// session.
#[derive(Clone, Copy, Debug)]
pub struct NotificationConfig {
    pub title: &'static str,
    pub body: &'static str,
}

/// The notification that announces the end of `session`.
pub open spec fn notification_for(session: Session) -> NotificationConfig {
    match session {
        Session::Focus => NotificationConfig { title: "Focus Session Ended", body: "Take a break" },
        Session::LongBreak => NotificationConfig {
            title: "Long Break Ended",
            body: "Get back To work",
        },
        Session::ShortBreak => NotificationConfig {
            title: "Short Break Ended",
            body: "Get back To work",
        },
    }
}

/// The notification that announces the end of `session`: it is keyed by the
/// session that ended, not by the one that follows.
pub fn create_notification_config_for_session(session: &Session) -> (config: NotificationConfig)
    ensures
        config == notification_for(*session),
{
    match session {
        Session::Focus => NotificationConfig { title: "Focus Session Ended", body: "Take a break" },
        Session::LongBreak => NotificationConfig {
            title: "Long Break Ended",
            body: "Get back To work",
        },
        Session::ShortBreak => NotificationConfig {
            title: "Short Break Ended",
            body: "Get back To work",
        },
    }
}

/// The timer as a mathematical value. Durations are whole seconds.
pub struct TimerState {
    pub current_session: Session,
    pub time_remaining: nat,
    pub is_running: bool,
    pub rounds: nat,
    pub focus_duration: nat,
    pub short_break_duration: nat,
    pub long_break_duration: nat,
    pub should_notify: bool,
}

impl TimerState {
    /// The configured length of a session of the given kind.
    pub open spec fn duration_of(self, session: Session) -> nat {
        match session {
            Session::Focus => self.focus_duration,
            Session::ShortBreak => self.short_break_duration,
            Session::LongBreak => self.long_break_duration,
        }
    }

    /// The count of completed focus sessions once the current session is left.
    pub open spec fn rounds_after_switch(self) -> nat {
        if self.current_session == Session::Focus {
            self.rounds + 1
        } else {
            self.rounds
        }
    }

    /// The session that follows the current one: after focus a break, long
    /// when the count of completed focus sessions becomes a multiple of four
    /// and short otherwise; after a break, focus.
    pub open spec fn session_after_switch(self) -> Session {
        if self.current_session == Session::Focus {
            if self.rounds_after_switch() % 4 == 0 {
                Session::LongBreak
            } else {
                Session::ShortBreak
            }
        } else {
            Session::Focus
        }
    }

    /// The timer after a transition: the clock is stopped, the round is
    /// counted, and the next session stands at its full length.
    pub open spec fn switched(self) -> TimerState {
        TimerState {
            current_session: self.session_after_switch(),
            time_remaining: self.duration_of(self.session_after_switch()),
            is_running: false,
            rounds: self.rounds_after_switch(),
            ..self
        }
    }

    /// The timer after one tick. A stopped timer stays as it is. A running one
    /// counts one second down; when it already shows zero, it goes over to the
    /// next session instead.
    pub open spec fn ticked(self) -> TimerState {
        if !self.is_running {
            self
        } else if self.time_remaining == 0 {
            self.switched()
        } else {
            TimerState { time_remaining: (self.time_remaining - 1) as nat, ..self }
        }
    }

    /// The timer after `n` ticks.
    pub open spec fn ticked_n(self, n: nat) -> TimerState
        decreases n,
    {
        if n == 0 {
            self
        } else {
            self.ticked_n((n - 1) as nat).ticked()
        }
    }

    /// What one tick asks to be announced: the end of the current session,
    /// when the tick leaves it and notifications are switched on.
    pub open spec fn notice(self) -> Option<NotificationConfig> {
        if self.is_running && self.time_remaining == 0 && self.should_notify {
            Some(notification_for(self.current_session))
        } else {
            None
        }
    }

    /// The timer with the clock running or stopped.
    pub open spec fn with_running(self, is_running: bool) -> TimerState {
        TimerState { is_running, ..self }
    }

    /// The timer with the countdown overwritten.
    pub open spec fn with_time_remaining(self, time_remaining: nat) -> TimerState {
        TimerState { time_remaining, ..self }
    }

    /// The timer at the start of a session of the given kind.
    pub open spec fn with_session(self, session: Session) -> TimerState {
        TimerState { current_session: session, time_remaining: self.duration_of(session), ..self }
    }

    /// The timer after a forced transition, with the clock started unless
    /// `no_start` is set.
    pub open spec fn skipped(self, no_start: bool) -> TimerState {
        self.switched().with_running(!no_start)
    }

    /// The timer after a reset: stopped, at the start of a focus session, with
    /// no round counted.
    pub open spec fn reset(self) -> TimerState {
        TimerState {
            current_session: Session::Focus,
            time_remaining: self.focus_duration,
            is_running: false,
            rounds: 0,
            ..self
        }
    }

    /// Whether the round counter has room for the round that leaving the
    /// current session would count.
    pub open spec fn round_fits(self) -> bool {
        self.current_session == Session::Focus ==> self.rounds < u32::MAX
    }

    /// Whether the next tick is a transition.
    pub open spec fn is_due(self) -> bool {
        self.is_running && self.time_remaining == 0
    }

    /// Whether the timer can take a tick: a tick that is a transition needs
    /// room in the round counter.
    pub open spec fn can_tick(self) -> bool {
        self.is_due() ==> self.round_fits()
    }
}

/// What a timer is made from.
pub struct PomodoroConfig {
    pub is_running: bool,
    pub long_break_duration: u64,
    pub short_break_duration: u64,
    pub focus_duration: u64,
    pub initial_session: Session,
    pub should_notify: bool,
}

impl PomodoroConfig {
    /// The timer that this configuration describes: no round counted, the
    /// initial session at its full length.
    pub open spec fn initial_state(self) -> TimerState {
        TimerState {
            current_session: self.initial_session,
            time_remaining: match self.initial_session {
                Session::Focus => self.focus_duration as nat,
                Session::ShortBreak => self.short_break_duration as nat,
                Session::LongBreak => self.long_break_duration as nat,
            },
            is_running: self.is_running,
            rounds: 0,
            focus_duration: self.focus_duration as nat,
            short_break_duration: self.short_break_duration as nat,
            long_break_duration: self.long_break_duration as nat,
            should_notify: self.should_notify,
        }
    }
}

impl Default for PomodoroConfig {
    /// Twenty-five minutes of focus, five of short break, twenty-five of long
    /// break; a stopped focus session, without notifications.
    fn default() -> (config: Self)
        ensures
            config == (PomodoroConfig {
                is_running: false,
                long_break_duration: 1500,
                short_break_duration: 300,
                focus_duration: 1500,
                initial_session: Session::Focus,
                should_notify: false,
            }),
    {
        PomodoroConfig {
            is_running: false,
            long_break_duration: 25 * 60,
            short_break_duration: 5 * 60,
            focus_duration: 25 * 60,
            initial_session: Session::Focus,
            should_notify: false,
        }
    }
}

/// The timer.
pub struct Pomodoro {
    rounds: u32,
    current_session: Session,
    time_remaining: u64,
    is_running: bool,
    long_break_duration: u64,
    short_break_duration: u64,
    focus_duration: u64,
    should_notify: bool,
}

impl View for Pomodoro {
    type V = TimerState;

    closed spec fn view(&self) -> TimerState {
        TimerState {
            current_session: self.current_session,
            time_remaining: self.time_remaining as nat,
            is_running: self.is_running,
            rounds: self.rounds as nat,
            focus_duration: self.focus_duration as nat,
            short_break_duration: self.short_break_duration as nat,
            long_break_duration: self.long_break_duration as nat,
            should_notify: self.should_notify,
        }
    }
}

impl Pomodoro {
    /// A fresh timer: no round counted, the configured session at its full
    /// length, running only if the configuration says so.
    pub fn new(config: PomodoroConfig) -> (pomodoro: Pomodoro)
        ensures
            pomodoro@ == config.initial_state(),
    {
        let mut pomodoro = Pomodoro {
            rounds: 0,
            time_remaining: 0,
            current_session: config.initial_session,
            is_running: config.is_running,
            long_break_duration: config.long_break_duration,
            short_break_duration: config.short_break_duration,
            focus_duration: config.focus_duration,
            should_notify: config.should_notify,
        };
        let initial_time: u64 = pomodoro.get_initial_time_for_session(&config.initial_session);
        pomodoro.set_time_remaining(initial_time);
        pomodoro
    }

    fn get_initial_time_for_session(&self, session: &Session) -> (seconds: u64)
        ensures
            seconds == self@.duration_of(*session),
    {
        match session {
            Session::Focus => self.focus_duration,
            Session::LongBreak => self.long_break_duration,
            Session::ShortBreak => self.short_break_duration,
        }
    }

    /// Advances the timer by one tick. A stopped timer is left as it is. A
    /// running one counts one second down; one that already shows zero goes
    /// over to the next session and stops. The result is the notification to
    /// send, if the tick ended a session and notifications are switched on.
    pub fn tick(&mut self) -> (notice: Option<NotificationConfig>)
        requires
            old(self)@.can_tick(),
        ensures
            final(self)@ == old(self)@.ticked(),
            notice == old(self)@.notice(),
    {
        if !self.get_is_running() {
            return None;
        }
        if self.time_remaining == 0 {
            let old_session = self.current_session;
            self.switch_to_next_session();
            if self.should_notify {
                return Some(create_notification_config_for_session(&old_session));
            }
        } else {
            let new_time_remaining: u64 = self.time_remaining - TICK_INTERVAL;
            self.set_time_remaining(new_time_remaining);
        }
        None
    }

    /// Whether the timer can take a tick. Only a timer that has counted
    /// `u32::MAX` rounds and is about to leave a focus session cannot.
    pub fn can_tick(&self) -> (can: bool)
        ensures
            can == self@.can_tick(),
    {
        !(self.is_running && self.time_remaining == 0) || self.has_room_for_round()
    }

    /// Whether the round counter has room for the round that leaving the
    /// current session would count.
    pub fn has_room_for_round(&self) -> (fits: bool)
        ensures
            fits == self@.round_fits(),
    {
        match self.current_session {
            Session::Focus => self.rounds < u32::MAX,
            _ => true,
        }
    }

    /// Whether the clock is running.
    pub fn get_is_running(&self) -> (is_running: bool)
        ensures
            is_running == self@.is_running,
    {
        self.is_running
    }

    fn set_is_running(&mut self, is_running: bool)
        ensures
            final(self)@ == old(self)@.with_running(is_running),
    {
        self.is_running = is_running;
    }

    fn set_session(&mut self, session: Session)
        ensures
            final(self)@ == old(self)@.with_session(session),
    {
        self.current_session = session;
        let initial_time: u64 = self.get_initial_time_for_session(&session);
        self.set_time_remaining(initial_time);
    }

    /// The session that is under way.
    pub fn get_session(&self) -> (session: &Session)
        ensures
            *session == self@.current_session,
    {
        &self.current_session
    }

    /// The count of focus sessions completed since the last reset.
    pub fn get_rounds(&self) -> (rounds: u32)
        ensures
            rounds == self@.rounds,
    {
        self.rounds
    }

    /// Starts the clock; a running clock keeps running.
    pub fn start_session(&mut self)
        ensures
            final(self)@ == old(self)@.with_running(true),
    {
        self.set_is_running(true)
    }

    /// Stops the clock; a stopped clock stays stopped.
    pub fn stop_session(&mut self)
        ensures
            final(self)@ == old(self)@.with_running(false),
    {
        self.set_is_running(false)
    }

    /// The seconds left of the current session.
    pub fn get_time_remaining(&self) -> (seconds: u64)
        ensures
            seconds == self@.time_remaining,
    {
        self.time_remaining
    }

    /// Overwrites the seconds left, whether the clock runs or not.
    pub fn set_time_remaining(&mut self, time_remaining: u64)
        ensures
            final(self)@ == old(self)@.with_time_remaining(time_remaining as nat),
    {
        self.time_remaining = time_remaining;
    }

    /// Goes over to the next session at once, and starts the clock unless
    /// `no_start` is set. Nothing is announced.
    pub fn next_session(&mut self, no_start: bool)
        requires
            old(self)@.round_fits(),
        ensures
            final(self)@ == old(self)@.skipped(no_start),
    {
        self.switch_to_next_session();
        if !no_start {
            self.start_session();
        }
    }

    fn switch_to_next_session(&mut self)
        requires
            old(self)@.round_fits(),
        ensures
            final(self)@ == old(self)@.switched(),
    {
        self.stop_session();
        match self.current_session {
            Session::Focus => {
                self.rounds = self.rounds + 1;
                if self.rounds % 4 == 0 {
                    self.set_session(Session::LongBreak);
                } else {
                    self.set_session(Session::ShortBreak);
                }
            },
            _ => {
                self.set_session(Session::Focus);
            },
        }
    }

    /// Stops the clock, returns to the start of a focus session and forgets
    /// the rounds counted.
    pub fn reset_rounds(&mut self)
        ensures
            final(self)@ == old(self)@.reset(),
    {
        self.stop_session();
        self.set_session(Session::Focus);
        self.rounds = 0;
    }
}

/// A tick leaves a stopped timer exactly as it was.
pub proof fn stopped_timer_ignores_ticks(timer: TimerState)
    requires
        !timer.is_running,
    ensures
        timer.ticked() == timer,
{
}

/// A stopped timer stays as it was under any number of ticks.
pub proof fn stopped_timer_ignores_any_ticks(timer: TimerState, ticks: nat)
    requires
        !timer.is_running,
    ensures
        timer.ticked_n(ticks) == timer,
    decreases ticks,
{
    if ticks > 0 {
        stopped_timer_ignores_any_ticks(timer, (ticks - 1) as nat);
    }
}

/// A running timer that shows `d` seconds shows `d - k` after `k` ticks, for
/// every `k` up to `d`, and nothing else about it has changed: each tick
/// takes exactly one second off and the clock keeps running.
pub proof fn running_timer_counts_down(timer: TimerState, ticks: nat)
    requires
        timer.is_running,
        ticks <= timer.time_remaining,
    ensures
        timer.ticked_n(ticks) == timer.with_time_remaining((timer.time_remaining - ticks) as nat),
    decreases ticks,
{
    if ticks > 0 {
        running_timer_counts_down(timer, (ticks - 1) as nat);
    }
}

/// A running timer that shows `d > 0` seconds needs exactly `d` ticks to show
/// zero: after fewer ticks it shows a positive number of seconds, one less
/// with each tick, and after `d` ticks it shows zero.
pub proof fn zero_is_reached_after_exactly_the_remaining_ticks(timer: TimerState, ticks: nat)
    requires
        timer.is_running,
        timer.time_remaining > 0,
        ticks <= timer.time_remaining,
    ensures
        timer.ticked_n(ticks).time_remaining == timer.time_remaining - ticks,
        timer.ticked_n(ticks).time_remaining == 0 <==> ticks == timer.time_remaining,
        ticks > 0 ==> timer.ticked_n(ticks).time_remaining + 1 == timer.ticked_n(
            (ticks - 1) as nat,
        ).time_remaining,
{
    running_timer_counts_down(timer, ticks);
    if ticks > 0 {
        running_timer_counts_down(timer, (ticks - 1) as nat);
    }
}

/// The tick on which a running timer comes to show zero changes nothing else:
/// the session that ran out is still current and its clock still runs.
pub proof fn zero_is_shown_before_the_session_changes(timer: TimerState)
    requires
        timer.is_running,
        timer.time_remaining == 1,
    ensures
        timer.ticked() == timer.with_time_remaining(0),
        timer.ticked().current_session == timer.current_session,
        timer.ticked().is_running,
        timer.ticked().rounds == timer.rounds,
{
}

/// The tick that finds a running timer at zero performs the transition and
/// stops the clock.
pub proof fn tick_at_zero_switches_and_stops(timer: TimerState)
    requires
        timer.is_running,
        timer.time_remaining == 0,
    ensures
        timer.ticked() == timer.switched(),
        !timer.ticked().is_running,
        timer.ticked().time_remaining == timer.duration_of(timer.ticked().current_session),
{
}

/// A running timer that shows `d` seconds has gone over to the next session
/// after exactly `d + 1` ticks: `d` to count down to zero, and one more for
/// the transition.
pub proof fn session_ends_one_tick_after_zero(timer: TimerState)
    requires
        timer.is_running,
    ensures
        timer.ticked_n(timer.time_remaining + 1) == timer.with_time_remaining(0).switched(),
{
    running_timer_counts_down(timer, timer.time_remaining);
    assert(timer.ticked_n(timer.time_remaining + 1) == timer.ticked_n(
        timer.time_remaining,
    ).ticked());
}

/// A transition always changes the session, and the new session stands at
/// its full configured length with the clock stopped: no state shows the new
/// session with the seconds of the one that ended.
pub proof fn transition_starts_a_full_session(timer: TimerState)
    ensures
        timer.switched().current_session != timer.current_session,
        timer.switched().time_remaining == timer.duration_of(timer.switched().current_session),
        !timer.switched().is_running,
        timer.switched().rounds >= timer.rounds,
{
}

/// Leaving a focus session counts exactly one round. The break that follows
/// is long when the new count is a multiple of four, and short otherwise.
pub proof fn leaving_focus_counts_a_round(timer: TimerState)
    requires
        timer.current_session == Session::Focus,
    ensures
        timer.switched().rounds == timer.rounds + 1,
        timer.switched().rounds % 4 == 0 ==> timer.switched().current_session
            == Session::LongBreak,
        timer.switched().rounds % 4 != 0 ==> timer.switched().current_session
            == Session::ShortBreak,
{
}

/// Leaving a break, short or long, leads to a focus session whatever the
/// count of rounds, and counts no round.
pub proof fn leaving_a_break_leads_to_focus(timer: TimerState)
    requires
        timer.current_session != Session::Focus,
    ensures
        timer.switched().current_session == Session::Focus,
        timer.switched().time_remaining == timer.focus_duration,
        timer.switched().rounds == timer.rounds,
{
}

/// A reset gives a stopped focus session of full length with no round
/// counted, and a second reset changes nothing more.
pub proof fn reset_is_idempotent(timer: TimerState)
    ensures
        timer.reset().reset() == timer.reset(),
        timer.reset().current_session == Session::Focus,
        timer.reset().rounds == 0,
        !timer.reset().is_running,
        timer.reset().time_remaining == timer.focus_duration,
{
}

/// A forced transition is the same transition that a tick at zero performs;
/// it leaves the clock stopped when `no_start` is set and running when not.
pub proof fn forced_transition_starts_unless_told_not_to(timer: TimerState, no_start: bool)
    ensures
        timer.skipped(true) == timer.switched(),
        !timer.skipped(true).is_running,
        timer.skipped(false) == timer.switched().with_running(true),
        timer.skipped(false).is_running,
        timer.skipped(no_start).current_session == timer.switched().current_session,
        timer.skipped(no_start).rounds == timer.switched().rounds,
        timer.skipped(no_start).time_remaining == timer.switched().time_remaining,
{
}

/// The count of rounds never goes down under ticks, however many, and no
/// tick changes the configured durations.
pub proof fn ticks_never_lower_the_rounds(timer: TimerState, ticks: nat)
    ensures
        timer.ticked_n(ticks).rounds >= timer.rounds,
        timer.ticked_n(ticks).focus_duration == timer.focus_duration,
        timer.ticked_n(ticks).short_break_duration == timer.short_break_duration,
        timer.ticked_n(ticks).long_break_duration == timer.long_break_duration,
        timer.ticked_n(ticks).should_notify == timer.should_notify,
    decreases ticks,
{
    if ticks > 0 {
        ticks_never_lower_the_rounds(timer, (ticks - 1) as nat);
    }
}

/// A notification is asked for only by a tick that performs a transition, and
/// it describes the session that ended.
pub proof fn only_a_transition_is_announced(timer: TimerState)
    ensures
        timer.notice().is_some() <==> timer.is_due() && timer.should_notify,
        timer.notice().is_some() ==> timer.notice() == Some(
            notification_for(timer.current_session),
        ) && timer.ticked() == timer.switched(),
{
}

} // verus!
