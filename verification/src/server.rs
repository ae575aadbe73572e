//! What the daemon does with a tick or a request.
//!
//! The daemon owns one timer. A scheduler ticks it once a second and any
//! number of clients send it requests; whoever holds the timer serves one
//! event with it and lets go. Each request is applied as a whole and answered
//! with one line, both decided from the timer as it stood when the request
//! was served: [`applied`] is the timer afterwards, [`answer`] the text of
//! the line. [`handle_event`] is the one thing done while the timer is held;
//! [`after_events`] is the timer after any run of events, and the proof
//! functions say what holds of it whatever their order.

use crate::pomodoro::{NotificationConfig, Pomodoro, TimerState};
use crate::request::Request;
use crate::text::{decimal, format_u64, push_u64};
use vstd::prelude::*;

verus! {

/// The timer after a request.
pub open spec fn applied(timer: TimerState, request: Request) -> TimerState {
    match request {
        Request::Get => timer,
        Request::SetTime(seconds) => timer.with_time_remaining(seconds as nat),
        Request::Start => timer.with_running(true),
        Request::Stop => timer.with_running(false),
        Request::Session => timer,
        Request::NextSession(no_start) => timer.skipped(no_start),
        Request::ResetRounds => timer.reset(),
    }
}

/// The line that answers a request, without the line's end: the seconds left
/// and the rounds counted for `Get`, the new seconds left for `SetTime`, the
/// session's number for `Session`, and an empty line for the others.
pub open spec fn answer(timer: TimerState, request: Request) -> Seq<char> {
    match request {
        Request::Get => decimal(timer.time_remaining) + seq![','] + decimal(timer.rounds),
        Request::SetTime(seconds) => decimal(seconds as nat),
        Request::Session => decimal(timer.current_session.spec_code()),
        _ => Seq::<char>::empty(),
    }
}

/// Whether the timer can take the request: a forced transition out of a
/// focus session needs room in the round counter.
pub open spec fn can_apply(timer: TimerState, request: Request) -> bool {
    request is NextSession ==> timer.round_fits()
}

/// Whether the timer can take the request.
pub fn can_handle(pomodoro: &Pomodoro, request: &Request) -> (can: bool)
    ensures
        can == can_apply(pomodoro@, *request),
{
    match request {
        Request::NextSession(_) => pomodoro.has_room_for_round(),
        _ => true,
    }
}

/// Applies one request to the timer and gives the line that answers it.
pub fn handle_request(pomodoro: &mut Pomodoro, request: Request) -> (payload: String)
    requires
        can_apply(old(pomodoro)@, request),
    ensures
        final(pomodoro)@ == applied(old(pomodoro)@, request),
        payload@ == answer(old(pomodoro)@, request),
{
    match request {
        Request::Start => {
            pomodoro.start_session();
            String::new()
        },
        Request::Stop => {
            pomodoro.stop_session();
            String::new()
        },
        Request::Get => {
            let time_remaining: u64 = pomodoro.get_time_remaining();
            let rounds: u32 = pomodoro.get_rounds();
            let mut payload = format_u64(time_remaining);
            proof {
                reveal_strlit(",");
            }
            payload.append(",");
            assert(","@ =~= seq![',']);
            push_u64(&mut payload, rounds as u64);
            payload
        },
        Request::SetTime(seconds) => {
            pomodoro.set_time_remaining(seconds);
            format_u64(pomodoro.get_time_remaining())
        },
        Request::Session => {
            let code: u8 = pomodoro.get_session().code();
            format_u64(code as u64)
        },
        Request::NextSession(no_start) => {
            pomodoro.next_session(no_start);
            String::new()
        },
        Request::ResetRounds => {
            pomodoro.reset_rounds();
            String::new()
        },
    }
}

/// No request lowers the count of rounds but the reset, which sets it to
/// zero; and none changes the configured durations.
pub proof fn only_a_reset_lowers_the_rounds(timer: TimerState, request: Request)
    ensures
        request != Request::ResetRounds ==> applied(timer, request).rounds >= timer.rounds,
        request == Request::ResetRounds ==> applied(timer, request).rounds == 0,
        applied(timer, request).focus_duration == timer.focus_duration,
        applied(timer, request).short_break_duration == timer.short_break_duration,
        applied(timer, request).long_break_duration == timer.long_break_duration,
        applied(timer, request).should_notify == timer.should_notify,
{
}

/// The requests that only ask leave the timer as it was, and what `Get`
/// answers are the seconds left and the rounds counted of that one timer.
pub proof fn asking_changes_nothing(timer: TimerState)
    ensures
        applied(timer, Request::Get) == timer,
        applied(timer, Request::Session) == timer,
        answer(timer, Request::Get) == decimal(timer.time_remaining) + seq![','] + decimal(
            timer.rounds,
        ),
{
}

/// What can happen to the daemon's timer: the scheduler ticks, or a client
/// sends a request. The daemon serves them one at a time, each as a whole, in
/// whatever order they arrive.
#[derive(Clone, Copy, Debug, PartialEq, Eq, Structural)]
pub enum Event {
    Tick,
    Asked(Request),
}

/// What the daemon owes the outside after an event: after a tick the
/// notification to send, if any; after a request the line that answers it.
#[derive(Debug)]
pub enum Reaction {
    Notice(Option<NotificationConfig>),
    Answer(String),
}

/// The timer after one event.
pub open spec fn after_event(timer: TimerState, event: Event) -> TimerState {
    match event {
        Event::Tick => timer.ticked(),
        Event::Asked(request) => applied(timer, request),
    }
}

/// Whether the timer can take the event.
pub open spec fn can_take(timer: TimerState, event: Event) -> bool {
    match event {
        Event::Tick => timer.can_tick(),
        Event::Asked(request) => can_apply(timer, request),
    }
}

/// Whether the timer can take the event.
pub fn can_serve(pomodoro: &Pomodoro, event: &Event) -> (can: bool)
    ensures
        can == can_take(pomodoro@, *event),
{
    match event {
        Event::Tick => pomodoro.can_tick(),
        Event::Asked(request) => can_handle(pomodoro, request),
    }
}

/// Serves one event: the timer takes it as a whole, and the result says what
/// to send out once the timer is free again.
pub fn handle_event(pomodoro: &mut Pomodoro, event: Event) -> (reaction: Reaction)
    requires
        can_take(old(pomodoro)@, event),
    ensures
        final(pomodoro)@ == after_event(old(pomodoro)@, event),
        match event {
            Event::Tick => reaction matches Reaction::Notice(notice) && notice == old(
                pomodoro,
            )@.notice(),
            Event::Asked(request) => reaction matches Reaction::Answer(payload) && payload@
                == answer(old(pomodoro)@, request),
        },
{
    match event {
        Event::Tick => Reaction::Notice(pomodoro.tick()),
        Event::Asked(request) => Reaction::Answer(handle_request(pomodoro, request)),
    }
}

/// The timer after a run of events, served in their order.
pub open spec fn after_events(timer: TimerState, events: Seq<Event>) -> TimerState
    decreases events.len(),
{
    if events.len() == 0 {
        timer
    } else {
        after_event(after_events(timer, events.drop_last()), events.last())
    }
}

/// Whether a reset is among the events.
pub open spec fn holds_reset(events: Seq<Event>) -> bool {
    exists|i: int| 0 <= i < events.len() && events[i] == Event::Asked(Request::ResetRounds)
}

/// Whatever the events and their order, the configured durations stay as
/// they were, each event counts at most one round, and the count goes down
/// only where a reset is among them.
pub proof fn any_order_of_events_keeps_the_timer_sound(timer: TimerState, events: Seq<Event>)
    ensures
        after_events(timer, events).focus_duration == timer.focus_duration,
        after_events(timer, events).short_break_duration == timer.short_break_duration,
        after_events(timer, events).long_break_duration == timer.long_break_duration,
        after_events(timer, events).should_notify == timer.should_notify,
        after_events(timer, events).rounds <= timer.rounds + events.len(),
        !holds_reset(events) ==> after_events(timer, events).rounds >= timer.rounds,
    decreases events.len(),
{
    if events.len() > 0 {
        let before = events.drop_last();
        any_order_of_events_keeps_the_timer_sound(timer, before);
        let reached = after_events(timer, before);
        match events.last() {
            Event::Tick => {},
            Event::Asked(request) => {
                only_a_reset_lowers_the_rounds(reached, request);
            },
        }
        if !holds_reset(events) {
            assert(events[events.len() - 1] != Event::Asked(Request::ResetRounds));
            if holds_reset(before) {
                let i = choose|i: int|
                    0 <= i < before.len() && before[i] == Event::Asked(Request::ResetRounds);
                assert(events[i] == before[i]);
            }
        }
    }
}

/// The timer after a single event, and after two.
proof fn after_one_and_two_events(timer: TimerState, first: Event, second: Event)
    ensures
        after_events(timer, seq![first]) == after_event(timer, first),
        after_events(timer, seq![first, second]) == after_event(
            after_event(timer, first),
            second,
        ),
{
    assert(seq![first].drop_last() =~= Seq::<Event>::empty());
    assert(after_events(timer, Seq::<Event>::empty()) == timer);
    assert(after_events(timer, seq![first]) == after_event(timer, first));
    assert(seq![first, second].drop_last() =~= seq![first]);
}

/// A tick and a request that only asks may be served in either order: the
/// timer ends up the same. The answer is made from the timer before the tick
/// or from the timer after it, as a whole: both numbers that `Get` answers
/// are those of one of the two.
pub proof fn tick_and_question_in_either_order(timer: TimerState, request: Request)
    requires
        request == Request::Get || request == Request::Session,
    ensures
        after_events(timer, seq![Event::Tick, Event::Asked(request)]) == after_events(
            timer,
            seq![Event::Asked(request), Event::Tick],
        ),
        answer(after_event(timer, Event::Tick), Request::Get) == decimal(
            timer.ticked().time_remaining,
        ) + seq![','] + decimal(timer.ticked().rounds),
        answer(timer, Request::Get) == decimal(timer.time_remaining) + seq![','] + decimal(
            timer.rounds,
        ),
{
    after_one_and_two_events(timer, Event::Tick, Event::Asked(request));
    after_one_and_two_events(timer, Event::Asked(request), Event::Tick);
}

} // verus!
