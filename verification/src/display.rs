//! What a client shows of the daemon's answers.

use crate::pomodoro::TimerState;
use crate::request::Request;
use crate::server::answer;
use crate::text::{
    chars_of, decimal, decimal_reads_back, digit_char, find_field_end, first_field,
    parse_u64_range, parsed_u64, push_u64, second_field, two_fields_are_read_back,
    written_number_is_read_back,
};
use vstd::prelude::*;

verus! {

/// Why an answer to `Get` cannot be shown.
#[derive(Clone, Copy, Debug, PartialEq, Eq, Structural)]
pub enum StatusError {
    /// The first field is not a number of seconds.
    TimeNotANumber,
    /// There is no second field.
    RoundsMissing,
}

impl StatusError {
    /// The error in words.
    pub fn message(&self) -> (message: &'static str)
        ensures
            message@ == match *self {
                StatusError::TimeNotANumber => "time should be a number"@,
                StatusError::RoundsMissing => "rounds missing from server response"@,
            },
    {
        match self {
            StatusError::TimeNotANumber => "time should be a number",
            StatusError::RoundsMissing => "rounds missing from server response",
        }
    }
}

/// A number below a hundred in two digits, with a leading zero where needed.
pub open spec fn two_digits(n: nat) -> Seq<char> {
    seq![digit_char(n / 10), digit_char(n % 10)]
}

/// Seconds as minutes and seconds on a clock that starts over every hour.
pub open spec fn clock_face(seconds: nat) -> Seq<char> {
    two_digits((seconds / 60) % 60) + seq![':'] + two_digits(seconds % 60)
}

/// What is shown for an answer to `Get`: the clock, a bar, and the rounds as
/// the daemon wrote them.
pub open spec fn status_line(response: Seq<char>) -> Result<Seq<char>, StatusError> {
    match parsed_u64(first_field(response)) {
        None => Err(StatusError::TimeNotANumber),
        Some(seconds) => match second_field(response) {
            None => Err(StatusError::RoundsMissing),
            Some(rounds) => Ok(clock_face(seconds as nat) + seq![' ', '|', ' '] + rounds),
        },
    }
}

/// Appends one digit to `text`.
fn push_digit(text: &mut String, digit: u64)
    requires
        digit < 10,
    ensures
        final(text)@ == old(text)@.push(digit_char(digit as nat)),
{
    let before: Ghost<Seq<char>> = Ghost(text@);
    push_u64(text, digit);
    assert(decimal(digit as nat) =~= seq![digit_char(digit as nat)]);
    assert(text@ =~= before@.push(digit_char(digit as nat)));
}

/// Appends the clock for `seconds` to `text`.
pub fn push_clock(text: &mut String, seconds: u64)
    ensures
        final(text)@ == old(text)@ + clock_face(seconds as nat),
{
    let minutes: u64 = (seconds / 60) % 60;
    let rest: u64 = seconds % 60;
    proof {
        reveal_strlit(":");
    }
    push_digit(text, minutes / 10);
    push_digit(text, minutes % 10);
    text.append(":");
    push_digit(text, rest / 10);
    push_digit(text, rest % 10);
    assert(final(text)@ =~= old(text)@ + clock_face(seconds as nat));
}

/// Seconds as minutes and seconds, two digits each.
pub fn format_clock(seconds: u64) -> (text: String)
    ensures
        text@ == clock_face(seconds as nat),
{
    let mut text = String::new();
    push_clock(&mut text, seconds);
    assert(text@ =~= clock_face(seconds as nat));
    text
}

/// What to show for the daemon's answer to `Get`, given without its line's
/// end.
pub fn format_status(response: &str) -> (shown: Result<String, StatusError>)
    ensures
        match shown {
            Ok(text) => status_line(response@) == Ok::<Seq<char>, StatusError>(text@),
            Err(error) => status_line(response@) == Err::<Seq<char>, StatusError>(error),
        },
{
    let chars = chars_of(response);
    let len: usize = chars.len();
    let comma: usize = find_field_end(&chars, 0);
    let seconds: u64 = match parse_u64_range(&chars, 0, comma) {
        Some(seconds) => seconds,
        None => {
            return Err(StatusError::TimeNotANumber);
        },
    };
    if comma == len {
        return Err(StatusError::RoundsMissing);
    }
    let end: usize = find_field_end(&chars, comma + 1);
    let rounds: &str = response.substring_char(comma + 1, end);
    let mut text = String::new();
    push_clock(&mut text, seconds);
    proof {
        reveal_strlit(" | ");
    }
    text.append(" | ");
    text.append(rounds);
    assert(text@ =~= clock_face(seconds as nat) + seq![' ', '|', ' '] + rounds@);
    Ok(text)
}

/// What a client shows for the daemon's answer to `Get` is the clock for the
/// seconds left and the count of rounds, both of the one timer that the
/// answer was made from.
pub proof fn status_shows_one_timer(timer: TimerState)
    requires
        timer.time_remaining <= u64::MAX,
    ensures
        status_line(answer(timer, Request::Get)) == Ok::<Seq<char>, StatusError>(
            clock_face(timer.time_remaining) + seq![' ', '|', ' '] + decimal(timer.rounds),
        ),
{
    decimal_reads_back(timer.time_remaining);
    decimal_reads_back(timer.rounds);
    written_number_is_read_back(timer.time_remaining as u64);
    two_fields_are_read_back(decimal(timer.time_remaining), decimal(timer.rounds));
}

} // verus!
