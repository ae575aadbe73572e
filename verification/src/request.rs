//! The requests that a client sends to the daemon, and their text.
//!
//! A request travels as one line: a word, and for two of the requests a comma
//! and an argument. [`Request::wire`] says how each request is written and
//! [`Request::parsed`] which request, if any, a line stands for.

use crate::text::{
    chars_of, decimal, decimal_reads_back, find_field_end, first_field, parse_u64_range,
    parsed_u64, push_u64, range_is, second_field, two_fields_are_read_back,
    written_number_is_read_back,
};
use vstd::prelude::*;

verus! {

pub const START: &'static str = "start";

pub const STOP: &'static str = "stop";

pub const GET: &'static str = "get";

pub const SET: &'static str = "set";

pub const SESSION: &'static str = "session";

pub const NEXT_SESSION: &'static str = "next-session";

pub const RESET_ROUNDS: &'static str = "reset-rounds";

/// What a client can ask of the daemon.
#[derive(Clone, Copy, Debug, PartialEq, Eq, Structural)]
pub enum Request {
    /// Asks for the seconds left and the rounds counted.
    Get,
    /// Overwrites the seconds left.
    SetTime(u64),
    /// Starts the clock.
    Start,
    /// Stops the clock.
    Stop,
    /// Asks which session is under way.
    Session,
    /// Goes over to the next session; the flag says not to start its clock.
    NextSession(bool),
    /// Forgets the rounds counted and returns to a stopped focus session.
    ResetRounds,
}

/// Why a line stands for no request.
#[derive(Clone, Copy, Debug, PartialEq, Eq, Structural)]
pub enum RequestError {
    /// The line names no request.
    WrongString,
    /// `set` is not followed by a number of seconds.
    InvalidSetArgument,
    /// `next-session` is not followed by `true` or `false`.
    InvalidNextSessionArgument,
}

impl RequestError {
    /// The error in words.
    pub fn message(&self) -> (message: &'static str)
        ensures
            message@ == match *self {
                RequestError::WrongString => "Wrong string"@,
                RequestError::InvalidSetArgument => "invalid argument to set-time"@,
                RequestError::InvalidNextSessionArgument => "invalid argument to next-session"@,
            },
    {
        match self {
            RequestError::WrongString => "Wrong string",
            RequestError::InvalidSetArgument => "invalid argument to set-time",
            RequestError::InvalidNextSessionArgument => "invalid argument to next-session",
        }
    }
}

/// How a flag is written.
pub open spec fn bool_text(flag: bool) -> Seq<char> {
    if flag {
        "true"@
    } else {
        "false"@
    }
}

/// How a flag is read: `true` or `false`, and nothing else.
pub open spec fn parsed_bool(s: Seq<char>) -> Option<bool> {
    if s == "true"@ {
        Some(true)
    } else if s == "false"@ {
        Some(false)
    } else {
        None
    }
}

impl Request {
    /// The line that stands for a request.
    pub open spec fn wire(self) -> Seq<char> {
        match self {
            Request::Get => GET@,
            Request::SetTime(seconds) => SET@ + seq![','] + decimal(seconds as nat),
            Request::Start => START@,
            Request::Stop => STOP@,
            Request::Session => SESSION@,
            Request::NextSession(no_start) => NEXT_SESSION@ + seq![','] + bool_text(no_start),
            Request::ResetRounds => RESET_ROUNDS@,
        }
    }

    /// The request that a line stands for. The requests without an argument
    /// are their word and nothing more. The two with an argument are read by
    /// fields: the word, a comma, the argument; further fields are not looked
    /// at.
    pub open spec fn parsed(s: Seq<char>) -> Result<Request, RequestError> {
        if s == GET@ {
            Ok(Request::Get)
        } else if s == START@ {
            Ok(Request::Start)
        } else if s == STOP@ {
            Ok(Request::Stop)
        } else if s == SESSION@ {
            Ok(Request::Session)
        } else if s == RESET_ROUNDS@ {
            Ok(Request::ResetRounds)
        } else if first_field(s) == SET@ {
            match second_field(s) {
                Some(argument) => match parsed_u64(argument) {
                    Some(seconds) => Ok(Request::SetTime(seconds)),
                    None => Err(RequestError::InvalidSetArgument),
                },
                None => Err(RequestError::InvalidSetArgument),
            }
        } else if first_field(s) == NEXT_SESSION@ {
            match second_field(s) {
                Some(argument) => match parsed_bool(argument) {
                    Some(no_start) => Ok(Request::NextSession(no_start)),
                    None => Err(RequestError::InvalidNextSessionArgument),
                },
                None => Err(RequestError::InvalidNextSessionArgument),
            }
        } else {
            Err(RequestError::WrongString)
        }
    }

    /// Writes the request as a line, without the line's end.
    pub fn to_line(&self) -> (line: String)
        ensures
            line@ == self.wire(),
    {
        proof {
            reveal_strlit(",");
            reveal_strlit("true");
            reveal_strlit("false");
        }
        match *self {
            Request::Get => String::from_str(GET),
            Request::SetTime(seconds) => {
                let mut line = String::from_str(SET);
                line.append(",");
                assert(","@ =~= seq![',']);
                push_u64(&mut line, seconds);
                line
            },
            Request::Start => String::from_str(START),
            Request::Stop => String::from_str(STOP),
            Request::Session => String::from_str(SESSION),
            Request::NextSession(no_start) => {
                let mut line = String::from_str(NEXT_SESSION);
                line.append(",");
                assert(","@ =~= seq![',']);
                if no_start {
                    line.append("true");
                } else {
                    line.append("false");
                }
                line
            },
            Request::ResetRounds => String::from_str(RESET_ROUNDS),
        }
    }

    /// Reads a line, given without its end, as a request.
    pub fn from_line(string: &str) -> (request: Result<Request, RequestError>)
        ensures
            request == Request::parsed(string@),
    {
        let chars = chars_of(string);
        let len: usize = chars.len();
        assert(chars@.subrange(0, len as int) =~= string@);
        if range_is(&chars, 0, len, GET) {
            return Ok(Request::Get);
        }
        if range_is(&chars, 0, len, START) {
            return Ok(Request::Start);
        }
        if range_is(&chars, 0, len, STOP) {
            return Ok(Request::Stop);
        }
        if range_is(&chars, 0, len, SESSION) {
            return Ok(Request::Session);
        }
        if range_is(&chars, 0, len, RESET_ROUNDS) {
            return Ok(Request::ResetRounds);
        }
        let comma: usize = find_field_end(&chars, 0);
        if range_is(&chars, 0, comma, SET) {
            if comma == len {
                return Err(RequestError::InvalidSetArgument);
            }
            let end: usize = find_field_end(&chars, comma + 1);
            match parse_u64_range(&chars, comma + 1, end) {
                Some(seconds) => Ok(Request::SetTime(seconds)),
                None => Err(RequestError::InvalidSetArgument),
            }
        } else if range_is(&chars, 0, comma, NEXT_SESSION) {
            if comma == len {
                return Err(RequestError::InvalidNextSessionArgument);
            }
            let end: usize = find_field_end(&chars, comma + 1);
            if range_is(&chars, comma + 1, end, "true") {
                Ok(Request::NextSession(true))
            } else if range_is(&chars, comma + 1, end, "false") {
                proof {
                    reveal_strlit("true");
                    reveal_strlit("false");
                }
                Ok(Request::NextSession(false))
            } else {
                Err(RequestError::InvalidNextSessionArgument)
            }
        } else {
            Err(RequestError::WrongString)
        }
    }
}

impl<'a> TryFrom<&'a str> for Request {
    type Error = RequestError;

    /// Reads a line, given without its end, as a request.
    fn try_from(string: &'a str) -> (request: Result<Request, RequestError>)
        ensures
            request == Request::parsed(string@),
    {
        Request::from_line(string)
    }
}

impl<'a> vstd::std_specs::convert::TryFromSpecImpl<&'a str> for Request {
    open spec fn obeys_try_from_spec() -> bool {
        true
    }

    open spec fn try_from_spec(v: &'a str) -> Result<Request, RequestError> {
        Request::parsed(v@)
    }
}

impl From<Request> for String {
    /// Writes the request as a line, without the line's end.
    fn from(t: Request) -> (line: String)
        ensures
            line@ == t.wire(),
    {
        t.to_line()
    }
}

/// Contracts know a `String` by its characters alone, so no `String` can be
/// named as the result here: `from` states the characters of its result
/// itself.
impl vstd::std_specs::convert::FromSpecImpl<Request> for String {
    open spec fn obeys_from_spec() -> bool {
        false
    }

    open spec fn from_spec(v: Request) -> String {
        arbitrary()
    }
}

/// What the words of the requests are, character by character.
proof fn words_spelled_out()
    ensures
        GET@ =~= seq!['g', 'e', 't'],
        SET@ =~= seq!['s', 'e', 't'],
        START@ =~= seq!['s', 't', 'a', 'r', 't'],
        STOP@ =~= seq!['s', 't', 'o', 'p'],
        SESSION@ =~= seq!['s', 'e', 's', 's', 'i', 'o', 'n'],
        NEXT_SESSION@ =~= seq!['n', 'e', 'x', 't', '-', 's', 'e', 's', 's', 'i', 'o', 'n'],
        RESET_ROUNDS@ =~= seq!['r', 'e', 's', 'e', 't', '-', 'r', 'o', 'u', 'n', 'd', 's'],
        "true"@ =~= seq!['t', 'r', 'u', 'e'],
        "false"@ =~= seq!['f', 'a', 'l', 's', 'e'],
{
    reveal_strlit("get");
    reveal_strlit("set");
    reveal_strlit("start");
    reveal_strlit("stop");
    reveal_strlit("session");
    reveal_strlit("next-session");
    reveal_strlit("reset-rounds");
    reveal_strlit("true");
    reveal_strlit("false");
}

/// Every request, written as a line and read again, is the same request.
pub proof fn written_request_is_read_back(request: Request)
    ensures
        Request::parsed(request.wire()) == Ok::<Request, RequestError>(request),
{
    words_spelled_out();
    let line = request.wire();
    match request {
        Request::SetTime(seconds) => {
            let argument = decimal(seconds as nat);
            decimal_reads_back(seconds as nat);
            written_number_is_read_back(seconds);
            two_fields_are_read_back(SET@, argument);
            assert(line.len() >= 5);
            assert(line[0] == 's' && line[1] == 'e' && line[2] == 't' && line[3] == ',');
        },
        Request::NextSession(no_start) => {
            let argument = bool_text(no_start);
            two_fields_are_read_back(NEXT_SESSION@, argument);
            assert(line.len() >= 17);
            assert(line[0] == 'n');
            assert(first_field(line).len() == 12);
        },
        _ => {},
    }
}

/// Two requests that are written as the same line are the same request.
pub proof fn lines_tell_requests_apart(one: Request, other: Request)
    requires
        one.wire() == other.wire(),
    ensures
        one == other,
{
    written_request_is_read_back(one);
    written_request_is_read_back(other);
}

} // verus!
