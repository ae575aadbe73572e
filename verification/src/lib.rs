//! A pomodoro timer: the session state machine, the requests that drive it
//! and the text that travels between a client and the daemon.

pub mod display;
pub mod pomodoro;
pub mod request;
pub mod server;
pub mod text;
