//! Events that leave the library for the host, and how they are rendered.

use vstd::prelude::*;
use vstd::utf8::*;

use crate::text::{decode_utf8_bytes, join2};

verus! {

/// Which output channel of a process a line came from.
#[derive(Clone, Copy, Debug, PartialEq, Eq, Structural)]
pub enum Stream {
    Stdout,
    Stderr,
}

/// The only values that cross the library's boundary.
#[derive(Clone, Debug)]
pub enum Event {
    /// One complete line of a process's output.
    OutputLine { stream: Stream, text: String },
    /// The working directory became `path` (an absolute path).
    DirectoryChanged { path: String },
    /// A command is over; `message` is empty on clean success.
    Terminated { message: String },
}

/// Marker written in front of every line that stems from standard error.
pub const ERROR_PREFIX: &'static str = "[ERROR] ";

/// Host channel for output lines.
pub const OUTPUT_CHANNEL: &'static str = "terminal-output";

/// Host channel for directory changes.
pub const DIRECTORY_CHANNEL: &'static str = "directory-changed";

/// Host channel for command termination.
pub const TERMINATED_CHANNEL: &'static str = "terminal-terminated";

/// The text that the host shows for an event.
pub open spec fn payload_of(e: Event) -> Seq<char> {
    match e {
        Event::OutputLine { stream: Stream::Stderr, text } => ERROR_PREFIX@ + text@,
        Event::OutputLine { stream: Stream::Stdout, text } => text@,
        Event::DirectoryChanged { path } => path@,
        Event::Terminated { message } => message@,
    }
}

/// The channel on which the host delivers an event.
pub open spec fn channel_of(e: Event) -> Seq<char> {
    match e {
        Event::OutputLine { .. } => OUTPUT_CHANNEL@,
        Event::DirectoryChanged { .. } => DIRECTORY_CHANNEL@,
        Event::Terminated { .. } => TERMINATED_CHANNEL@,
    }
}

/// The event for one framed line, when its bytes are valid text.
pub open spec fn line_event_ok(stream: Stream, line: Seq<u8>, e: Event) -> bool {
    &&& valid_utf8(line)
    &&& e matches Event::OutputLine { stream: s, text }
    &&& s == stream
    &&& text@ == decode_utf8(line)
}

impl Event {
    /// An empty termination message: the command succeeded.
    pub fn terminated_ok() -> (r: Event)
        ensures
            r matches Event::Terminated { message } && message@.len() == 0,
    {
        Event::Terminated { message: String::new() }
    }

    /// The text that the host shows; standard-error lines carry the error marker.
    pub fn payload(&self) -> (r: String)
        ensures
            r@ == payload_of(*self),
    {
        match self {
            Event::OutputLine { stream: Stream::Stderr, text } => join2(ERROR_PREFIX, text.as_str()),
            Event::OutputLine { stream: Stream::Stdout, text } => text.clone(),
            Event::DirectoryChanged { path } => path.clone(),
            Event::Terminated { message } => message.clone(),
        }
    }

    /// The host channel that carries this event.
    pub fn channel(&self) -> (r: &'static str)
        ensures
            r@ == channel_of(*self),
    {
        match self {
            Event::OutputLine { .. } => OUTPUT_CHANNEL,
            Event::DirectoryChanged { .. } => DIRECTORY_CHANNEL,
            Event::Terminated { .. } => TERMINATED_CHANNEL,
        }
    }
}

/// Turns one framed line into an output event; `None` when the bytes are not
/// valid UTF-8, which ends the forwarding of that stream.
pub fn line_event(stream: Stream, line: Vec<u8>) -> (r: Option<Event>)
    ensures
        r.is_some() <==> valid_utf8(line@),
        r matches Some(e) ==> line_event_ok(stream, line@, e),
{
    match decode_utf8_bytes(line) {
        Some(text) => Some(Event::OutputLine { stream, text }),
        None => None,
    }
}

} // verus!
