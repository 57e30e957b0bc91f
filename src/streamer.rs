//! Forwarding one output stream of a process as line events.
//!
//! The host reads a pipe chunk by chunk and hands each chunk over; the
//! forwarder frames it and tags every complete line with its stream. A line
//! that is not valid UTF-8 ends the forwarding of that stream, as a read error
//! does; neither is reported as an event of its own.

use vstd::prelude::*;

use crate::events::{line_event, line_event_ok, Event, Stream};
use crate::framer::{
    complete_lines, lines_view, plain_line, printed, printed_lines_come_back, stream_lines, tail,
    LineFramer,
};

verus! {

/// `events` forwards `lines` of `stream` in order, up to the first line that
/// is not valid text, and stops there.
pub open spec fn forwards(stream: Stream, lines: Seq<Seq<u8>>, events: Seq<Event>) -> bool {
    &&& events.len() <= lines.len()
    &&& forall|i: int| 0 <= i < events.len() ==> line_event_ok(stream, lines[i], #[trigger] events[i])
    &&& events.len() < lines.len() ==> !vstd::utf8::valid_utf8(lines[events.len() as int])
}

/// A process that prints `lines` (each a plain line of valid text, each
/// with its newline) and closes its output is forwarded as exactly one event
/// per line, in the order printed, each carrying that line's text.
pub proof fn printed_lines_forwarded(stream: Stream, lines: Seq<Seq<u8>>, events: Seq<Event>)
    requires
        forall|i: int| 0 <= i < lines.len() ==> plain_line(#[trigger] lines[i]),
        forall|i: int| 0 <= i < lines.len() ==> vstd::utf8::valid_utf8(#[trigger] lines[i]),
        forwards(stream, stream_lines(printed(lines)), events),
    ensures
        events.len() == lines.len(),
        forall|i: int| 0 <= i < events.len() ==> line_event_ok(stream, lines[i], #[trigger] events[i]),
{
    printed_lines_come_back(lines);
}

/// Turns framed lines into events, stopping at the first one that does not
/// decode.
pub fn forward_lines(stream: Stream, lines: Vec<Vec<u8>>) -> (r: Vec<Event>)
    ensures
        forwards(stream, lines_view(lines@), r@),
{
    let ghost all = lines_view(lines@);
    let mut out: Vec<Event> = Vec::new();
    let mut rest = lines;
    while rest.len() > 0
        invariant
            all == lines_view(lines@),
            out@.len() + rest@.len() == all.len(),
            lines_view(rest@) == all.subrange(out@.len() as int, all.len() as int),
            forall|i: int| 0 <= i < out@.len() ==> line_event_ok(stream, all[i], #[trigger] out@[i]),
        decreases rest@.len(),
    {
        let ghost k = out@.len() as int;
        let ghost before = rest@;
        let line = rest.remove(0);
        assert(lines_view(before)[0] == line@);
        assert(line@ == all[k]);
        assert forall|j: int| 0 <= j < rest@.len() implies #[trigger] lines_view(rest@)[j] == all[k + 1 + j] by {
            assert(rest@[j] == before[j + 1]);
            assert(lines_view(before)[j + 1] == all[k + 1 + j]);
        }
        assert(lines_view(rest@) =~= all.subrange(k + 1, all.len() as int));
        let ghost text = line@;
        match line_event(stream, line) {
            Some(e) => {
                out.push(e);
            },
            None => {
                assert(!vstd::utf8::valid_utf8(text));
                return out;
            },
        }
    }
    out
}

/// Forwards one output stream of a process, chunk by chunk.
pub struct OutputForwarder {
    framer: LineFramer,
    stream: Stream,
    open: bool,
}

impl OutputForwarder {
    /// Bytes received after the last complete line.
    pub closed spec fn pending(&self) -> Seq<u8> {
        self.framer@
    }

    /// The stream whose lines this forwarder tags.
    pub closed spec fn stream_spec(&self) -> Stream {
        self.stream
    }

    /// Whether lines are still forwarded.
    pub closed spec fn is_open_spec(&self) -> bool {
        self.open
    }

    pub closed spec fn wf(&self) -> bool {
        self.framer.wf()
    }

    /// A forwarder for `stream` that has received nothing.
    pub fn new(stream: Stream) -> (r: OutputForwarder)
        ensures
            r.wf(),
            r.pending() == Seq::<u8>::empty(),
            r.stream_spec() == stream,
            r.is_open_spec(),
    {
        OutputForwarder { framer: LineFramer::new(), stream, open: true }
    }

    /// Whether lines are still forwarded.
    pub fn is_open(&self) -> (r: bool)
        ensures
            r == self.is_open_spec(),
    {
        self.open
    }

    /// Takes the next chunk read from the pipe and returns the events for the
    /// lines it completes. Once a line failed to decode, nothing more is
    /// forwarded.
    pub fn feed(&mut self, chunk: &[u8]) -> (r: Vec<Event>)
        requires
            old(self).wf(),
        ensures
            final(self).wf(),
            final(self).stream_spec() == old(self).stream_spec(),
            !old(self).is_open_spec() ==> r@.len() == 0 && !final(self).is_open_spec(),
            old(self).is_open_spec() ==> {
                let lines = complete_lines(old(self).pending() + chunk@);
                &&& forwards(old(self).stream_spec(), lines, r@)
                &&& final(self).pending() == tail(old(self).pending() + chunk@)
                &&& final(self).is_open_spec() == (r@.len() == lines.len())
            },
    {
        if !self.open {
            return Vec::new();
        }
        let lines = self.framer.push(chunk);
        let n = lines.len();
        let events = forward_lines(self.stream, lines);
        if events.len() < n {
            self.open = false;
        }
        events
    }

    /// The pipe reached its end (or failed): returns the event for the
    /// unterminated last line, if there is one and forwarding is still on.
    pub fn close(&mut self) -> (r: Vec<Event>)
        requires
            old(self).wf(),
        ensures
            final(self).wf(),
            !final(self).is_open_spec(),
            final(self).pending() == Seq::<u8>::empty(),
            !old(self).is_open_spec() || old(self).pending().len() == 0 ==> r@.len() == 0,
            old(self).is_open_spec() && old(self).pending().len() > 0 ==> forwards(
                old(self).stream_spec(),
                seq![old(self).pending()],
                r@,
            ),
    {
        let last = self.framer.finish();
        let was_open = self.open;
        self.open = false;
        if !was_open {
            return Vec::new();
        }
        match last {
            Some(line) => {
                let mut lines: Vec<Vec<u8>> = Vec::new();
                lines.push(line);
                let ghost one = lines@;
                proof {
                    assert(lines_view(one) =~= seq![old(self).pending()]);
                }
                forward_lines(self.stream, lines)
            },
            None => Vec::new(),
        }
    }
}

} // verus!
