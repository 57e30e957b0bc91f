//! Line framing: a raw byte stream becomes a sequence of complete lines.
//!
//! A line ends at a newline byte; the newline, and a carriage return just
//! before it, are not part of the line. Bytes after the last newline wait for
//! more input, and are handed out as a last line when the stream closes.

use vstd::prelude::*;

verus! {

/// The byte that ends a line.
pub const NEWLINE: u8 = 10;

/// A carriage return, dropped when it stands just before a newline.
pub const CARRIAGE_RETURN: u8 = 13;

/// Whether `s` holds no newline byte.
pub open spec fn no_newline(s: Seq<u8>) -> bool {
    forall|i: int| 0 <= i < s.len() ==> s[i] != NEWLINE
}

/// The bytes after the last newline of `s` (all of `s` if it has none).
pub open spec fn tail(s: Seq<u8>) -> Seq<u8>
    decreases s.len(),
{
    if s.len() == 0 {
        s
    } else if s.last() == NEWLINE {
        Seq::empty()
    } else {
        tail(s.drop_last()).push(s.last())
    }
}

/// A line without the carriage return that may end it.
pub open spec fn strip_cr(line: Seq<u8>) -> Seq<u8> {
    if line.len() > 0 && line.last() == CARRIAGE_RETURN {
        line.drop_last()
    } else {
        line
    }
}

/// The lines of `s` that a newline has completed, in order.
pub open spec fn complete_lines(s: Seq<u8>) -> Seq<Seq<u8>>
    decreases s.len(),
{
    if s.len() == 0 {
        Seq::empty()
    } else if s.last() == NEWLINE {
        complete_lines(s.drop_last()).push(strip_cr(tail(s.drop_last())))
    } else {
        complete_lines(s.drop_last())
    }
}

/// All lines of a closed stream: the completed ones, then the unterminated
/// rest if there is any.
pub open spec fn stream_lines(s: Seq<u8>) -> Seq<Seq<u8>> {
    if tail(s).len() > 0 {
        complete_lines(s).push(tail(s))
    } else {
        complete_lines(s)
    }
}

/// The contents of a vector of lines.
pub open spec fn lines_view(v: Seq<Vec<u8>>) -> Seq<Seq<u8>> {
    v.map_values(|l: Vec<u8>| l@)
}

/// What a process writes when it prints each of `lines` followed by a newline.
pub open spec fn printed(lines: Seq<Seq<u8>>) -> Seq<u8>
    decreases lines.len(),
{
    if lines.len() == 0 {
        Seq::empty()
    } else {
        printed(lines.drop_last()) + lines.last().push(NEWLINE)
    }
}

/// A line that printing and framing give back unchanged.
pub open spec fn plain_line(line: Seq<u8>) -> bool {
    no_newline(line) && !(line.len() > 0 && line.last() == CARRIAGE_RETURN)
}

proof fn lemma_tail_no_newline(s: Seq<u8>)
    ensures
        no_newline(tail(s)),
    decreases s.len(),
{
    if s.len() > 0 && s.last() != NEWLINE {
        lemma_tail_no_newline(s.drop_last());
    }
}

proof fn lemma_newline_free(s: Seq<u8>)
    requires
        no_newline(s),
    ensures
        tail(s) == s,
        complete_lines(s) == Seq::<Seq<u8>>::empty(),
    decreases s.len(),
{
    if s.len() > 0 {
        assert(no_newline(s.drop_last()));
        lemma_newline_free(s.drop_last());
        assert(s.drop_last().push(s.last()) =~= s);
    }
}

/// Framing does not depend on how the stream is cut into chunks: framing `a`
/// and then the pending rest of `a` followed by `b` gives the same lines, and
/// leaves the same pending bytes, as framing `a + b` at once.
pub proof fn chunking_is_invisible(a: Seq<u8>, b: Seq<u8>)
    ensures
        complete_lines(a) + complete_lines(tail(a) + b) == complete_lines(a + b),
        tail(tail(a) + b) == tail(a + b),
    decreases b.len(),
{
    if b.len() == 0 {
        lemma_tail_no_newline(a);
        lemma_newline_free(tail(a));
        assert(a + b =~= a);
        assert(tail(a) + b =~= tail(a));
        assert(complete_lines(a) + Seq::<Seq<u8>>::empty() =~= complete_lines(a));
    } else {
        let b0 = b.drop_last();
        chunking_is_invisible(a, b0);
        assert((a + b).drop_last() =~= a + b0);
        assert((tail(a) + b).drop_last() =~= tail(a) + b0);
        assert((a + b).last() == b.last());
        assert((tail(a) + b).last() == b.last());
        if b.last() == NEWLINE {
            assert(complete_lines(a) + complete_lines(tail(a) + b0).push(strip_cr(tail(tail(a) + b0)))
                =~= (complete_lines(a) + complete_lines(tail(a) + b0)).push(strip_cr(tail(tail(a) + b0))));
        }
    }
}

/// Printing lines, each with its newline, and framing the output gives the
/// same lines back, in order, when no line holds a newline or ends in a
/// carriage return.
pub proof fn printed_lines_come_back(lines: Seq<Seq<u8>>)
    requires
        forall|i: int| 0 <= i < lines.len() ==> plain_line(#[trigger] lines[i]),
    ensures
        stream_lines(printed(lines)) == lines,
        complete_lines(printed(lines)) == lines,
        tail(printed(lines)) == Seq::<u8>::empty(),
    decreases lines.len(),
{
    if lines.len() > 0 {
        let front = lines.drop_last();
        let last = lines.last();
        assert forall|i: int| 0 <= i < front.len() implies plain_line(#[trigger] front[i]) by {
            assert(front[i] == lines[i]);
        }
        printed_lines_come_back(front);
        assert(plain_line(lines[lines.len() - 1]));
        let p = printed(front);
        let s = printed(lines);
        assert(s == p + last.push(NEWLINE));
        chunking_is_invisible(p, last);
        lemma_newline_free(last);
        assert(tail(p) + last =~= last);
        assert(s.drop_last() =~= p + last);
        assert(s.last() == NEWLINE);
        assert(complete_lines(p) + Seq::<Seq<u8>>::empty() =~= complete_lines(p));
        assert(complete_lines(s) =~= lines);
    }
}

/// Cuts a byte stream into lines as its chunks arrive.
pub struct LineFramer {
    pending: Vec<u8>,
}

impl View for LineFramer {
    type V = Seq<u8>;

    /// The bytes received after the last newline.
    closed spec fn view(&self) -> Seq<u8> {
        self.pending@
    }
}

impl LineFramer {
    /// Pending bytes never hold a newline.
    pub open spec fn wf(&self) -> bool {
        no_newline(self@)
    }

    /// A framer that has received nothing.
    pub fn new() -> (r: LineFramer)
        ensures
            r.wf(),
            r@ == Seq::<u8>::empty(),
    {
        LineFramer { pending: Vec::new() }
    }

    /// Takes the next chunk of the stream and returns the lines it completes.
    pub fn push(&mut self, chunk: &[u8]) -> (r: Vec<Vec<u8>>)
        requires
            old(self).wf(),
        ensures
            final(self).wf(),
            final(self)@ == tail(old(self)@ + chunk@),
            lines_view(r@) == complete_lines(old(self)@ + chunk@),
    {
        let ghost start = self@;
        proof {
            lemma_newline_free(start);
            assert(start + chunk@.subrange(0, 0) =~= start);
        }
        let mut out: Vec<Vec<u8>> = Vec::new();
        let mut i: usize = 0;
        while i < chunk.len()
            invariant
                i <= chunk@.len(),
                self@ == tail(start + chunk@.subrange(0, i as int)),
                lines_view(out@) == complete_lines(start + chunk@.subrange(0, i as int)),
            decreases chunk@.len() - i,
        {
            let b = chunk[i];
            let ghost before = start + chunk@.subrange(0, i as int);
            let ghost after = start + chunk@.subrange(0, i + 1);
            assert(after.drop_last() =~= before);
            assert(after.last() == b);
            if b == NEWLINE {
                let mut line: Vec<u8> = Vec::new();
                std::mem::swap(&mut line, &mut self.pending);
                let n = line.len();
                if n > 0 && line[n - 1] == CARRIAGE_RETURN {
                    line.pop();
                }
                assert(line@ == strip_cr(tail(before)));
                out.push(line);
                assert(lines_view(out@) =~= complete_lines(before).push(strip_cr(tail(before))));
            } else {
                self.pending.push(b);
            }
            i += 1;
        }
        proof {
            assert(chunk@.subrange(0, chunk@.len() as int) =~= chunk@);
            lemma_tail_no_newline(start + chunk@);
        }
        out
    }

    /// Closes the stream: returns the unterminated last line, if any.
    pub fn finish(&mut self) -> (r: Option<Vec<u8>>)
        requires
            old(self).wf(),
        ensures
            final(self).wf(),
            final(self)@ == Seq::<u8>::empty(),
            r.is_some() <==> old(self)@.len() > 0,
            r matches Some(line) ==> line@ == old(self)@,
    {
        let mut line: Vec<u8> = Vec::new();
        std::mem::swap(&mut line, &mut self.pending);
        if line.len() > 0 {
            Some(line)
        } else {
            None
        }
    }
}

/// Frames a whole closed stream at once.
pub fn frame_stream(bytes: &[u8]) -> (r: Vec<Vec<u8>>)
    ensures
        lines_view(r@) == stream_lines(bytes@),
{
    let mut framer = LineFramer::new();
    let mut lines = framer.push(bytes);
    proof {
        assert(Seq::<u8>::empty() + bytes@ =~= bytes@);
    }
    match framer.finish() {
        Some(last) => {
            lines.push(last);
            assert(lines_view(lines@) =~= complete_lines(bytes@).push(tail(bytes@)));
        },
        None => {},
    }
    lines
}

} // verus!
