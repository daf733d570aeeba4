//! The line reader: bytes in, completed lines out.
//!
//! A line ends at a line feed or at a carriage return. The terminator is not
//! part of the line, and a terminator that ends nothing (the second of `\r\n`,
//! or a blank line) yields no line. Bytes after the last terminator stay
//! pending and are never given out.

use vstd::prelude::*;

verus! {

pub const LINE_FEED: u8 = 10;

pub const CARRIAGE_RETURN: u8 = 13;

/// A byte that ends a line.
pub open spec fn is_terminator(b: u8) -> bool {
    b == LINE_FEED || b == CARRIAGE_RETURN
}

/// What is pending after one more byte.
pub open spec fn pending_after(pending: Seq<u8>, b: u8) -> Seq<u8> {
    if is_terminator(b) {
        Seq::empty()
    } else {
        pending.push(b)
    }
}

/// The line that one more byte completes, if it completes one.
pub open spec fn completed_by(pending: Seq<u8>, b: u8) -> Option<Seq<u8>> {
    if is_terminator(b) && pending.len() > 0 {
        Some(pending)
    } else {
        None
    }
}

/// What is pending once all of `bytes` has come in after `pending`.
pub open spec fn pending_after_all(pending: Seq<u8>, bytes: Seq<u8>) -> Seq<u8>
    decreases bytes.len(),
{
    if bytes.len() == 0 {
        pending
    } else {
        pending_after(pending_after_all(pending, bytes.drop_last()), bytes.last())
    }
}

/// The lines completed while `bytes` comes in after `pending`, in order.
pub open spec fn lines_from(pending: Seq<u8>, bytes: Seq<u8>) -> Seq<Seq<u8>>
    decreases bytes.len(),
{
    if bytes.len() == 0 {
        Seq::empty()
    } else {
        let earlier = lines_from(pending, bytes.drop_last());
        match completed_by(pending_after_all(pending, bytes.drop_last()), bytes.last()) {
            Some(line) => earlier.push(line),
            None => earlier,
        }
    }
}

/// The lines of a whole stream.
pub open spec fn complete_lines(bytes: Seq<u8>) -> Seq<Seq<u8>> {
    lines_from(Seq::empty(), bytes)
}

/// A line as the reader gives it out: not empty, no terminator in it.
pub open spec fn is_line(line: Seq<u8>) -> bool {
    line.len() > 0 && forall|i: int| 0 <= i < line.len() ==> !is_terminator(#[trigger] line[i])
}

/// The stream that holds exactly `lines`, each followed by a line feed.
pub open spec fn newline_terminated(lines: Seq<Seq<u8>>) -> Seq<u8>
    decreases lines.len(),
{
    if lines.len() == 0 {
        Seq::empty()
    } else {
        newline_terminated(lines.drop_last()) + lines.last().push(LINE_FEED)
    }
}

/// One byte completes at most one line.
pub proof fn lemma_read_one_byte(pending: Seq<u8>, b: u8)
    ensures
        pending_after_all(pending, seq![b]) == pending_after(pending, b),
        lines_from(pending, seq![b]) == match completed_by(pending, b) {
            Some(line) => seq![line],
            None => Seq::empty(),
        },
{
    let one = seq![b];
    assert(one.drop_last() =~= Seq::<u8>::empty());
    assert(one.last() == b);
    assert(pending_after_all(pending, one.drop_last()) == pending);
    assert(lines_from(pending, one.drop_last()) =~= Seq::<Seq<u8>>::empty());
    match completed_by(pending, b) {
        Some(line) => {
            assert(lines_from(pending, one) =~= seq![line]);
        },
        None => {},
    }
}

/// Reading `first + second` is reading `first` and then `second`.
pub proof fn lemma_read_in_two(pending: Seq<u8>, first: Seq<u8>, second: Seq<u8>)
    ensures
        pending_after_all(pending, first + second) == pending_after_all(
            pending_after_all(pending, first),
            second,
        ),
        lines_from(pending, first + second) == lines_from(pending, first) + lines_from(
            pending_after_all(pending, first),
            second,
        ),
    decreases second.len(),
{
    if second.len() == 0 {
        assert(first + second == first);
    } else {
        lemma_read_in_two(pending, first, second.drop_last());
        assert((first + second).drop_last() == first + second.drop_last());
        assert((first + second).last() == second.last());
    }
}

/// While no terminator comes, the bytes pile up and no line is given out.
pub proof fn lemma_read_within_line(pending: Seq<u8>, bytes: Seq<u8>)
    requires
        forall|i: int| 0 <= i < bytes.len() ==> !is_terminator(#[trigger] bytes[i]),
    ensures
        pending_after_all(pending, bytes) == pending + bytes,
        lines_from(pending, bytes) == Seq::<Seq<u8>>::empty(),
    decreases bytes.len(),
{
    if bytes.len() == 0 {
        assert(pending + bytes == pending);
    } else {
        lemma_read_within_line(pending, bytes.drop_last());
        assert(!is_terminator(bytes[bytes.len() - 1]));
        assert((pending + bytes.drop_last()).push(bytes.last()) == pending + bytes);
    }
}

/// A line followed by a line feed is given out whole, and nothing stays
/// pending.
pub proof fn lemma_read_one_line(line: Seq<u8>)
    requires
        is_line(line),
    ensures
        pending_after_all(Seq::empty(), line.push(LINE_FEED)) == Seq::<u8>::empty(),
        lines_from(Seq::empty(), line.push(LINE_FEED)) == seq![line],
{
    let stream = line.push(LINE_FEED);
    lemma_read_within_line(Seq::empty(), line);
    assert(stream.drop_last() == line);
    assert(Seq::<u8>::empty() + line == line);
}

/// Of a stream that holds only complete lines, each ended by a line feed, the
/// reader gives out exactly those lines, without the line feeds, in order, and
/// keeps nothing pending.
pub proof fn lemma_complete_lines_of_newline_terminated(lines: Seq<Seq<u8>>)
    requires
        forall|i: int| 0 <= i < lines.len() ==> is_line(#[trigger] lines[i]),
    ensures
        complete_lines(newline_terminated(lines)) == lines,
        pending_after_all(Seq::empty(), newline_terminated(lines)) == Seq::<u8>::empty(),
    decreases lines.len(),
{
    if lines.len() > 0 {
        let earlier = lines.drop_last();
        lemma_complete_lines_of_newline_terminated(earlier);
        lemma_read_in_two(
            Seq::empty(),
            newline_terminated(earlier),
            lines.last().push(LINE_FEED),
        );
        lemma_read_one_line(lines.last());
        assert(earlier + seq![lines.last()] == lines);
    }
}

/// Every line that the reader gives out is not empty and holds no terminator,
/// provided that what was pending held none.
pub proof fn lemma_lines_are_lines(pending: Seq<u8>, bytes: Seq<u8>)
    requires
        forall|i: int| 0 <= i < pending.len() ==> !is_terminator(#[trigger] pending[i]),
    ensures
        forall|k: int|
            0 <= k < lines_from(pending, bytes).len() ==> is_line(
                #[trigger] lines_from(pending, bytes)[k],
            ),
        forall|i: int|
            0 <= i < pending_after_all(pending, bytes).len() ==> !is_terminator(
                #[trigger] pending_after_all(pending, bytes)[i],
            ),
    decreases bytes.len(),
{
    if bytes.len() > 0 {
        lemma_lines_are_lines(pending, bytes.drop_last());
        let earlier = lines_from(pending, bytes.drop_last());
        let held = pending_after_all(pending, bytes.drop_last());
        assert forall|k: int| 0 <= k < lines_from(pending, bytes).len() implies is_line(
            #[trigger] lines_from(pending, bytes)[k],
        ) by {
            if k < earlier.len() {
                assert(lines_from(pending, bytes)[k] == earlier[k]);
            } else {
                assert(lines_from(pending, bytes)[k] == held);
            }
        }
    }
}

/// The line reader: it holds the bytes of the line that is still coming in.
pub struct LineReader {
    buffer: Vec<u8>,
}

impl View for LineReader {
    type V = Seq<u8>;

    /// The pending bytes.
    closed spec fn view(&self) -> Seq<u8> {
        self.buffer@
    }
}

impl LineReader {
    /// A reader with nothing pending.
    pub fn new() -> (reader: LineReader)
        ensures
            reader@ == Seq::<u8>::empty(),
    {
        LineReader { buffer: Vec::new() }
    }

    /// The bytes of the line that is still coming in.
    pub fn pending(&self) -> (bytes: &[u8])
        ensures
            bytes@ == self@,
    {
        self.buffer.as_slice()
    }

    /// Takes one more byte, and gives out the line that it completes, if any.
    pub fn feed(&mut self, b: u8) -> (line: Option<Vec<u8>>)
        ensures
            final(self)@ == pending_after(old(self)@, b),
            line.deep_view() == completed_by(old(self)@, b),
    {
        if b == LINE_FEED || b == CARRIAGE_RETURN {
            if self.buffer.len() == 0 {
                None
            } else {
                let mut line: Vec<u8> = Vec::new();
                core::mem::swap(&mut self.buffer, &mut line);
                assert(line.deep_view() =~= line@);
                Some(line)
            }
        } else {
            self.buffer.push(b);
            None
        }
    }
}

/// The lines of a whole stream, in order.
pub fn read_lines(bytes: &[u8]) -> (lines: Vec<Vec<u8>>)
    ensures
        lines.deep_view() == complete_lines(bytes@),
{
    let mut reader = LineReader::new();
    let mut lines: Vec<Vec<u8>> = Vec::new();
    let mut i: usize = 0;
    while i < bytes.len()
        invariant
            i <= bytes@.len(),
            reader@ == pending_after_all(Seq::empty(), bytes@.take(i as int)),
            lines.deep_view() == lines_from(Seq::empty(), bytes@.take(i as int)),
        decreases bytes@.len() - i,
    {
        let ghost before = lines.deep_view();
        assert(bytes@.take(i + 1).drop_last() == bytes@.take(i as int));
        match reader.feed(bytes[i]) {
            Some(line) => {
                lines.push(line);
                assert(lines.deep_view() =~= before.push(line.deep_view()));
            },
            None => {},
        }
        i = i + 1;
    }
    assert(bytes@.take(i as int) == bytes@);
    lines
}

} // verus!
