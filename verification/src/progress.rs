//! The progress extractor: from the lines of a diagnostic stream to log lines
//! and completion fractions.
//!
//! The first duration marker of a stream fixes the total; no later one changes
//! it. Every position marker that comes while the total is known and not zero
//! gives a fraction, cut off at one. Every line is logged, but for those that
//! begin with `frame=`.

use crate::fraction::{Fraction, Ratio};
use crate::lines::{complete_lines, lines_from, pending_after_all, LineReader};
use crate::pattern::{duration_marker, find_duration, find_position, position_marker};
use crate::text::{lossy_text, utf8_lossy};
use vstd::prelude::*;
use vstd::utf8::{decode_utf8, valid_utf8};

verus! {

/// What the decoder reports to its consumer.
#[derive(Clone, Debug)]
pub enum ProgressInfo {
    /// One completed line of diagnostic output.
    Log(String),
    /// The current completion estimate.
    Percentage(Fraction),
}

/// A [`ProgressInfo`] as the contracts see it.
pub enum ProgressView {
    Log(Seq<char>),
    Percentage(Ratio),
}

impl View for ProgressInfo {
    type V = ProgressView;

    open spec fn view(&self) -> ProgressView {
        match self {
            ProgressInfo::Log(text) => ProgressView::Log(text@),
            ProgressInfo::Percentage(fraction) => ProgressView::Percentage(fraction@),
        }
    }
}

impl DeepView for ProgressInfo {
    type V = ProgressView;

    open spec fn deep_view(&self) -> ProgressView {
        self@
    }
}

/// The bytes of `frame=`, the prefix of the lines that are not logged.
pub open spec fn frame_prefix() -> Seq<u8> {
    seq![102u8, 114u8, 97u8, 109u8, 101u8, 61u8]
}

/// A line that begins with `frame=`.
pub open spec fn is_frame_line(line: Seq<u8>) -> bool {
    line.len() >= 6 && line.take(6) == frame_prefix()
}

/// A count of microseconds as a number.
pub open spec fn as_nat(micros: Option<u64>) -> Option<nat> {
    match micros {
        Some(m) => Some(m as nat),
        None => None,
    }
}

/// The total once a line's duration marker is taken in: the first one stays.
pub open spec fn total_after(total: Option<nat>, duration: Option<nat>) -> Option<nat> {
    if total is Some {
        total
    } else {
        duration
    }
}

/// The fraction that a position marker gives: `min(position / total, 1)`,
/// where the total is known and not zero.
pub open spec fn fraction_at(total: Option<nat>, position: Option<nat>) -> Option<Ratio> {
    match (total, position) {
        (Some(whole), Some(part)) => if whole > 0 {
            Some(Ratio::clamped(part, whole))
        } else {
            None
        },
        _ => None,
    }
}

/// What is reported for a completed line: its text, unless it is a frame line,
/// and then its fraction, if it gives one. `total` is the total with this
/// line's own duration marker taken in.
pub open spec fn events_for(
    line: Seq<u8>,
    text: Seq<char>,
    total: Option<nat>,
    position: Option<nat>,
) -> Seq<ProgressView> {
    let log = if is_frame_line(line) {
        Seq::empty()
    } else {
        seq![ProgressView::Log(text)]
    };
    match fraction_at(total, position) {
        Some(ratio) => log.push(ProgressView::Percentage(ratio)),
        None => log,
    }
}

/// The time of a line's duration marker, if it has one.
pub open spec fn line_duration(line: Seq<u8>) -> Option<nat> {
    match duration_marker(utf8_lossy(line)) {
        Some(marker) => Some(marker.micros()),
        None => None,
    }
}

/// The time of a line's position marker, if it has one.
pub open spec fn line_position(line: Seq<u8>) -> Option<nat> {
    match position_marker(utf8_lossy(line)) {
        Some(marker) => Some(marker.micros()),
        None => None,
    }
}

/// The total after a line.
pub open spec fn total_after_line(total: Option<nat>, line: Seq<u8>) -> Option<nat> {
    total_after(total, line_duration(line))
}

/// What is reported for a line that comes while the total is `total`.
pub open spec fn line_events(total: Option<nat>, line: Seq<u8>) -> Seq<ProgressView> {
    events_for(line, utf8_lossy(line), total_after_line(total, line), line_position(line))
}

/// The total after some lines.
pub open spec fn total_after_lines(total: Option<nat>, lines: Seq<Seq<u8>>) -> Option<nat>
    decreases lines.len(),
{
    if lines.len() == 0 {
        total
    } else {
        total_after_line(total_after_lines(total, lines.drop_last()), lines.last())
    }
}

/// What is reported for some lines, in order.
pub open spec fn events_of_lines(total: Option<nat>, lines: Seq<Seq<u8>>) -> Seq<ProgressView>
    decreases lines.len(),
{
    if lines.len() == 0 {
        Seq::empty()
    } else {
        events_of_lines(total, lines.drop_last()) + line_events(
            total_after_lines(total, lines.drop_last()),
            lines.last(),
        )
    }
}

/// The state of a stream as the contracts see it.
pub struct StreamView {
    /// The total duration in microseconds, once a duration marker has come.
    pub total: Option<nat>,
    /// The bytes of the line that is still coming in.
    pub pending: Seq<u8>,
}

impl StreamView {
    /// The state at the start of a stream.
    pub open spec fn start() -> StreamView {
        StreamView { total: None, pending: Seq::empty() }
    }

    /// The state after more bytes.
    pub open spec fn after(self, bytes: Seq<u8>) -> StreamView {
        StreamView {
            total: total_after_lines(self.total, lines_from(self.pending, bytes)),
            pending: pending_after_all(self.pending, bytes),
        }
    }

    /// What is reported while more bytes come in.
    pub open spec fn events(self, bytes: Seq<u8>) -> Seq<ProgressView> {
        events_of_lines(self.total, lines_from(self.pending, bytes))
    }
}

/// What a whole stream reports, from its start.
pub open spec fn stream_events(bytes: Seq<u8>) -> Seq<ProgressView> {
    events_of_lines(None, complete_lines(bytes))
}

/// The state of one stream: the total duration, once known, and the line
/// that is coming in. It belongs to one run of the external process.
pub struct StreamState {
    total: Option<u64>,
    reader: LineReader,
}

impl View for StreamState {
    type V = StreamView;

    closed spec fn view(&self) -> StreamView {
        StreamView { total: as_nat(self.total), pending: self.reader@ }
    }
}

/// Whether `line` begins with `frame=`.
pub fn starts_with_frame(line: &[u8]) -> (b: bool)
    ensures
        b == is_frame_line(line@),
{
    if line.len() < 6 {
        return false;
    }
    let b = line[0] == 102 && line[1] == 114 && line[2] == 97 && line[3] == 109 && line[4] == 101
        && line[5] == 61;
    proof {
        if b {
            assert(line@.take(6) =~= frame_prefix());
        } else {
            assert(forall|i: int| 0 <= i < 6 ==> line@.take(6)[i] == line@[i]);
        }
    }
    b
}

impl StreamState {
    /// The state at the start of a stream.
    pub fn new() -> (state: StreamState)
        ensures
            state@ == StreamView::start(),
    {
        StreamState { total: None, reader: LineReader::new() }
    }

    /// The total duration in microseconds, once a duration marker has come.
    pub fn total_duration(&self) -> (total: Option<u64>)
        ensures
            as_nat(total) == self@.total,
    {
        self.total
    }

    /// Takes in a completed line together with what was found in it: its text
    /// and the times of its duration and position markers.
    pub fn note_line(
        &mut self,
        line: &[u8],
        text: String,
        duration: Option<u64>,
        position: Option<u64>,
    ) -> (events: Vec<ProgressInfo>)
        ensures
            final(self)@.total == total_after(old(self)@.total, as_nat(duration)),
            final(self)@.pending == old(self)@.pending,
            events.deep_view() == events_for(
                line@,
                text@,
                final(self)@.total,
                as_nat(position),
            ),
    {
        let mut events: Vec<ProgressInfo> = Vec::new();
        if !starts_with_frame(line) {
            events.push(ProgressInfo::Log(text));
        }
        if self.total.is_none() {
            self.total = duration;
        }
        let ghost logged = events.deep_view();
        match (self.total, position) {
            (Some(whole), Some(part)) => {
                if whole > 0 {
                    events.push(ProgressInfo::Percentage(Fraction::clamped(part, whole)));
                    assert(events.deep_view() =~= logged.push(events@.last()@));
                }
            },
            _ => {},
        }
        assert(logged =~= if is_frame_line(line@) {
            Seq::empty()
        } else {
            seq![ProgressView::Log(text@)]
        });
        events
    }

    /// Takes in a completed line: looks for its markers and reports. The text
    /// of a line that is valid UTF-8 is the text that it encodes.
    pub fn accept_line(&mut self, line: &[u8]) -> (events: Vec<ProgressInfo>)
        ensures
            final(self)@.total == total_after_line(old(self)@.total, line@),
            final(self)@.pending == old(self)@.pending,
            events.deep_view() == line_events(old(self)@.total, line@),
            valid_utf8(line@) ==> utf8_lossy(line@) == decode_utf8(line@),
    {
        let text = lossy_text(line);
        let duration: Option<u64> = if self.total.is_none() {
            match find_duration(text.as_str()) {
                Some(marker) => Some(marker.micros()),
                None => None,
            }
        } else {
            None
        };
        let known: bool = match (self.total, duration) {
            (Some(whole), _) => whole > 0,
            (None, Some(whole)) => whole > 0,
            (None, None) => false,
        };
        let position: Option<u64> = if known {
            match find_position(text.as_str()) {
                Some(marker) => Some(marker.micros()),
                None => None,
            }
        } else {
            None
        };
        let events = self.note_line(line, text, duration, position);
        proof {
            let total = total_after_line(old(self)@.total, line@);
            assert(final(self)@.total == total);
            assert(fraction_at(total, as_nat(position)) == fraction_at(
                total,
                line_position(line@),
            ));
        }
        events
    }

    /// Takes in one more byte of the stream, and reports what it completes.
    pub fn push_byte(&mut self, b: u8) -> (events: Vec<ProgressInfo>)
        ensures
            final(self)@ == old(self)@.after(seq![b]),
            events.deep_view() == old(self)@.events(seq![b]),
    {
        proof {
            lemma_one_byte(old(self)@, b);
        }
        match self.reader.feed(b) {
            Some(line) => {
                assert(line.deep_view() =~= line@);
                self.accept_line(line.as_slice())
            },
            None => {
                let events: Vec<ProgressInfo> = Vec::new();
                assert(events.deep_view() =~= Seq::<ProgressView>::empty());
                events
            },
        }
    }

    /// Takes in more bytes of the stream, and reports what they complete, in
    /// order.
    pub fn push_bytes(&mut self, bytes: &[u8]) -> (events: Vec<ProgressInfo>)
        ensures
            final(self)@ == old(self)@.after(bytes@),
            events.deep_view() == old(self)@.events(bytes@),
    {
        let mut events: Vec<ProgressInfo> = Vec::new();
        let mut i: usize = 0;
        assert(events.deep_view() =~= Seq::<ProgressView>::empty());
        assert(bytes@.take(0) =~= Seq::<u8>::empty());
        while i < bytes.len()
            invariant
                i <= bytes@.len(),
                self@ == old(self)@.after(bytes@.take(i as int)),
                events.deep_view() == old(self)@.events(bytes@.take(i as int)),
            decreases bytes@.len() - i,
        {
            let ghost so_far = events.deep_view();
            let mut more = self.push_byte(bytes[i]);
            proof {
                lemma_bytes_in_two(old(self)@, bytes@.take(i as int), seq![bytes@[i as int]]);
                assert(bytes@.take(i as int) + seq![bytes@[i as int]] == bytes@.take(i + 1));
            }
            let ghost added = more.deep_view();
            events.append(&mut more);
            assert(events.deep_view() =~= so_far + added);
            i = i + 1;
        }
        assert(bytes@.take(i as int) == bytes@);
        events
    }
}

/// What a whole stream reports, from its start.
pub fn decode_stream(bytes: &[u8]) -> (events: Vec<ProgressInfo>)
    ensures
        events.deep_view() == stream_events(bytes@),
        forall|k: int|
            0 <= k < events.len() ==> (#[trigger] events.deep_view()[k]
                matches ProgressView::Percentage(ratio) ==> ratio.is_unit()),
{
    proof {
        lemma_fractions_within_unit(None, complete_lines(bytes@));
    }
    let mut state = StreamState::new();
    state.push_bytes(bytes)
}

/// One byte completes at most one line.
pub proof fn lemma_one_byte(state: StreamView, b: u8)
    ensures
        state.after(seq![b]).pending == crate::lines::pending_after(state.pending, b),
        match crate::lines::completed_by(state.pending, b) {
            Some(line) => state.after(seq![b]).total == total_after_line(state.total, line)
                && state.events(seq![b]) == line_events(state.total, line),
            None => state.after(seq![b]).total == state.total && state.events(seq![b])
                == Seq::<ProgressView>::empty(),
        },
{
    crate::lines::lemma_read_one_byte(state.pending, b);
    match crate::lines::completed_by(state.pending, b) {
        Some(line) => {
            let lines = seq![line];
            assert(lines.drop_last() =~= Seq::<Seq<u8>>::empty());
            assert(lines.last() == line);
            assert(total_after_lines(state.total, lines.drop_last()) == state.total);
            assert(events_of_lines(state.total, lines.drop_last()) =~= Seq::<
                ProgressView,
            >::empty());
            assert(events_of_lines(state.total, lines) =~= line_events(state.total, line));
        },
        None => {
            assert(events_of_lines(state.total, Seq::<Seq<u8>>::empty()) =~= Seq::<
                ProgressView,
            >::empty());
        },
    }
}

/// Taking in `first + second` is taking in `first` and then `second`.
pub proof fn lemma_bytes_in_two(state: StreamView, first: Seq<u8>, second: Seq<u8>)
    ensures
        state.after(first + second) == state.after(first).after(second),
        state.events(first + second) == state.events(first) + state.after(first).events(second),
{
    crate::lines::lemma_read_in_two(state.pending, first, second);
    lemma_lines_in_two(
        state.total,
        lines_from(state.pending, first),
        lines_from(pending_after_all(state.pending, first), second),
    );
}

/// Going through `first + second` is going through `first` and then `second`.
pub proof fn lemma_lines_in_two(total: Option<nat>, first: Seq<Seq<u8>>, second: Seq<Seq<u8>>)
    ensures
        total_after_lines(total, first + second) == total_after_lines(
            total_after_lines(total, first),
            second,
        ),
        events_of_lines(total, first + second) == events_of_lines(total, first) + events_of_lines(
            total_after_lines(total, first),
            second,
        ),
    decreases second.len(),
{
    if second.len() == 0 {
        assert(first + second == first);
    } else {
        lemma_lines_in_two(total, first, second.drop_last());
        assert((first + second).drop_last() == first + second.drop_last());
        assert((first + second).last() == second.last());
    }
}

/// A line gives no fraction while no total is known: a position marker that
/// comes before any duration marker is passed over.
pub proof fn lemma_no_fraction_before_duration(line: Seq<u8>)
    requires
        line_duration(line) is None,
    ensures
        total_after_line(None, line) is None,
        forall|k: int|
            0 <= k < line_events(None, line).len() ==> !(#[trigger] line_events(None, line)[k]
                is Percentage),
{
}

/// Lines without a duration marker give no fraction, whatever position
/// markers they hold.
pub proof fn lemma_no_fraction_without_duration(lines: Seq<Seq<u8>>)
    requires
        forall|i: int| 0 <= i < lines.len() ==> line_duration(#[trigger] lines[i]) is None,
    ensures
        total_after_lines(None, lines) is None,
        forall|k: int|
            0 <= k < events_of_lines(None, lines).len() ==> !(#[trigger] events_of_lines(
                None,
                lines,
            )[k] is Percentage),
    decreases lines.len(),
{
    if lines.len() > 0 {
        lemma_no_fraction_without_duration(lines.drop_last());
        assert(line_duration(lines[lines.len() - 1]) is None);
        lemma_no_fraction_before_duration(lines.last());
    }
}

/// The first duration marker wins: once the total is known no line changes
/// it, and every fraction reported afterwards has it as its denominator.
pub proof fn lemma_first_duration_wins(total: nat, lines: Seq<Seq<u8>>)
    ensures
        total_after_lines(Some(total), lines) == Some(total),
        forall|k: int|
            0 <= k < events_of_lines(Some(total), lines).len() ==> (#[trigger] events_of_lines(
                Some(total),
                lines,
            )[k] matches ProgressView::Percentage(ratio) ==> ratio.den == total),
    decreases lines.len(),
{
    if lines.len() > 0 {
        lemma_first_duration_wins(total, lines.drop_last());
    }
}

/// A line that begins with `frame=` is never logged, whatever else it holds
/// and whatever the state of the stream.
pub proof fn lemma_frame_line_not_logged(total: Option<nat>, line: Seq<u8>)
    requires
        is_frame_line(line),
    ensures
        forall|k: int|
            0 <= k < line_events(total, line).len() ==> !(#[trigger] line_events(total, line)[k]
                is Log),
{
}

/// Every text that is logged is the text of a line that does not begin with
/// `frame=`.
pub proof fn lemma_logged_lines(total: Option<nat>, lines: Seq<Seq<u8>>)
    ensures
        forall|k: int|
            0 <= k < events_of_lines(total, lines).len() ==> (#[trigger] events_of_lines(
                total,
                lines,
            )[k] matches ProgressView::Log(text) ==> exists|i: int|
                0 <= i < lines.len() && !is_frame_line(#[trigger] lines[i]) && text == utf8_lossy(
                    lines[i],
                )),
    decreases lines.len(),
{
    if lines.len() > 0 {
        let earlier = lines.drop_last();
        lemma_logged_lines(total, earlier);
        let before = events_of_lines(total, earlier);
        let here = line_events(total_after_lines(total, earlier), lines.last());
        assert forall|k: int| 0 <= k < events_of_lines(total, lines).len() implies (
        #[trigger] events_of_lines(total, lines)[k] matches ProgressView::Log(text)
            ==> exists|i: int|
            0 <= i < lines.len() && !is_frame_line(#[trigger] lines[i]) && text == utf8_lossy(
                lines[i],
            )) by {
            let event = events_of_lines(total, lines)[k];
            if let ProgressView::Log(text) = event {
                if k < before.len() {
                    assert(event == before[k]);
                    let i = choose|i: int|
                        0 <= i < earlier.len() && !is_frame_line(#[trigger] earlier[i]) && text
                            == utf8_lossy(earlier[i]);
                    assert(lines[i] == earlier[i]);
                } else {
                    assert(event == here[k - before.len()]);
                    assert(!is_frame_line(lines[lines.len() - 1]));
                }
            }
        }
    }
}

/// Every fraction that is reported lies between zero and one, also where a
/// position marker lies beyond the total.
pub proof fn lemma_fractions_within_unit(total: Option<nat>, lines: Seq<Seq<u8>>)
    ensures
        forall|k: int|
            0 <= k < events_of_lines(total, lines).len() ==> (#[trigger] events_of_lines(
                total,
                lines,
            )[k] matches ProgressView::Percentage(ratio) ==> ratio.is_unit()),
    decreases lines.len(),
{
    if lines.len() > 0 {
        lemma_fractions_within_unit(total, lines.drop_last());
    }
}

/// A position marker beyond the total gives exactly one.
pub proof fn lemma_fraction_beyond_total(total: nat, position: nat)
    requires
        0 < total <= position,
    ensures
        fraction_at(Some(total), Some(position)) == Some(Ratio { num: total, den: total }),
        fraction_at(Some(total), Some(position))->0.is_complete(),
{
}

} // verus!
