//! The end of a run of the external process, and the run as a whole.
//!
//! The caller starts the process, hands its diagnostic stream to a
//! [`StreamState`](crate::progress::StreamState) byte by byte, waits for the
//! exit, and asks here what to report last. A run that succeeds always ends
//! with a fraction of exactly one; a run that fails ends with its status in the
//! message and with no fraction forced.

use crate::fraction::{Fraction, Ratio};
use crate::progress::{decode_stream, stream_events, ProgressInfo, ProgressView};
use vstd::prelude::*;
use vstd::string::StringExecFns;

verus! {

/// How a run ended.
#[derive(Clone, Debug)]
pub enum RunOutcome {
    /// The process exited with success.
    Success,
    /// The process did not start, was lost, or exited with failure; the
    /// message says which.
    Failure(String),
}

/// A [`RunOutcome`] as the contracts see it.
pub enum OutcomeView {
    Success,
    Failure(Seq<char>),
}

impl View for RunOutcome {
    type V = OutcomeView;

    open spec fn view(&self) -> OutcomeView {
        match self {
            RunOutcome::Success => OutcomeView::Success,
            RunOutcome::Failure(message) => OutcomeView::Failure(message@),
        }
    }
}

/// What is reported at the end of a run, and how it ended.
#[derive(Debug)]
pub struct RunReport {
    pub events: Vec<ProgressInfo>,
    pub outcome: RunOutcome,
}

/// The message of a process that could not be started.
pub open spec fn spawn_failure_message() -> Seq<char> {
    "Failed to start ffmpeg"@
}

/// The message of a process that exited with failure: it ends with the text
/// of the exit status.
pub open spec fn failure_message(status: Seq<char>) -> Seq<char> {
    "ffmpeg failed with status: "@ + status
}

/// What is reported once the process has exited: on success a fraction of
/// one, otherwise nothing.
pub open spec fn closing_events(success: bool) -> Seq<ProgressView> {
    if success {
        seq![ProgressView::Percentage(Ratio::one())]
    } else {
        Seq::empty()
    }
}

/// How a run ended whose process exited.
pub open spec fn outcome_of(success: bool, status: Seq<char>) -> OutcomeView {
    if success {
        OutcomeView::Success
    } else {
        OutcomeView::Failure(failure_message(status))
    }
}

/// All that a run reports: what its diagnostic stream gives, then what its
/// exit gives.
pub open spec fn run_events(stderr: Seq<u8>, success: bool) -> Seq<ProgressView> {
    stream_events(stderr) + closing_events(success)
}

/// The outcome of a run whose process could not be started. Such a run
/// reports nothing.
pub fn spawn_failure() -> (outcome: RunOutcome)
    ensures
        outcome@ == OutcomeView::Failure(spawn_failure_message()),
{
    RunOutcome::Failure("Failed to start ffmpeg".to_owned())
}

/// The outcome of a run whose process was started and then could not be
/// waited for; `reason` says why.
pub fn wait_failure(reason: String) -> (outcome: RunOutcome)
    ensures
        outcome@ == OutcomeView::Failure(reason@),
{
    RunOutcome::Failure(reason)
}

/// What to report once the process has exited. `success` says whether it
/// exited with success, `status` is the text of its exit status.
pub fn conclude(success: bool, status: &str) -> (report: RunReport)
    ensures
        report.events.deep_view() == closing_events(success),
        report.outcome@ == outcome_of(success, status@),
{
    let mut events: Vec<ProgressInfo> = Vec::new();
    if success {
        events.push(ProgressInfo::Percentage(Fraction::one()));
        assert(events.deep_view() =~= closing_events(success));
        RunReport { events, outcome: RunOutcome::Success }
    } else {
        assert(events.deep_view() =~= closing_events(success));
        let mut message = "ffmpeg failed with status: ".to_owned();
        message.append(status);
        RunReport { events, outcome: RunOutcome::Failure(message) }
    }
}

/// A whole run at once: all that is reported for a process that wrote
/// `stderr` and then exited, and how the run ended.
pub fn replay(stderr: &[u8], success: bool, status: &str) -> (report: RunReport)
    ensures
        report.events.deep_view() == run_events(stderr@, success),
        report.outcome@ == outcome_of(success, status@),
{
    let mut events = decode_stream(stderr);
    let RunReport { events: mut closing, outcome } = conclude(success, status);
    let ghost streamed = events.deep_view();
    let ghost closed = closing.deep_view();
    events.append(&mut closing);
    assert(events.deep_view() =~= streamed + closed);
    RunReport { events, outcome }
}

/// A run that succeeds reports a fraction of exactly one last, whatever its
/// diagnostic stream held.
pub proof fn lemma_success_ends_complete(stderr: Seq<u8>)
    ensures
        run_events(stderr, true).len() > 0,
        run_events(stderr, true).last() == ProgressView::Percentage(Ratio::one()),
        Ratio::one().is_complete(),
{
}

/// A run that fails reports what its diagnostic stream gave and nothing more,
/// and its message ends with the text of the exit status.
pub proof fn lemma_failure_forces_nothing(stderr: Seq<u8>, status: Seq<char>)
    ensures
        run_events(stderr, false) == stream_events(stderr),
        outcome_of(false, status) matches OutcomeView::Failure(message) && message.len()
            >= status.len() && message.skip(message.len() - status.len()) == status,
{
    assert(stream_events(stderr) + Seq::<ProgressView>::empty() == stream_events(stderr));
    let message = failure_message(status);
    assert(message.skip(message.len() - status.len()) == status);
}

} // verus!
