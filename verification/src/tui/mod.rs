//! The interactive front-end: its state, its decisions, and the messages that
//! a worker sends to it.
//!
//! A worker runs one external process and sends what it reports, in order,
//! and then exactly one closing message. The front-end takes in, once per
//! round, all the messages that have arrived, and then the key that was
//! pressed, if any.

pub mod app;
pub mod complete;
pub mod events;
pub mod job;
pub mod start;
pub mod ui;

use crate::fraction::{Fraction, Ratio};
use crate::progress::{ProgressInfo, ProgressView};
use crate::runner::{OutcomeView, RunOutcome, RunReport};
use crate::tui::app::{App, AppView};
use vstd::prelude::*;
use vstd::string::StringExecFns;

verus! {

/// A message from a worker to the front-end.
#[derive(Clone, Debug)]
pub enum AppEvent {
    /// Something that the run reports.
    Progress(ProgressInfo),
    /// The run has ended with success.
    Done,
    /// The run has ended with failure; the text says why.
    Error(String),
}

/// An [`AppEvent`] as the contracts see it.
pub enum AppEventView {
    Progress(ProgressView),
    Done,
    Error(Seq<char>),
}

impl View for AppEvent {
    type V = AppEventView;

    open spec fn view(&self) -> AppEventView {
        match self {
            AppEvent::Progress(info) => AppEventView::Progress(info@),
            AppEvent::Done => AppEventView::Done,
            AppEvent::Error(reason) => AppEventView::Error(reason@),
        }
    }
}

impl DeepView for AppEvent {
    type V = AppEventView;

    open spec fn deep_view(&self) -> AppEventView {
        self@
    }
}

impl AppEventView {
    /// A message that closes a run.
    pub open spec fn is_closing(self) -> bool {
        self is Done || self is Error
    }
}

/// The message that closes a run with the given outcome.
pub open spec fn closing_message(outcome: OutcomeView) -> AppEventView {
    match outcome {
        OutcomeView::Success => AppEventView::Done,
        OutcomeView::Failure(reason) => AppEventView::Error(reason),
    }
}

/// All the messages of a run: one for each thing reported, in order, and then
/// the closing message.
pub open spec fn transcript(events: Seq<ProgressView>, outcome: OutcomeView) -> Seq<
    AppEventView,
> {
    Seq::new(events.len(), |i: int| AppEventView::Progress(events[i])).push(
        closing_message(outcome),
    )
}

/// The shape of what a worker sends: any number of progress messages, then
/// exactly one closing message.
pub open spec fn is_transcript(messages: Seq<AppEventView>) -> bool {
    &&& messages.len() > 0
    &&& messages.last().is_closing()
    &&& forall|i: int| 0 <= i < messages.len() - 1 ==> #[trigger] messages[i] is Progress
}

/// The message that closes a run with the given outcome.
pub fn closing_event(outcome: RunOutcome) -> (event: AppEvent)
    ensures
        event@ == closing_message(outcome@),
{
    match outcome {
        RunOutcome::Success => AppEvent::Done,
        RunOutcome::Failure(reason) => AppEvent::Error(reason),
    }
}

/// All the messages of a run, in the order in which they are sent.
pub fn worker_messages(report: RunReport) -> (messages: Vec<AppEvent>)
    ensures
        messages.deep_view() == transcript(report.events.deep_view(), report.outcome@),
        is_transcript(messages.deep_view()),
{
    let RunReport { events, outcome } = report;
    let ghost reported = events.deep_view();
    let mut messages: Vec<AppEvent> = Vec::new();
    for info in it: events
        invariant
            it.seq() == events@,
            reported == events.deep_view(),
            messages.deep_view() == Seq::new(
                it.index() as nat,
                |i: int| AppEventView::Progress(reported[i]),
            ),
    {
        let ghost before = messages.deep_view();
        messages.push(AppEvent::Progress(info));
        assert(messages.deep_view() =~= before.push(AppEventView::Progress(info@)));
        assert(info@ == reported[it.index() as int]);
    }
    let ghost before = messages.deep_view();
    let last = closing_event(outcome);
    messages.push(last);
    assert(messages.deep_view() =~= before.push(last@));
    proof {
        lemma_transcript_shape(reported, outcome@);
    }
    messages
}

/// What a worker sends for a run has the shape of a transcript: progress
/// messages in the order of the reports, and one closing message at the end.
pub proof fn lemma_transcript_shape(events: Seq<ProgressView>, outcome: OutcomeView)
    ensures
        is_transcript(transcript(events, outcome)),
        transcript(events, outcome).len() == events.len() + 1,
        forall|i: int|
            0 <= i < events.len() ==> #[trigger] transcript(events, outcome)[i]
                == AppEventView::Progress(events[i]),
        transcript(events, outcome).last() == closing_message(outcome),
{
}

impl AppView {
    /// The state once a message from the worker is taken in.
    pub open spec fn after_event(self, event: AppEventView) -> AppView {
        match event {
            AppEventView::Progress(ProgressView::Log(line)) => AppView {
                logs: self.logs.push(line),
                ..self
            },
            AppEventView::Progress(ProgressView::Percentage(ratio)) => AppView {
                progress: ratio,
                ..self
            },
            AppEventView::Done => AppView {
                is_processing: true,
                is_complete: true,
                message: "Process Completed Successfully! Press any key to continue."@,
                progress: Ratio::one(),
                ..self
            },
            AppEventView::Error(reason) => AppView {
                is_processing: false,
                message: "Error: "@ + reason,
                logs: self.logs.push("Error: "@ + reason),
                ..self
            },
        }
    }

    /// The state once some messages are taken in, in order.
    pub open spec fn after_events(self, events: Seq<AppEventView>) -> AppView
        decreases events.len(),
    {
        if events.len() == 0 {
            self
        } else {
            self.after_events(events.drop_last()).after_event(events.last())
        }
    }

    /// The state once a run is asked for: a run in progress stays, with a
    /// message that says so; otherwise a new one begins.
    pub open spec fn request_run(self) -> AppView {
        if self.is_processing {
            AppView { message: "Already processing..."@, ..self }
        } else {
            AppView {
                is_processing: true,
                progress: Ratio::zero(),
                logs: Seq::empty(),
                message: "Starting..."@,
                ..self
            }
        }
    }
}

impl App {
    /// Takes in one message from the worker.
    pub fn apply_event(&mut self, event: AppEvent)
        ensures
            final(self)@ == old(self)@.after_event(event@),
    {
        let ghost logs = self.logs.deep_view();
        match event {
            AppEvent::Progress(ProgressInfo::Log(line)) => {
                self.logs.push(line);
                assert(self.logs.deep_view() =~= logs.push(line@));
            },
            AppEvent::Progress(ProgressInfo::Percentage(fraction)) => {
                self.progress = fraction;
            },
            AppEvent::Done => {
                self.is_processing = true;
                self.is_complete = true;
                self.message =
                "Process Completed Successfully! Press any key to continue.".to_owned();
                self.progress = Fraction::one();
            },
            AppEvent::Error(reason) => {
                self.is_processing = false;
                let mut text = "Error: ".to_owned();
                text.append(reason.as_str());
                self.message = text.clone();
                self.logs.push(text);
                assert(self.logs.deep_view() =~= logs.push(text@));
            },
        }
    }

    /// Takes in all the messages that have arrived, in order.
    pub fn drain(&mut self, events: Vec<AppEvent>)
        ensures
            final(self)@ == old(self)@.after_events(events.deep_view()),
    {
        let ghost arrived = events.deep_view();
        assert(arrived.take(0) =~= Seq::<AppEventView>::empty());
        for event in it: events
            invariant
                it.seq() == events@,
                arrived == events.deep_view(),
                self@ == old(self)@.after_events(arrived.take(it.index() as int)),
        {
            assert(arrived.take(it.index() + 1).drop_last() =~= arrived.take(it.index() as int));
            assert(arrived.take(it.index() + 1).last() == event@);
            self.apply_event(event);
        }
        assert(arrived.take(arrived.len() as int) =~= arrived);
    }

    /// Asks for a run. The answer says whether one is to be started now; it
    /// is not while another is in progress.
    pub fn request_run(&mut self) -> (start: bool)
        ensures
            start == !old(self)@.is_processing,
            final(self)@ == old(self)@.request_run(),
    {
        if self.is_processing {
            self.message = "Already processing...".to_owned();
            false
        } else {
            self.is_processing = true;
            self.progress = Fraction::zero();
            self.logs.clear();
            self.message = "Starting...".to_owned();
            assert(self.logs.deep_view() =~= Seq::<Seq<char>>::empty());
            true
        }
    }
}

} // verus!
