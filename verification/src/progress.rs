//! Consuming the events of a background call: what is shown for each event,
//! and when the consumption ends and with what.

use vstd::prelude::*;

verus! {

/// One record of partial progress.
#[derive(Clone, Debug, PartialEq, Eq)]
pub struct ProgressUnit {
    /// The step reached, counted from zero.
    pub index: usize,
    /// The number of steps, where it is known.
    pub length: Option<usize>,
    pub unit: String,
}

/// A progress record as a mathematical value.
pub struct ProgressUnitModel {
    pub index: usize,
    pub length: Option<usize>,
    pub unit: Seq<char>,
}

impl View for ProgressUnit {
    type V = ProgressUnitModel;

    open spec fn view(&self) -> ProgressUnitModel {
        ProgressUnitModel { index: self.index, length: self.length, unit: self.unit@ }
    }
}

impl DeepView for ProgressUnit {
    type V = ProgressUnitModel;

    open spec fn deep_view(&self) -> ProgressUnitModel {
        self@
    }
}

/// One event of a progress handle. `T` is the output that a completion
/// carries. Estimates of time arrive as the text in which they are shown.
#[derive(Clone, Debug, PartialEq, Eq)]
pub enum StreamEvent<T> {
    /// The stream gave an error in place of an event.
    Broken { error: String },
    /// The stream is open.
    Open,
    /// The call waits in the queue; `rank` counts from zero.
    Estimation { rank: i64, queue_size: i64, rank_eta: String },
    /// The remote side starts to process the call.
    ProcessStarts { eta: String, progress: Option<Vec<ProgressUnit>> },
    /// The remote side reports partial progress.
    Progress { eta: String, progress: Option<Vec<ProgressUnit>> },
    /// A log line.
    Log { event_id: Option<String> },
    /// The remote side is alive.
    Heartbeat,
    /// The call is completed, with or without success.
    Completed { output: T, success: bool },
    /// The remote side reports an error that it did not expect.
    UnexpectedError { message: Option<String> },
    /// An event of a kind that is not known.
    Unknown { raw: String },
}

/// A stream event as a mathematical value.
pub enum EventModel<T> {
    Broken { error: Seq<char> },
    Open,
    Estimation { rank: i64, queue_size: i64, rank_eta: Seq<char> },
    ProcessStarts { eta: Seq<char>, progress: Option<Seq<ProgressUnitModel>> },
    Progress { eta: Seq<char>, progress: Option<Seq<ProgressUnitModel>> },
    Log { event_id: Option<Seq<char>> },
    Heartbeat,
    Completed { output: T, success: bool },
    UnexpectedError { message: Option<Seq<char>> },
    Unknown { raw: Seq<char> },
}

impl<T> View for StreamEvent<T> {
    type V = EventModel<T>;

    open spec fn view(&self) -> EventModel<T> {
        match self {
            StreamEvent::Broken { error } => EventModel::Broken { error: error@ },
            StreamEvent::Open => EventModel::Open,
            StreamEvent::Estimation { rank, queue_size, rank_eta } => EventModel::Estimation {
                rank: *rank,
                queue_size: *queue_size,
                rank_eta: rank_eta@,
            },
            StreamEvent::ProcessStarts { eta, progress } => EventModel::ProcessStarts {
                eta: eta@,
                progress: progress.deep_view(),
            },
            StreamEvent::Progress { eta, progress } => EventModel::Progress {
                eta: eta@,
                progress: progress.deep_view(),
            },
            StreamEvent::Log { event_id } => EventModel::Log { event_id: event_id.deep_view() },
            StreamEvent::Heartbeat => EventModel::Heartbeat,
            StreamEvent::Completed { output, success } => EventModel::Completed {
                output: *output,
                success: *success,
            },
            StreamEvent::UnexpectedError { message } => EventModel::UnexpectedError {
                message: message.deep_view(),
            },
            StreamEvent::Unknown { raw } => EventModel::Unknown { raw: raw@ },
        }
    }
}

impl<T> DeepView for StreamEvent<T> {
    type V = EventModel<T>;

    open spec fn deep_view(&self) -> EventModel<T> {
        self@
    }
}

/// Where a notice is shown.
#[derive(Clone, Copy, Debug, PartialEq, Eq, Structural)]
pub enum Channel {
    /// With the ordinary output.
    Output,
    /// With the diagnostics.
    Diagnostic,
}

/// What the consumer shows.
#[derive(Clone, Debug, PartialEq, Eq)]
pub enum Notice {
    /// The stream gave this error; consumption goes on.
    StreamError { error: String },
    /// The task has started.
    Started,
    /// The call is in the queue at this position, counted from one.
    InQueue { position: i128, queue_size: i64, eta: String },
    /// The call is being processed; the estimate of the time left.
    Processing { eta: String },
    /// The steps done, the number of steps (zero where it is not known),
    /// and their unit.
    Progress { done: u128, length: usize, unit: String },
    /// A log line, `_` where it has no event id.
    Log { event_id: String },
    /// The call is completed with success.
    Completed,
    /// The call is completed without success.
    Failed,
    /// An error that the remote side did not expect, `_` where it gave no
    /// message; consumption goes on.
    UnexpectedError { message: String },
    /// An event of unknown kind was passed over.
    Skipped { raw: String },
}

/// A notice as a mathematical value.
pub enum NoticeModel {
    StreamError { error: Seq<char> },
    Started,
    InQueue { position: i128, queue_size: i64, eta: Seq<char> },
    Processing { eta: Seq<char> },
    Progress { done: u128, length: usize, unit: Seq<char> },
    Log { event_id: Seq<char> },
    Completed,
    Failed,
    UnexpectedError { message: Seq<char> },
    Skipped { raw: Seq<char> },
}

impl View for Notice {
    type V = NoticeModel;

    open spec fn view(&self) -> NoticeModel {
        match self {
            Notice::StreamError { error } => NoticeModel::StreamError { error: error@ },
            Notice::Started => NoticeModel::Started,
            Notice::InQueue { position, queue_size, eta } => NoticeModel::InQueue {
                position: *position,
                queue_size: *queue_size,
                eta: eta@,
            },
            Notice::Processing { eta } => NoticeModel::Processing { eta: eta@ },
            Notice::Progress { done, length, unit } => NoticeModel::Progress {
                done: *done,
                length: *length,
                unit: unit@,
            },
            Notice::Log { event_id } => NoticeModel::Log { event_id: event_id@ },
            Notice::Completed => NoticeModel::Completed,
            Notice::Failed => NoticeModel::Failed,
            Notice::UnexpectedError { message } => NoticeModel::UnexpectedError {
                message: message@,
            },
            Notice::Skipped { raw } => NoticeModel::Skipped { raw: raw@ },
        }
    }
}

impl DeepView for Notice {
    type V = NoticeModel;

    open spec fn deep_view(&self) -> NoticeModel {
        self@
    }
}

/// Whether consumption goes on after an event.
#[derive(Clone, Debug, PartialEq, Eq)]
pub enum Step<T> {
    /// The next event is awaited.
    Continue,
    /// Consumption ends: with the output of a successful completion, or
    /// without any.
    Finished(Option<T>),
}

/// What the consumer does on one event.
#[derive(Clone, Debug, PartialEq, Eq)]
pub struct Reaction<T> {
    /// What is shown, in this order.
    pub notices: Vec<Notice>,
    pub step: Step<T>,
}

/// An event can be reacted to unless it carries a list of progress
/// records that is empty.
pub open spec fn is_readable<T>(event: EventModel<T>) -> bool {
    match event {
        EventModel::ProcessStarts { progress: Some(units), .. } => units.len() > 0,
        EventModel::Progress { progress: Some(units), .. } => units.len() > 0,
        _ => true,
    }
}

/// What is shown while a call is processed: the estimate, and the first
/// progress record where there are any.
pub open spec fn processing_notices(
    eta: Seq<char>,
    progress: Option<Seq<ProgressUnitModel>>,
) -> Seq<NoticeModel> {
    match progress {
        None => seq![NoticeModel::Processing { eta }],
        Some(units) => seq![
            NoticeModel::Processing { eta },
            NoticeModel::Progress {
                done: (units[0].index + 1) as u128,
                length: match units[0].length {
                    Some(n) => n,
                    None => 0,
                },
                unit: units[0].unit,
            },
        ],
    }
}

/// The text, or `_` where there is none.
pub open spec fn text_or_placeholder(text: Option<Seq<char>>) -> Seq<char> {
    match text {
        Some(t) => t,
        None => "_"@,
    }
}

/// What is shown for an event.
pub open spec fn notices_for<T>(event: EventModel<T>) -> Seq<NoticeModel> {
    match event {
        EventModel::Broken { error } => seq![NoticeModel::StreamError { error }],
        EventModel::Open => seq![NoticeModel::Started],
        EventModel::Estimation { rank, queue_size, rank_eta } => seq![
            NoticeModel::InQueue { position: (rank + 1) as i128, queue_size, eta: rank_eta },
        ],
        EventModel::ProcessStarts { eta, progress } => processing_notices(eta, progress),
        EventModel::Progress { eta, progress } => processing_notices(eta, progress),
        EventModel::Log { event_id } => seq![
            NoticeModel::Log { event_id: text_or_placeholder(event_id) },
        ],
        EventModel::Heartbeat => Seq::empty(),
        EventModel::Completed { success, .. } => if success {
            seq![NoticeModel::Completed]
        } else {
            seq![NoticeModel::Failed]
        },
        EventModel::UnexpectedError { message } => seq![
            NoticeModel::UnexpectedError { message: text_or_placeholder(message) },
        ],
        EventModel::Unknown { raw } => seq![NoticeModel::Skipped { raw }],
    }
}

/// Whether consumption goes on after an event: it ends with a completion
/// and with nothing else, and has an output only where the completion is a
/// success.
pub open spec fn step_for<T>(event: EventModel<T>) -> Step<T> {
    match event {
        EventModel::Completed { output, success } => if success {
            Step::Finished(Some(output))
        } else {
            Step::Finished(None)
        },
        _ => Step::Continue,
    }
}

/// Where a notice is shown: refusals, errors and passed-over events with
/// the diagnostics, everything else with the ordinary output.
pub open spec fn channel_of(notice: NoticeModel) -> Channel {
    match notice {
        NoticeModel::StreamError { .. } => Channel::Diagnostic,
        NoticeModel::Failed => Channel::Diagnostic,
        NoticeModel::UnexpectedError { .. } => Channel::Diagnostic,
        NoticeModel::Skipped { .. } => Channel::Diagnostic,
        _ => Channel::Output,
    }
}

impl Notice {
    /// Where the notice is shown.
    pub fn channel(&self) -> (c: Channel)
        ensures
            c == channel_of(self@),
    {
        match self {
            Notice::StreamError { .. } => Channel::Diagnostic,
            Notice::Failed => Channel::Diagnostic,
            Notice::UnexpectedError { .. } => Channel::Diagnostic,
            Notice::Skipped { .. } => Channel::Diagnostic,
            _ => Channel::Output,
        }
    }
}

fn or_placeholder(text: Option<String>) -> (r: String)
    ensures
        r@ == text_or_placeholder(text.deep_view()),
{
    match text {
        Some(t) => t,
        None => String::from_str("_"),
    }
}

fn processing(eta: String, progress: Option<Vec<ProgressUnit>>) -> (r: Vec<Notice>)
    requires
        progress matches Some(units) ==> units.len() > 0,
    ensures
        r.deep_view() == processing_notices(eta@, progress.deep_view()),
{
    let mut out: Vec<Notice> = Vec::new();
    out.push(Notice::Processing { eta });
    match progress {
        None => {},
        Some(units) => {
            let first = &units[0];
            let length: usize = match first.length {
                Some(n) => n,
                None => 0,
            };
            out.push(
                Notice::Progress { done: first.index as u128 + 1, length, unit: first.unit.clone() },
            );
        },
    }
    out
}

fn one(notice: Notice) -> (r: Vec<Notice>)
    ensures
        r.deep_view() == seq![notice@],
{
    let mut out: Vec<Notice> = Vec::new();
    out.push(notice);
    out
}

/// Reacts to one event of a progress handle: says what is to be shown and
/// whether the next event is to be awaited. Errors of the stream,
/// unexpected errors of the remote side and events of unknown kind are
/// shown and passed over; only a completion ends the consumption.
pub fn on_event<T>(event: StreamEvent<T>) -> (r: Reaction<T>)
    requires
        is_readable(event@),
    ensures
        r.notices.deep_view() == notices_for(event@),
        r.step == step_for(event@),
{
    match event {
        StreamEvent::Broken { error } => Reaction {
            notices: one(Notice::StreamError { error }),
            step: Step::Continue,
        },
        StreamEvent::Open => Reaction { notices: one(Notice::Started), step: Step::Continue },
        StreamEvent::Estimation { rank, queue_size, rank_eta } => Reaction {
            notices: one(
                Notice::InQueue { position: rank as i128 + 1, queue_size, eta: rank_eta },
            ),
            step: Step::Continue,
        },
        StreamEvent::ProcessStarts { eta, progress } => Reaction {
            notices: processing(eta, progress),
            step: Step::Continue,
        },
        StreamEvent::Progress { eta, progress } => Reaction {
            notices: processing(eta, progress),
            step: Step::Continue,
        },
        StreamEvent::Log { event_id } => Reaction {
            notices: one(Notice::Log { event_id: or_placeholder(event_id) }),
            step: Step::Continue,
        },
        StreamEvent::Heartbeat => {
            let notices: Vec<Notice> = Vec::new();
            Reaction { notices, step: Step::Continue }
        },
        StreamEvent::Completed { output, success } => {
            if success {
                Reaction { notices: one(Notice::Completed), step: Step::Finished(Some(output)) }
            } else {
                Reaction { notices: one(Notice::Failed), step: Step::Finished(None) }
            }
        },
        StreamEvent::UnexpectedError { message } => Reaction {
            notices: one(Notice::UnexpectedError { message: or_placeholder(message) }),
            step: Step::Continue,
        },
        StreamEvent::Unknown { raw } => Reaction {
            notices: one(Notice::Skipped { raw }),
            step: Step::Continue,
        },
    }
}

/// What the consumption of a sequence of events comes to.
#[derive(Clone, Debug, PartialEq, Eq)]
pub struct Outcome<T> {
    /// Everything that was shown, in order.
    pub notices: Vec<Notice>,
    /// The output of the completion, where the call succeeded.
    pub output: Option<T>,
}

/// What is shown while a sequence of events is consumed, and the output it
/// ends with. Events are taken in order up to the first completion, which
/// ends the consumption; a sequence without a completion is consumed to
/// its end and has no output.
pub open spec fn consumed<T>(events: Seq<EventModel<T>>) -> (Seq<NoticeModel>, Option<T>)
    decreases events.len(),
{
    if events.len() == 0 {
        (Seq::empty(), None)
    } else {
        match step_for(events[0]) {
            Step::Finished(output) => (notices_for(events[0]), output),
            Step::Continue => {
                let rest = consumed(events.skip(1));
                (notices_for(events[0]) + rest.0, rest.1)
            },
        }
    }
}

/// Consumes the events of a progress handle in order: shows what each
/// event asks for, and ends at the first completion, with its output where
/// the call succeeded and with none where it failed. Where the events run
/// out before any completion there is no output.
pub fn show_progress<T>(events: Vec<StreamEvent<T>>) -> (r: Outcome<T>)
    requires
        forall|i: int| 0 <= i < events.len() ==> is_readable(#[trigger] events[i]@),
    ensures
        (r.notices.deep_view(), r.output) == consumed(events.deep_view()),
{
    let mut notices: Vec<Notice> = Vec::new();
    let ghost all = events.deep_view();
    let ghost source = events@;
    assert(all.skip(0) == all);
    for event in it: events.into_iter()
        invariant
            it.seq() == source,
            all == events.deep_view(),
            all.len() == source.len(),
            forall|i: int| 0 <= i < source.len() ==> all[i] == (#[trigger] source[i])@,
            forall|i: int| 0 <= i < source.len() ==> is_readable(#[trigger] source[i]@),
            consumed(all) == (
                notices.deep_view() + consumed(all.skip(it.index())).0,
                consumed(all.skip(it.index())).1,
            ),
    {
        assert(all.skip(it.index()).skip(1) == all.skip(it.index() + 1));
        let Reaction { notices: mut shown, step } = on_event(event);
        notices.append(&mut shown);
        if let Step::Finished(output) = step {
            return Outcome { notices, output };
        }
    }
    Outcome { notices, output: None }
}

} // verus!
