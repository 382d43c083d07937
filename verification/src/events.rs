use vstd::prelude::*;
use crate::control::PipelineState;
use crate::media::opt_text_model;

verus! {

/// A structured report built from an error or warning event: the reporting
/// stage's path, the message, optional debug detail, and the optional
/// underlying cause.
#[derive(Debug)]
pub struct ErrorRecord {
    pub source: String,
    pub message: String,
    pub detail: Option<String>,
    pub cause: Option<String>,
}

/// Mathematical model of an `ErrorRecord`.
pub struct ErrorRecordModel {
    pub source: Seq<char>,
    pub message: Seq<char>,
    pub detail: Option<Seq<char>>,
    pub cause: Option<Seq<char>>,
}

impl View for ErrorRecord {
    type V = ErrorRecordModel;

    open spec fn view(&self) -> ErrorRecordModel {
        ErrorRecordModel {
            source: self.source@,
            message: self.message@,
            detail: opt_text_model(self.detail),
            cause: opt_text_model(self.cause),
        }
    }
}

impl ErrorRecord {
    /// A copy of this record, equal under the model.
    pub fn duplicate(&self) -> (r: ErrorRecord)
        ensures
            r@ == self@,
    {
        ErrorRecord {
            source: self.source.clone(),
            message: self.message.clone(),
            detail: match &self.detail {
                Some(d) => Some(d.clone()),
                None => None,
            },
            cause: match &self.cause {
                Some(c) => Some(c.clone()),
                None => None,
            },
        }
    }

    /// One line of text naming the reporting stage and the message.
    pub fn summary(&self) -> (r: String)
        ensures
            r@ == self@.source + ": "@ + self@.message,
    {
        let mut s = self.source.clone();
        s.append(": ");
        s.append(self.message.as_str());
        s
    }
}

/// An asynchronous status event produced by stage execution and consumed by
/// the event watcher.
#[derive(Debug)]
pub enum StatusEvent {
    EndOfStream,
    Error { record: ErrorRecord },
    Warning { record: ErrorRecord },
    StateChanged {
        source: String,
        previous: PipelineState,
        current: PipelineState,
        pending: Option<PipelineState>,
    },
    Other,
}

/// Mathematical model of a `StatusEvent`.
pub enum StatusEventModel {
    EndOfStream,
    Error { record: ErrorRecordModel },
    Warning { record: ErrorRecordModel },
    StateChanged {
        source: Seq<char>,
        previous: PipelineState,
        current: PipelineState,
        pending: Option<PipelineState>,
    },
    Other,
}

impl View for StatusEvent {
    type V = StatusEventModel;

    open spec fn view(&self) -> StatusEventModel {
        match self {
            StatusEvent::EndOfStream => StatusEventModel::EndOfStream,
            StatusEvent::Error { record } => StatusEventModel::Error { record: record@ },
            StatusEvent::Warning { record } => StatusEventModel::Warning { record: record@ },
            StatusEvent::StateChanged { source, previous, current, pending } =>
                StatusEventModel::StateChanged {
                source: source@,
                previous: *previous,
                current: *current,
                pending: *pending,
            },
            StatusEvent::Other => StatusEventModel::Other,
        }
    }
}

/// Why the pipeline terminated: normal completion, or a reported error.
#[derive(Debug)]
pub enum TermReason {
    Completed,
    Failed(ErrorRecord),
}

/// Mathematical model of a `TermReason`.
pub enum TermReasonModel {
    Completed,
    Failed(ErrorRecordModel),
}

impl View for TermReason {
    type V = TermReasonModel;

    open spec fn view(&self) -> TermReasonModel {
        match self {
            TermReason::Completed => TermReasonModel::Completed,
            TermReason::Failed(r) => TermReasonModel::Failed(r@),
        }
    }
}

/// The model of an optional termination reason.
pub open spec fn opt_reason_model(o: Option<TermReason>) -> Option<TermReasonModel> {
    match o {
        Some(r) => Some(r@),
        None => None,
    }
}

/// The model of an optional error record.
pub open spec fn opt_record_model(o: Option<ErrorRecord>) -> Option<ErrorRecordModel> {
    match o {
        Some(r) => Some(r@),
        None => None,
    }
}

/// The single piece of state shared between the control context and the
/// event-delivery context: a termination reason, set at most once.
#[derive(Debug)]
pub struct TerminationSignal {
    pub reason: Option<TermReason>,
}

impl View for TerminationSignal {
    type V = Option<TermReasonModel>;

    open spec fn view(&self) -> Option<TermReasonModel> {
        opt_reason_model(self.reason)
    }
}

/// First-write-wins: a recorded reason is never overwritten.
pub open spec fn first_write(
    cur: Option<TermReasonModel>,
    r: TermReasonModel,
) -> Option<TermReasonModel> {
    if cur is Some {
        cur
    } else {
        Some(r)
    }
}

impl TerminationSignal {
    /// A fresh, unset signal.
    pub fn new() -> (r: TerminationSignal)
        ensures
            r@ is None,
    {
        TerminationSignal { reason: None }
    }

    /// Whether a termination reason has been recorded.
    pub fn is_set(&self) -> (b: bool)
        ensures
            b == (self@ is Some),
    {
        match &self.reason {
            Some(_) => true,
            None => false,
        }
    }

    /// Records a termination reason unless one is already recorded; later
    /// writes are ignored.
    pub fn signal(&mut self, reason: TermReason)
        ensures
            final(self)@ == first_write(old(self)@, reason@),
    {
        match &self.reason {
            Some(_) => {},
            None => {
                self.reason = Some(reason);
            },
        }
    }

    /// Reads and clears the recorded reason at shutdown.
    pub fn take(&mut self) -> (r: Option<TermReason>)
        ensures
            opt_reason_model(r) == old(self)@,
            final(self)@ is None,
    {
        let r = self.reason.take();
        r
    }
}

/// The termination reason an event implies: set on end-of-stream and on an
/// error, never on a warning, a state change, or any other event.
pub open spec fn terminal_reason_of(ev: StatusEventModel) -> Option<TermReasonModel> {
    match ev {
        StatusEventModel::EndOfStream => Some(TermReasonModel::Completed),
        StatusEventModel::Error { record } => Some(TermReasonModel::Failed(record)),
        _ => None,
    }
}

/// The signal after dispatching one event.
pub open spec fn signal_after(
    cur: Option<TermReasonModel>,
    ev: StatusEventModel,
) -> Option<TermReasonModel> {
    match terminal_reason_of(ev) {
        Some(r) => first_write(cur, r),
        None => cur,
    }
}

/// The signal after dispatching a sequence of events in order.
pub open spec fn signal_after_events(
    cur: Option<TermReasonModel>,
    evs: Seq<StatusEventModel>,
) -> Option<TermReasonModel>
    decreases evs.len(),
{
    if evs.len() == 0 {
        cur
    } else {
        signal_after_events(signal_after(cur, evs.first()), evs.drop_first())
    }
}

/// First-write-wins over whole deliveries: once a termination reason is
/// recorded, dispatching any further events — an end-of-stream followed by
/// an error, or any other mix — leaves the recorded reason unchanged.
pub proof fn lemma_first_write_wins(cur: Option<TermReasonModel>, evs: Seq<StatusEventModel>)
    requires
        cur is Some,
    ensures
        signal_after_events(cur, evs) == cur,
    decreases evs.len(),
{
    if evs.len() > 0 {
        assert(signal_after(cur, evs.first()) == cur);
        lemma_first_write_wins(cur, evs.drop_first());
    }
}

/// What the dispatch callback hands back to the watcher: whether further
/// events still matter, and any record to surface on the warning or error
/// side channel.
#[derive(Debug)]
pub struct DispatchReport {
    pub keep_watching: bool,
    pub warning: Option<ErrorRecord>,
    pub error: Option<ErrorRecord>,
}

/// Dispatches one status event, exhaustively over the event taxonomy.
///
/// End-of-stream and errors set the termination signal (first-write-wins)
/// and end the watch; an error is also surfaced on the error channel.
/// Warnings are surfaced on their side channel and alter nothing else.
/// State changes and other events are observability only.
pub fn dispatch(sig: &mut TerminationSignal, event: &StatusEvent) -> (rep: DispatchReport)
    ensures
        final(sig)@ == signal_after(old(sig)@, event@),
        rep.keep_watching == (terminal_reason_of(event@) is None),
        opt_record_model(rep.warning) == (match event@ {
            StatusEventModel::Warning { record } => Some(record),
            _ => None::<ErrorRecordModel>,
        }),
        opt_record_model(rep.error) == (match event@ {
            StatusEventModel::Error { record } => Some(record),
            _ => None::<ErrorRecordModel>,
        }),
{
    match event {
        StatusEvent::EndOfStream => {
            sig.signal(TermReason::Completed);
            DispatchReport { keep_watching: false, warning: None, error: None }
        },
        StatusEvent::Error { record } => {
            let surfaced = record.duplicate();
            sig.signal(TermReason::Failed(record.duplicate()));
            DispatchReport { keep_watching: false, warning: None, error: Some(surfaced) }
        },
        StatusEvent::Warning { record } => {
            DispatchReport { keep_watching: true, warning: Some(record.duplicate()), error: None }
        },
        StatusEvent::StateChanged { .. } => {
            DispatchReport { keep_watching: true, warning: None, error: None }
        },
        StatusEvent::Other => {
            DispatchReport { keep_watching: true, warning: None, error: None }
        },
    }
}

} // verus!
