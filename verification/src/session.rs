use vstd::prelude::*;
use crate::control::{PipelineController, PipelineState};
use crate::errors::ControlError;
use crate::events::{
    ErrorRecord, ErrorRecordModel, StatusEvent, StatusEventModel, TermReason, TermReasonModel,
    TerminationSignal, dispatch, opt_reason_model, terminal_reason_of,
};
use crate::chain::is_complete_chain;
use crate::graph::graph_wf;

verus! {

/// The models of a sequence of status events.
pub open spec fn models_of(events: Seq<StatusEvent>) -> Seq<StatusEventModel> {
    events.map_values(|e: StatusEvent| e@)
}

/// The models of a sequence of error records.
pub open spec fn records_of(ws: Seq<ErrorRecord>) -> Seq<ErrorRecordModel> {
    ws.map_values(|w: ErrorRecord| w@)
}

/// The position of the first terminating event, or the sequence length if
/// no event terminates.
pub open spec fn terminal_index(evs: Seq<StatusEventModel>) -> int
    decreases evs.len(),
{
    if evs.len() == 0 {
        0
    } else if terminal_reason_of(evs.first()) is Some {
        0
    } else {
        1 + terminal_index(evs.drop_first())
    }
}

/// The reason carried by the first terminating event, if any.
pub open spec fn first_terminal(evs: Seq<StatusEventModel>) -> Option<TermReasonModel> {
    if terminal_index(evs) < evs.len() {
        terminal_reason_of(evs[terminal_index(evs)])
    } else {
        None
    }
}

/// The warning records among the first `n` events, in delivery order.
pub open spec fn warnings_up_to(evs: Seq<StatusEventModel>, n: int) -> Seq<ErrorRecordModel>
    decreases n,
{
    if n <= 0 {
        Seq::empty()
    } else {
        let prev = warnings_up_to(evs, n - 1);
        match evs[n - 1] {
            StatusEventModel::Warning { record } => prev.push(record),
            _ => prev,
        }
    }
}

/// A scan that saw no terminating event before `i`, and one at `i` if `i`
/// is in range, pins the terminal index at `i`.
proof fn lemma_terminal_index_at(evs: Seq<StatusEventModel>, i: int)
    requires
        0 <= i <= evs.len(),
        forall|j: int| 0 <= j < i ==> terminal_reason_of(#[trigger] evs[j]) is None,
        i < evs.len() ==> terminal_reason_of(evs[i]) is Some,
    ensures
        terminal_index(evs) == i,
    decreases i,
{
    if i > 0 {
        assert(terminal_reason_of(evs[0]) is None);
        let rest = evs.drop_first();
        assert forall|j: int| 0 <= j < i - 1 implies terminal_reason_of(
            #[trigger] rest[j],
        ) is None by {
            assert(rest[j] == evs[j + 1]);
        }
        if i - 1 < rest.len() {
            assert(rest[i - 1] == evs[i]);
        }
        lemma_terminal_index_at(rest, i - 1);
    }
}

/// What one supervised run of the pipeline reports: any pre-start fatal
/// failure, how far event delivery went, the warnings surfaced on the side
/// channel, why the run terminated, and whether the shutdown sequence
/// (stop, then detach) ran.
#[derive(Debug)]
pub struct SessionReport {
    pub failure: Option<ControlError>,
    pub started: bool,
    pub processed: usize,
    pub warnings: Vec<ErrorRecord>,
    pub termination: Option<TermReason>,
    pub stop_calls: usize,
    pub watcher_detached: bool,
}

/// The process exit code a finished run maps to: zero exactly when no fatal
/// failure occurred and termination, if any, was a graceful end-of-stream.
pub open spec fn session_exit_code(
    failure: Option<ControlError>,
    termination: Option<TermReasonModel>,
) -> u32 {
    if failure is Some {
        1
    } else {
        match termination {
            Some(TermReasonModel::Failed(_)) => 1,
            _ => 0,
        }
    }
}

impl SessionReport {
    /// The process exit code this run maps to.
    pub fn exit_code(&self) -> (c: u32)
        ensures
            c == session_exit_code(self.failure, opt_reason_model(self.termination)),
    {
        if self.failure.is_some() {
            return 1;
        }
        match &self.termination {
            Some(TermReason::Failed(_)) => 1,
            _ => 0,
        }
    }
}

/// Drives one supervised run over a delivered event sequence: start the
/// controller, watch events in order until the first one sets the
/// termination signal, then stop the controller and detach the watcher.
///
/// A watch-registration failure or an incomplete graph is fatal before the
/// pipeline starts: nothing is processed and the controller is untouched.
/// Once started, the loop does not terminate before the first end-of-stream
/// or error event; warnings are surfaced exactly once each and never affect
/// control flow.  When a terminating event arrives, the shutdown sequence
/// is unconditional: exactly one stop call, then the watcher is detached.
#[verifier::loop_isolation(false)]
pub fn run_session(
    ctrl: &mut PipelineController,
    watch_registered: bool,
    events: &Vec<StatusEvent>,
) -> (rep: SessionReport)
    requires
        graph_wf(old(ctrl).graph@),
    ensures
        final(ctrl).graph@ == old(ctrl).graph@,
        !watch_registered ==> rep.failure == Some(ControlError::WatchFailed) && *final(ctrl)
            == *old(ctrl),
        (watch_registered && !is_complete_chain(old(ctrl).graph@)) ==> rep.failure == Some(
            ControlError::LinkageIncomplete,
        ) && *final(ctrl) == *old(ctrl),
        rep.failure is Some ==> !rep.started && rep.processed == 0 && rep.warnings@.len() == 0
            && rep.termination is None && rep.stop_calls == 0 && !rep.watcher_detached,
        (watch_registered && is_complete_chain(old(ctrl).graph@)) ==> {
            &&& rep.failure is None
            &&& rep.started
            &&& opt_reason_model(rep.termination) == first_terminal(models_of(events@))
            &&& rep.processed == (if terminal_index(models_of(events@)) < models_of(
                events@,
            ).len() {
                terminal_index(models_of(events@)) + 1
            } else {
                models_of(events@).len() as int
            })
            &&& records_of(rep.warnings@) == warnings_up_to(
                models_of(events@),
                terminal_index(models_of(events@)),
            )
            &&& (first_terminal(models_of(events@)) is Some ==> rep.stop_calls == 1
                && rep.watcher_detached && final(ctrl).state == PipelineState::Idle
                && final(ctrl).pending is None)
            &&& (first_terminal(models_of(events@)) is None ==> rep.stop_calls == 0
                && !rep.watcher_detached && (final(ctrl).state == PipelineState::Playing
                || final(ctrl).pending == Some(PipelineState::Playing)))
        },
{
    if !watch_registered {
        return SessionReport {
            failure: Some(ControlError::WatchFailed),
            started: false,
            processed: 0,
            warnings: Vec::new(),
            termination: None,
            stop_calls: 0,
            watcher_detached: false,
        };
    }
    match ctrl.start() {
        Err(e) => {
            return SessionReport {
                failure: Some(e),
                started: false,
                processed: 0,
                warnings: Vec::new(),
                termination: None,
                stop_calls: 0,
                watcher_detached: false,
            };
        },
        Ok(_) => {},
    }
    let mut sig = TerminationSignal::new();
    let mut warnings: Vec<ErrorRecord> = Vec::new();
    let n = events.len();
    let mut i: usize = 0;
    let mut done = false;
    proof {
        assert(records_of(warnings@) =~= warnings_up_to(models_of(events@), 0));
    }
    while i < n && !done
        invariant
            i <= n,
            !done ==> sig@ is None,
            !done ==> forall|j: int|
                0 <= j < i ==> terminal_reason_of(#[trigger] models_of(events@)[j]) is None,
            done ==> 1 <= i && terminal_reason_of(models_of(events@)[i - 1]) is Some && sig@
                == terminal_reason_of(models_of(events@)[i - 1]) && forall|j: int|
                0 <= j < i - 1 ==> terminal_reason_of(#[trigger] models_of(events@)[j]) is None,
            records_of(warnings@) == warnings_up_to(models_of(events@), i as int),
        decreases n - i,
    {
        let ghost before = warnings@;
        let rep = dispatch(&mut sig, &events[i]);
        match rep.warning {
            Some(w) => {
                warnings.push(w);
            },
            None => {},
        }
        if !rep.keep_watching {
            done = true;
        }
        proof {
            assert(models_of(events@)[i as int] == events@[i as int]@);
            assert(records_of(warnings@) =~= warnings_up_to(models_of(events@), i + 1));
        }
        i += 1;
    }
    proof {
        if done {
            lemma_terminal_index_at(models_of(events@), i - 1);
        } else {
            assert(i == n);
            lemma_terminal_index_at(models_of(events@), n as int);
        }
    }
    let termination = sig.take();
    let mut stop_calls: usize = 0;
    let mut detached = false;
    match &termination {
        Some(_) => {
            let _ = ctrl.stop();
            stop_calls = 1;
            detached = true;
        },
        None => {},
    }
    SessionReport {
        failure: None,
        started: true,
        processed: i,
        warnings,
        termination,
        stop_calls,
        watcher_detached: detached,
    }
}

} // verus!
