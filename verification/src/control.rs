use vstd::prelude::*;
use crate::chain::is_complete_chain;
use crate::errors::ControlError;
use crate::graph::{StageGraph, graph_wf};

verus! {

/// Lifecycle states of a pipeline.
#[derive(Clone, Copy, Debug, PartialEq, Eq, Structural)]
pub enum PipelineState {
    Idle,
    Ready,
    Paused,
    Playing,
}

/// What a requested transition reports immediately: it either completed
/// synchronously or will complete later, delivered as a state-change event.
#[derive(Clone, Copy, Debug, PartialEq, Eq, Structural)]
pub enum TransitionOutcome {
    Success,
    Async,
}

/// Wraps a stage graph with the explicit lifecycle state machine.  The
/// current state and the pending target of an in-flight asynchronous
/// transition are mutated only through the controller's operations.
#[derive(Debug)]
pub struct PipelineController {
    pub graph: StageGraph,
    pub state: PipelineState,
    pub pending: Option<PipelineState>,
}

impl PipelineController {
    /// Wraps a built graph; the pipeline starts idle with no transition in
    /// flight.
    pub fn new(graph: StageGraph) -> (r: PipelineController)
        ensures
            r.graph@ == graph@,
            r.state == PipelineState::Idle,
            r.pending is None,
    {
        PipelineController { graph, state: PipelineState::Idle, pending: None }
    }

    /// Requests a transition.  Staying in the current state and moving down
    /// to `Idle` complete synchronously; any other transition is
    /// asynchronous and completes later through a state-change event.
    pub fn set_state(&mut self, target: PipelineState) -> (r: TransitionOutcome)
        ensures
            final(self).graph@ == old(self).graph@,
            (target == old(self).state && old(self).pending is None) ==> (r
                == TransitionOutcome::Success && *final(self) == *old(self)),
            (!(target == old(self).state && old(self).pending is None) && target
                == PipelineState::Idle) ==> (r == TransitionOutcome::Success && final(self).state
                == PipelineState::Idle && final(self).pending is None),
            (!(target == old(self).state && old(self).pending is None) && target
                != PipelineState::Idle) ==> (r == TransitionOutcome::Async && final(self).state
                == old(self).state && final(self).pending == Some(target)),
    {
        if self.state == target && self.pending.is_none() {
            return TransitionOutcome::Success;
        }
        if target == PipelineState::Idle {
            self.state = PipelineState::Idle;
            self.pending = None;
            return TransitionOutcome::Success;
        }
        self.pending = Some(target);
        TransitionOutcome::Async
    }

    /// Records the completion of an asynchronous transition, as observed in
    /// a state-change event about the pipeline itself.
    pub fn complete_transition(&mut self, new_state: PipelineState)
        ensures
            final(self).graph@ == old(self).graph@,
            final(self).state == new_state,
            final(self).pending == if old(self).pending == Some(new_state) {
                Option::<PipelineState>::None
            } else {
                old(self).pending
            },
    {
        self.state = new_state;
        let clear = match &self.pending {
            Some(p) => *p == new_state,
            None => false,
        };
        if clear {
            self.pending = None;
        }
    }

    /// Requests the transition to `Playing`, so that stages begin producing
    /// and consuming.
    ///
    /// Fails with `LinkageIncomplete`, changing nothing, exactly when the
    /// graph does not satisfy the linear-path invariant.
    pub fn start(&mut self) -> (r: Result<TransitionOutcome, ControlError>)
        requires
            graph_wf(old(self).graph@),
        ensures
            final(self).graph@ == old(self).graph@,
            r is Ok <==> is_complete_chain(old(self).graph@),
            r is Err ==> *final(self) == *old(self) && r == Err::<TransitionOutcome, ControlError>(
                ControlError::LinkageIncomplete,
            ),
            r matches Ok(t) ==> if old(self).state == PipelineState::Playing
                && old(self).pending is None {
                t == TransitionOutcome::Success && *final(self) == *old(self)
            } else {
                t == TransitionOutcome::Async && final(self).state == old(self).state
                    && final(self).pending == Some(PipelineState::Playing)
            },
    {
        if !self.graph.linkage_complete() {
            return Err(ControlError::LinkageIncomplete);
        }
        Ok(self.set_state(PipelineState::Playing))
    }

    /// Requests the transition to `Idle` and always succeeds.  Stopping an
    /// already-idle pipeline is a no-op, not an error.
    pub fn stop(&mut self) -> (r: Result<TransitionOutcome, ControlError>)
        ensures
            final(self).graph@ == old(self).graph@,
            r is Ok,
            final(self).state == PipelineState::Idle,
            final(self).pending is None,
            (old(self).state == PipelineState::Idle && old(self).pending is None) ==> *final(self)
                == *old(self),
    {
        Ok(self.set_state(PipelineState::Idle))
    }
}

} // verus!
