//! The handle to a search that runs beside its caller and stops at each model.
//!
//! A handle is active until the search ends in one of three ways: the search
//! has no more models, the caller stops it, or a call to the engine fails. From
//! each of these ends there is no way back.

use vstd::prelude::*;

use crate::clingo::error::{ClingoError, EngineError, ErrorView, Failure};
use crate::clingo::solve_result::{flags_of, recognized, SolveResult};

verus! {

/// How long one wait for the next model lasts at most, in milliseconds.
pub const POLL_INTERVAL_MILLIS: u64 = 100;

/// What is wrong with a result whose bits have no meaning.
pub const UNKNOWN_RESULT: &'static str =
    "Unknown or invalid bitflag combination in clingo_solve_result.";

/// The state of a search.
#[derive(Debug, Clone, Copy, PartialEq, Eq, Structural)]
pub enum SolveHandleState {
    /// The search runs, or waits at a model to be sent on.
    Active,
    /// The caller has stopped the search.
    Cancelled,
    /// The search has no more models.
    Exhausted,
    /// A call to the engine has failed.
    Errored,
}

impl SolveHandleState {
    /// Whether the search has ended.
    pub open spec fn is_terminal(&self) -> bool {
        *self != SolveHandleState::Active
    }

    /// The state after this one where the search turns to `end`: an active
    /// search ends so, and a search that has ended stays as it is.
    pub open spec fn ended(&self, end: SolveHandleState) -> SolveHandleState {
        if *self == SolveHandleState::Active {
            end
        } else {
            *self
        }
    }

    /// The state after the engine was asked for the current model.
    pub open spec fn after_model(&self, reply: Result<bool, EngineError>) -> SolveHandleState {
        match reply {
            Ok(true) => *self,
            Ok(false) => self.ended(SolveHandleState::Exhausted),
            Err(_) => self.ended(SolveHandleState::Errored),
        }
    }

    /// The state after the engine was told to go on or to stop, where going
    /// well leaves the search in `well`.
    pub open spec fn after_call(
        &self,
        reply: Result<(), EngineError>,
        well: SolveHandleState,
    ) -> SolveHandleState {
        match reply {
            Ok(_) => self.ended(well),
            Err(_) => self.ended(SolveHandleState::Errored),
        }
    }

    /// The state after the engine was asked for the result of the search.
    pub open spec fn after_get(&self, reply: Result<u32, EngineError>) -> SolveHandleState {
        match reply {
            Ok(bits) => if !recognized(bits) {
                self.ended(SolveHandleState::Errored)
            } else if flags_of(bits).interrupted {
                self.ended(SolveHandleState::Cancelled)
            } else if flags_of(bits).exhausted {
                self.ended(SolveHandleState::Exhausted)
            } else {
                *self
            },
            Err(_) => self.ended(SolveHandleState::Errored),
        }
    }
}

/// The handle to one search. There is one handle to a search, it cannot be
/// copied, and closing it gives it up.
#[derive(Debug)]
pub struct SolveHandle {
    state: SolveHandleState,
}

impl SolveHandle {
    /// The state of the search.
    pub closed spec fn spec_state(&self) -> SolveHandleState {
        self.state
    }

    /// Makes the handle to a search that has just begun.
    pub fn new() -> (handle: SolveHandle)
        ensures
            handle.spec_state() == SolveHandleState::Active,
    {
        SolveHandle { state: SolveHandleState::Active }
    }

    /// Returns the state of the search.
    pub fn state(&self) -> (state: SolveHandleState)
        ensures
            state == self.spec_state(),
    {
        self.state
    }

    /// Turns an active search to `end`.
    fn end(&mut self, end: SolveHandleState)
        ensures
            final(self).spec_state() == old(self).spec_state().ended(end),
    {
        match self.state {
            SolveHandleState::Active => {
                self.state = end;
            },
            _ => {},
        }
    }

    /// Reads the engine's answer to the question for the current model:
    /// whether there is one. Where there is none, the search has no more
    /// models.
    pub fn model(&mut self, reply: Result<bool, EngineError>) -> (current: Result<
        bool,
        ClingoError,
    >)
        ensures
            final(self).spec_state() == old(self).spec_state().after_model(reply),
            match reply {
                Ok(present) => current == Ok::<bool, ClingoError>(present),
                Err(reported) => current is Err && current->Err_0@
                    == Failure::ModelRetrieval.spec_error(reported),
            },
    {
        match reply {
            Ok(true) => Ok(true),
            Ok(false) => {
                self.end(SolveHandleState::Exhausted);
                Ok(false)
            },
            Err(reported) => {
                self.end(SolveHandleState::Errored);
                Err(Failure::ModelRetrieval.error(reported))
            },
        }
    }

    /// Reads the engine's answer to the request to leave the current model and
    /// search for the next. What was read of the model before stays; the
    /// engine's own model is gone.
    pub fn resume(&mut self, reply: Result<(), EngineError>) -> (resumed: Result<(), ClingoError>)
        ensures
            final(self).spec_state() == old(self).spec_state().after_call(
                reply,
                SolveHandleState::Active,
            ),
            match reply {
                Ok(_) => resumed is Ok,
                Err(reported) => resumed is Err && resumed->Err_0@ == Failure::Resume.spec_error(
                    reported,
                ),
            },
    {
        match reply {
            Ok(_) => Ok(()),
            Err(reported) => {
                self.end(SolveHandleState::Errored);
                Err(Failure::Resume.error(reported))
            },
        }
    }

    /// Reads the engine's answer to the request to stop the search. To stop a
    /// search that has ended changes nothing.
    pub fn cancel(&mut self, reply: Result<(), EngineError>) -> (cancelled: Result<
        (),
        ClingoError,
    >)
        ensures
            final(self).spec_state() == old(self).spec_state().after_call(
                reply,
                SolveHandleState::Cancelled,
            ),
            match reply {
                Ok(_) => cancelled is Ok,
                Err(reported) => cancelled is Err && cancelled->Err_0@
                    == Failure::Cancel.spec_error(reported),
            },
    {
        match reply {
            Ok(_) => {
                self.end(SolveHandleState::Cancelled);
                Ok(())
            },
            Err(reported) => {
                self.end(SolveHandleState::Errored);
                Err(Failure::Cancel.error(reported))
            },
        }
    }

    /// Reads the engine's answer to the question for the result of the search:
    /// the bits of the result. Bits without a meaning are refused.
    pub fn get(&mut self, reply: Result<u32, EngineError>) -> (result: Result<
        SolveResult,
        ClingoError,
    >)
        ensures
            final(self).spec_state() == old(self).spec_state().after_get(reply),
            match reply {
                Ok(bits) => if recognized(bits) {
                    result is Ok && result->Ok_0.spec_bits() == bits && result->Ok_0@ == flags_of(
                        bits,
                    )
                } else {
                    result is Err && result->Err_0@ == (ErrorView::Bindings {
                        message: UNKNOWN_RESULT@,
                    })
                },
                Err(reported) => result is Err && result->Err_0@
                    == Failure::FinalResult.spec_error(reported),
            },
    {
        match reply {
            Ok(bits) => match SolveResult::from_bits(bits) {
                Some(result) => {
                    if result.is_interrupted() {
                        self.end(SolveHandleState::Cancelled);
                    } else if result.is_exhausted() {
                        self.end(SolveHandleState::Exhausted);
                    }
                    Ok(result)
                },
                None => {
                    self.end(SolveHandleState::Errored);
                    Err(ClingoError::Bindings { message: UNKNOWN_RESULT })
                },
            },
            Err(reported) => {
                self.end(SolveHandleState::Errored);
                Err(Failure::FinalResult.error(reported))
            },
        }
    }

    /// Gives up the handle, and tells in which state the search was left. The
    /// engine's handle is to be closed with it.
    pub fn close(self) -> (state: SolveHandleState)
        ensures
            state == self.spec_state(),
    {
        self.state
    }
}

/// A search that has ended stays as it ended, whatever the engine answers
/// afterwards.
pub proof fn lemma_terminal_states_absorb(
    state: SolveHandleState,
    model: Result<bool, EngineError>,
    call: Result<(), EngineError>,
    well: SolveHandleState,
    get: Result<u32, EngineError>,
)
    requires
        state.is_terminal(),
    ensures
        state.after_model(model) == state,
        state.after_call(call, well) == state,
        state.after_get(get) == state,
{
}

/// An active search ends as the engine's answer says, and in no other way.
/// Asked for the model, it stays active exactly where there is one, is
/// exhausted exactly where there is none, and has failed exactly where the call
/// failed; it is never taken for stopped. Told to go on or to stop, it is as
/// it was told exactly where the call went well, and has failed otherwise.
/// Asked for the result, it is stopped exactly where the result is one with
/// the stopped bit set, and exhausted exactly where the result is one with the
/// exhausted bit set and without the stopped bit.
pub proof fn lemma_active_leaves_to_an_end(
    model: Result<bool, EngineError>,
    call: Result<(), EngineError>,
    get: Result<u32, EngineError>,
)
    ensures
        SolveHandleState::Active.after_model(model) == SolveHandleState::Active <==> model
            == Ok::<bool, EngineError>(true),
        SolveHandleState::Active.after_model(model) == SolveHandleState::Exhausted <==> model
            == Ok::<bool, EngineError>(false),
        SolveHandleState::Active.after_model(model) == SolveHandleState::Errored <==> model is Err,
        SolveHandleState::Active.after_model(model) != SolveHandleState::Cancelled,
        SolveHandleState::Active.after_call(call, SolveHandleState::Cancelled)
            == SolveHandleState::Cancelled <==> call is Ok,
        SolveHandleState::Active.after_call(call, SolveHandleState::Active)
            == SolveHandleState::Active <==> call is Ok,
        SolveHandleState::Active.after_call(call, SolveHandleState::Cancelled)
            == SolveHandleState::Errored <==> call is Err,
        SolveHandleState::Active.after_call(call, SolveHandleState::Active)
            == SolveHandleState::Errored <==> call is Err,
        SolveHandleState::Active.after_get(get) == SolveHandleState::Cancelled <==> get is Ok
            && recognized(get->Ok_0) && flags_of(get->Ok_0).interrupted,
        SolveHandleState::Active.after_get(get) == SolveHandleState::Exhausted <==> get is Ok
            && recognized(get->Ok_0) && !flags_of(get->Ok_0).interrupted && flags_of(
            get->Ok_0,
        ).exhausted,
        SolveHandleState::Active.after_get(get) == SolveHandleState::Errored <==> get is Err
            || !recognized(get->Ok_0),
{
}

} // verus!
