//! The session: one run of the engine, from the loading of programs through
//! grounding to the start of a search.
//!
//! A session goes through its steps in order: programs are loaded, then the
//! loaded program is grounded, then the search starts. The engine does not say
//! what it does with steps out of order, and nothing here tests the order at
//! run time: it is what each step requires of its caller.

use vstd::prelude::*;
use vstd::utf8::*;

use crate::clingo::configuration::Configuration;
use crate::clingo::error::{ClingoError, EngineError, ErrorView, Failure, HandleReply};
use crate::clingo::model::Model;
use crate::clingo::solve_handle::{SolveHandle, SolveHandleState};
use crate::text::{c_bytes, c_safe, first_nul};

verus! {

/// The name of the one program part that is grounded.
pub const BASE_PART: &'static str = "base";

/// The bit of the solve mode that lets the search run beside its caller.
pub const SOLVE_MODE_ASYNC: u32 = 1;

/// The bit of the solve mode that stops the search at each model.
pub const SOLVE_MODE_YIELD: u32 = 2;

/// How far a session has come.
#[derive(Debug, Clone, Copy, PartialEq, Eq, Structural)]
pub enum SessionPhase {
    /// The session is open and holds no program.
    Fresh,
    /// The session holds at least one program.
    Loaded,
    /// The program of the session is grounded.
    Grounded,
    /// The search has started.
    Solving,
}

/// One session of the engine. There is one owner of a session, it cannot be
/// copied, and closing it gives it up.
#[derive(Debug)]
pub struct Control {
    phase: SessionPhase,
}

impl Control {
    /// How far the session has come.
    pub closed spec fn spec_phase(&self) -> SessionPhase {
        self.phase
    }

    /// Reads the engine's answer to the request to open a session, which is
    /// made with no arguments and no logger.
    pub fn new(reply: HandleReply) -> (control: Result<Control, ClingoError>)
        ensures
            match reply {
                HandleReply::Given => control is Ok && control->Ok_0.spec_phase()
                    == SessionPhase::Fresh,
                HandleReply::Missing(reported) => control is Err && control->Err_0@
                    == Failure::SessionMissing.spec_error(reported),
                HandleReply::Failed(reported) => control is Err && control->Err_0@
                    == Failure::SessionCreation.spec_error(reported),
            },
    {
        match Failure::SessionCreation.check_handle(Failure::SessionMissing, reply) {
            Ok(_) => Ok(Control { phase: SessionPhase::Fresh }),
            Err(e) => Err(e),
        }
    }

    /// Returns how far the session has come.
    pub fn phase(&self) -> (phase: SessionPhase)
        ensures
            phase == self.spec_phase(),
    {
        self.phase
    }

    /// Makes of the path `file` of a program the bytes to hand to the engine.
    /// A path that holds a zero byte is refused.
    pub fn program_path(file: &str) -> (path: Result<Vec<u8>, ClingoError>)
        ensures
            path is Ok <==> c_safe(file@),
            path is Ok ==> path->Ok_0@ == c_bytes(file@),
            path is Err ==> path->Err_0@ == (ErrorView::NulError {
                position: first_nul(encode_utf8(file@)) as usize,
            }),
    {
        ClingoError::c_text(file)
    }

    /// Reads the engine's answer to the request to load the program of a
    /// file. Programs are loaded before the session is grounded.
    pub fn load(&mut self, reply: Result<(), EngineError>) -> (loaded: Result<(), ClingoError>)
        requires
            old(self).spec_phase() == SessionPhase::Fresh || old(self).spec_phase()
                == SessionPhase::Loaded,
        ensures
            match reply {
                Ok(_) => loaded is Ok && final(self).spec_phase() == SessionPhase::Loaded,
                Err(reported) => loaded is Err && loaded->Err_0@ == Failure::Load.spec_error(
                    reported,
                ) && final(self).spec_phase() == old(self).spec_phase(),
            },
    {
        match Failure::Load.check(reply) {
            Ok(_) => {
                self.phase = SessionPhase::Loaded;
                Ok(())
            },
            Err(e) => Err(e),
        }
    }

    /// Reads the engine's answer to the request to ground the part
    /// `BASE_PART`, which takes no parameters. The session is grounded after
    /// its programs are loaded and before the search starts.
    pub fn ground(&mut self, reply: Result<(), EngineError>) -> (grounded: Result<
        (),
        ClingoError,
    >)
        requires
            old(self).spec_phase() == SessionPhase::Loaded,
        ensures
            match reply {
                Ok(_) => grounded is Ok && final(self).spec_phase() == SessionPhase::Grounded,
                Err(reported) => grounded is Err && grounded->Err_0@
                    == Failure::Grounding.spec_error(reported) && final(self).spec_phase() == old(
                    self,
                ).spec_phase(),
            },
    {
        match Failure::Grounding.check(reply) {
            Ok(_) => {
                self.phase = SessionPhase::Grounded;
                Ok(())
            },
            Err(e) => Err(e),
        }
    }

    /// Returns the mode in which the search is started: beside its caller, so
    /// that the call that starts it returns at once, and stopping at each
    /// model.
    pub fn solve_mode() -> (mode: u32)
        ensures
            mode == SOLVE_MODE_ASYNC | SOLVE_MODE_YIELD,
            mode & SOLVE_MODE_ASYNC != 0,
            mode & SOLVE_MODE_YIELD != 0,
    {
        assert((1u32 | 2u32) == 3u32 && 3u32 & 1u32 != 0 && 3u32 & 2u32 != 0) by (bit_vector);
        SOLVE_MODE_ASYNC | SOLVE_MODE_YIELD
    }

    /// Reads the engine's answer to the request to start the search in the
    /// mode `solve_mode`, and gives the handle to the search. The search
    /// starts after the session is grounded.
    pub fn solve(&mut self, reply: HandleReply) -> (handle: Result<SolveHandle, ClingoError>)
        requires
            old(self).spec_phase() == SessionPhase::Grounded,
        ensures
            match reply {
                HandleReply::Given => handle is Ok && handle->Ok_0.spec_state()
                    == SolveHandleState::Active && final(self).spec_phase()
                    == SessionPhase::Solving,
                HandleReply::Missing(reported) => handle is Err && handle->Err_0@
                    == Failure::HandleMissing.spec_error(reported) && final(self).spec_phase()
                    == old(self).spec_phase(),
                HandleReply::Failed(reported) => handle is Err && handle->Err_0@
                    == Failure::SolveStart.spec_error(reported) && final(self).spec_phase() == old(
                    self,
                ).spec_phase(),
            },
    {
        match Failure::SolveStart.check_handle(Failure::HandleMissing, reply) {
            Ok(_) => {
                self.phase = SessionPhase::Solving;
                Ok(SolveHandle::new())
            },
            Err(e) => Err(e),
        }
    }

    /// Reads the engine's answers to the request for the configuration of the
    /// session, and then to the question for the root of its options, which is
    /// asked only where the first went well. The session stays as it is.
    pub fn configuration_mut(
        &mut self,
        reply: HandleReply,
        root: Result<u32, EngineError>,
    ) -> (configuration: Result<Configuration, ClingoError>)
        ensures
            final(self).spec_phase() == old(self).spec_phase(),
            match reply {
                HandleReply::Given => match root {
                    Ok(key) => configuration is Ok && configuration->Ok_0.spec_root() == key,
                    Err(reported) => configuration is Err && configuration->Err_0@
                        == Failure::ConfigRoot.spec_error(reported),
                },
                HandleReply::Missing(reported) => configuration is Err && configuration->Err_0@
                    == Failure::ConfigMissing.spec_error(reported),
                HandleReply::Failed(reported) => configuration is Err && configuration->Err_0@
                    == Failure::ConfigUnavailable.spec_error(reported),
            },
    {
        match Failure::ConfigUnavailable.check_handle(Failure::ConfigMissing, reply) {
            Ok(_) => Configuration::new(root),
            Err(e) => Err(e),
        }
    }

    /// Gives up the session, and tells how far it had come. The engine's
    /// session is to be closed with it.
    pub fn close(self) -> (phase: SessionPhase)
        ensures
            phase == self.spec_phase(),
    {
        self.phase
    }
}

/// What the engine tells of a search that is not polled but reports by itself.
#[derive(Debug, PartialEq, Eq)]
pub enum SolveEvent {
    /// The search found a model.
    Model(Model),
    /// The search found that there is no model.
    Unsat,
    /// The search has statistics to read.
    Statistics,
    /// The search is over.
    Finish,
}

impl SolveEvent {
    /// Reads what the engine reports: the code of the report and, with the
    /// report of a model, the model. A code that is not known, and the report
    /// of a model without one, give `None`: the search is then to be told to
    /// stop.
    pub fn from_code(code: u32, model: Option<Model>) -> (event: Option<SolveEvent>)
        ensures
            event == (if code == 0 {
                match model {
                    Some(found) => Some(SolveEvent::Model(found)),
                    None => None,
                }
            } else if code == 1 {
                Some(SolveEvent::Unsat)
            } else if code == 2 {
                Some(SolveEvent::Statistics)
            } else if code == 3 {
                Some(SolveEvent::Finish)
            } else {
                None
            }),
    {
        match code {
            0 => match model {
                Some(found) => Some(SolveEvent::Model(found)),
                None => None,
            },
            1 => Some(SolveEvent::Unsat),
            2 => Some(SolveEvent::Statistics),
            3 => Some(SolveEvent::Finish),
            _ => None,
        }
    }
}

} // verus!
