//! The configuration of a session: the options of the engine.
//!
//! An option is set in two steps. The engine is asked for the key of the
//! option under the root of its options, and then told to set the value under
//! that key.

use vstd::prelude::*;
use vstd::utf8::*;

use crate::clingo::error::{ClingoError, EngineError, ErrorView, Failure};
use crate::text::{c_bytes, c_safe, first_nul};

verus! {

/// The options of the engine that this library sets.
#[derive(Debug, Clone, Copy, PartialEq, Eq, Structural)]
pub enum ConfigKey {
    /// How many models the engine lists before it stops; `0` for all.
    SolveModels,
}

impl ConfigKey {
    /// The path of the option in the engine's tree of options.
    pub open spec fn spec_as_str(&self) -> Seq<char> {
        match self {
            ConfigKey::SolveModels => "solve.models"@,
        }
    }

    /// Returns the path of the option in the engine's tree of options.
    pub fn as_str(&self) -> (path: &'static str)
        ensures
            path@ == self.spec_as_str(),
    {
        match self {
            ConfigKey::SolveModels => "solve.models",
        }
    }
}

/// The options of one session, from their root down.
#[derive(Debug)]
pub struct Configuration {
    root: u32,
}

impl Configuration {
    /// The key of the root of the options.
    pub closed spec fn spec_root(&self) -> u32 {
        self.root
    }

    /// Reads the engine's answer to the question for the root of the options.
    pub fn new(reply: Result<u32, EngineError>) -> (configuration: Result<
        Configuration,
        ClingoError,
    >)
        ensures
            match reply {
                Ok(root) => configuration is Ok && configuration->Ok_0.spec_root() == root,
                Err(reported) => configuration is Err && configuration->Err_0@
                    == Failure::ConfigRoot.spec_error(reported),
            },
    {
        match Failure::ConfigRoot.check(reply) {
            Ok(root) => Ok(Configuration { root }),
            Err(e) => Err(e),
        }
    }

    /// Returns the key of the root of the options, under which the engine
    /// looks up an option.
    pub fn root(&self) -> (root: u32)
        ensures
            root == self.spec_root(),
    {
        self.root
    }

    /// Reads the engine's answer to the question for the key of the option
    /// `key` under the root. A failure names the option.
    pub fn key_of(&self, key: ConfigKey, reply: Result<u32, EngineError>) -> (found: Result<
        u32,
        ClingoError,
    >)
        ensures
            match reply {
                Ok(id) => found == Ok::<u32, ClingoError>(id),
                Err(reported) => found is Err && found->Err_0@ == Failure::KeyLookup(
                    key,
                ).spec_error(reported),
            },
    {
        Failure::KeyLookup(key).check(reply)
    }

    /// Makes of the value `value` of an option the bytes to hand to the
    /// engine. A value that holds a zero byte is refused.
    pub fn value_text(value: &str) -> (text: Result<Vec<u8>, ClingoError>)
        ensures
            match text {
                Ok(bytes) => c_safe(value@) && bytes@ == c_bytes(value@),
                Err(e) => !c_safe(value@) && e@ == (ErrorView::NulError {
                    position: first_nul(encode_utf8(value@)) as usize,
                }),
            },
    {
        ClingoError::c_text(value)
    }

    /// Reads the engine's answer to the request to set the option `key`,
    /// whose key the engine gave before, to a value. A failure names the
    /// option.
    pub fn set_key_to_value(&mut self, key: ConfigKey, reply: Result<(), EngineError>) -> (set:
        Result<(), ClingoError>)
        ensures
            final(self).spec_root() == old(self).spec_root(),
            match reply {
                Ok(_) => set is Ok,
                Err(reported) => set is Err && set->Err_0@ == Failure::ValueSet(key).spec_error(
                    reported,
                ),
            },
    {
        Failure::ValueSet(key).check(reply)
    }
}

} // verus!
