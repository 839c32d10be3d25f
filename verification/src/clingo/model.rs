//! Models: the answer sets that a search finds, one after the other.

use vstd::prelude::*;

use crate::clingo::error::{ClingoError, EngineError, ErrorView, Failure};
use crate::clingo::symbol::{Symbol, NOT_TEXT};

verus! {

/// The selector under which the engine lists the atoms that a program shows.
pub const SHOWN: u32 = 2;

/// Why the symbols of a model could not be listed.
#[derive(Debug, Clone, PartialEq, Eq)]
pub enum ListFailure {
    /// A call to the engine failed; with it, what the engine says of the
    /// failure.
    Engine(EngineError),
    /// The engine gave a name or a string that is not valid UTF-8.
    NotText,
}

impl ListFailure {
    /// The error that the failure reads as.
    pub open spec fn spec_error(&self) -> ErrorView {
        match self {
            ListFailure::Engine(reported) => Failure::SymbolEnumeration.spec_error(*reported),
            ListFailure::NotText => ErrorView::Bindings { message: NOT_TEXT@ },
        }
    }
}

/// One model as it was read from the engine: its number in the run of models,
/// and the symbols that it held under the selector it was read with. The engine
/// keeps a model only until the search goes on; what was read stays.
#[derive(Debug, PartialEq, Eq)]
pub struct Model {
    number: u64,
    symbols: Vec<Symbol>,
}

impl Model {
    /// The number of the model in the run of models, counted from 1.
    pub closed spec fn spec_number(&self) -> u64 {
        self.number
    }

    /// The symbols of the model, in the order in which the engine listed them.
    pub closed spec fn spec_symbols(&self) -> Seq<Symbol> {
        self.symbols@
    }

    /// Makes a model of its number and its symbols.
    pub fn new(number: u64, symbols: Vec<Symbol>) -> (model: Model)
        ensures
            model.spec_number() == number,
            model.spec_symbols() == symbols@,
    {
        Model { number, symbols }
    }

    /// Returns the number of the model in the run of models, counted from 1.
    pub fn number(&self) -> (number: u64)
        ensures
            number == self.spec_number(),
    {
        self.number
    }

    /// Returns the symbols of the model, in the order in which the engine
    /// listed them.
    pub fn symbols(&self) -> (symbols: &[Symbol])
        ensures
            symbols@ == self.spec_symbols(),
    {
        self.symbols.as_slice()
    }

    /// Gives up the model for its symbols.
    pub fn into_symbols(self) -> (symbols: Vec<Symbol>)
        ensures
            symbols@ == self.spec_symbols(),
    {
        self.symbols
    }

    /// Reads the engine's answer to the question for the number of a model.
    pub fn read_number(reply: Result<u64, EngineError>) -> (number: Result<u64, ClingoError>)
        ensures
            match reply {
                Ok(n) => number == Ok::<u64, ClingoError>(n),
                Err(reported) => number is Err && number->Err_0@
                    == Failure::ModelNumber.spec_error(reported),
            },
    {
        Failure::ModelNumber.check(reply)
    }

    /// Reads the engine's answer to the question how many symbols a model
    /// holds under a selector. `Some` count is the number of symbols to ask the
    /// engine for; `None` says that there is none to ask for: a selector under
    /// which a model shows nothing gives no symbols, and no error.
    pub fn symbols_size(reply: Result<usize, EngineError>) -> (count: Result<
        Option<usize>,
        ClingoError,
    >)
        ensures
            match reply {
                Ok(n) => count == Ok::<Option<usize>, ClingoError>(
                    if n == 0 {
                        None
                    } else {
                        Some(n)
                    },
                ),
                Err(reported) => count is Err && count->Err_0@
                    == Failure::SymbolCount.spec_error(reported),
            },
    {
        match Failure::SymbolCount.check(reply) {
            Ok(n) => if n == 0 {
                Ok(None)
            } else {
                Ok(Some(n))
            },
            Err(e) => Err(e),
        }
    }

    /// Reads the engine's answer to the request for the symbols of a model. A
    /// name or a string that is not valid UTF-8 is an error, as a failed call
    /// is.
    pub fn read_symbols(reply: Result<Vec<Symbol>, ListFailure>) -> (symbols: Result<
        Vec<Symbol>,
        ClingoError,
    >)
        ensures
            match reply {
                Ok(listed) => symbols == Ok::<Vec<Symbol>, ClingoError>(listed),
                Err(failure) => symbols is Err && symbols->Err_0@ == failure.spec_error(),
            },
    {
        match reply {
            Ok(listed) => Ok(listed),
            Err(ListFailure::Engine(reported)) => Err(Failure::SymbolEnumeration.error(reported)),
            Err(ListFailure::NotText) => Err(ClingoError::Bindings { message: NOT_TEXT }),
        }
    }
}

} // verus!
