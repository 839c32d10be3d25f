//! Symbols: the values that the atoms of a model are made of.
//!
//! The engine keeps a symbol as a tagged value and tells its kind by a code.
//! A `Symbol` here holds what the engine says of one: the code, and what a
//! symbol of that kind carries.

use vstd::prelude::*;
use vstd::utf8::*;

use crate::clingo::error::{ClingoError, EngineError, ErrorView, Failure};
use crate::text::{c_content, text_before_nul};

verus! {

/// The kind of a symbol.
#[derive(Debug, Clone, Copy, PartialEq, Eq, Structural)]
pub enum SymbolType {
    /// The symbol that is smaller than every other.
    Infimum,
    /// A number.
    Number,
    /// A text in quotes.
    String,
    /// A name with arguments; with no name, a tuple.
    Function,
    /// The symbol that is greater than every other.
    Supremum,
    /// A kind that this library does not know.
    Unknown,
}

impl SymbolType {
    /// The kind that the engine's code `code` stands for.
    pub open spec fn spec_from_code(code: i32) -> SymbolType {
        if code == 0 {
            SymbolType::Infimum
        } else if code == 1 {
            SymbolType::Number
        } else if code == 4 {
            SymbolType::String
        } else if code == 5 {
            SymbolType::Function
        } else if code == 7 {
            SymbolType::Supremum
        } else {
            SymbolType::Unknown
        }
    }

    /// Reads the engine's code for a kind. A code that this library does not
    /// know reads as `Unknown`: a later engine may know more kinds.
    pub fn from_code(code: i32) -> (kind: SymbolType)
        ensures
            kind == Self::spec_from_code(code),
    {
        match code {
            0 => SymbolType::Infimum,
            1 => SymbolType::Number,
            4 => SymbolType::String,
            5 => SymbolType::Function,
            7 => SymbolType::Supremum,
            _ => SymbolType::Unknown,
        }
    }

    /// The engine's code for the kind, for a kind that this library knows.
    pub open spec fn spec_code(&self) -> Option<i32> {
        match self {
            SymbolType::Infimum => Some(0i32),
            SymbolType::Number => Some(1i32),
            SymbolType::String => Some(4i32),
            SymbolType::Function => Some(5i32),
            SymbolType::Supremum => Some(7i32),
            SymbolType::Unknown => None,
        }
    }

    /// Returns the engine's code for the kind, for a kind that this library
    /// knows. Read back, the code gives the kind again.
    pub fn code(&self) -> (code: Option<i32>)
        ensures
            code == self.spec_code(),
            code is Some <==> *self != SymbolType::Unknown,
            code is Some ==> Self::spec_from_code(code->0) == *self,
    {
        match self {
            SymbolType::Infimum => Some(0),
            SymbolType::Number => Some(1),
            SymbolType::String => Some(4),
            SymbolType::Function => Some(5),
            SymbolType::Supremum => Some(7),
            SymbolType::Unknown => None,
        }
    }
}

/// What a symbol is asked for when it is asked for its number.
pub const NOT_A_NUMBER: &'static str = "Symbol is not a number";

/// What a symbol is asked for when it is asked for its text.
pub const NOT_A_STRING: &'static str = "Symbol is not a string";

/// What a symbol is asked for when it is asked for its name or arguments.
pub const NOT_A_FUNCTION: &'static str = "Symbol is not a function";

/// What is wrong with a text of the engine that is not valid UTF-8.
pub const NOT_TEXT: &'static str = "Failed to convert CStr to str";

/// A symbol. Its number means something only where it is a number, its text
/// only where it is a string or a function (whose name the text then is), and
/// its arguments only where it is a function.
#[derive(Debug, PartialEq, Eq)]
pub struct Symbol {
    code: i32,
    number: i32,
    text: String,
    arguments: Vec<Symbol>,
}

impl Symbol {
    /// The engine's code for the kind of the symbol.
    pub closed spec fn spec_code(&self) -> i32 {
        self.code
    }

    /// The kind of the symbol.
    pub open spec fn spec_kind(&self) -> SymbolType {
        SymbolType::spec_from_code(self.spec_code())
    }

    /// The number that the symbol carries.
    pub closed spec fn spec_number(&self) -> i32 {
        self.number
    }

    /// The text that the symbol carries.
    pub closed spec fn spec_text(&self) -> Seq<char> {
        self.text@
    }

    /// The arguments that the symbol carries.
    pub closed spec fn spec_arguments(&self) -> Seq<Symbol> {
        self.arguments@
    }

    /// Makes a symbol of what the engine says of one: the code of its kind,
    /// its number, its text and its arguments.
    pub fn new(code: i32, number: i32, text: String, arguments: Vec<Symbol>) -> (symbol: Symbol)
        ensures
            symbol.spec_code() == code,
            symbol.spec_number() == number,
            symbol.spec_text() == text@,
            symbol.spec_arguments() == arguments@,
    {
        Symbol { code, number, text, arguments }
    }

    /// Makes the number `number`.
    pub fn from_number(number: i32) -> (symbol: Symbol)
        ensures
            symbol.spec_kind() == SymbolType::Number,
            symbol.spec_number() == number,
            symbol.spec_text() == Seq::<char>::empty(),
            symbol.spec_arguments() == Seq::<Symbol>::empty(),
    {
        Symbol { code: 1, number, text: String::new(), arguments: Vec::new() }
    }

    /// Makes the string `text`.
    pub fn from_string(text: String) -> (symbol: Symbol)
        ensures
            symbol.spec_kind() == SymbolType::String,
            symbol.spec_text() == text@,
            symbol.spec_arguments() == Seq::<Symbol>::empty(),
    {
        Symbol { code: 4, number: 0, text, arguments: Vec::new() }
    }

    /// Makes the function `name` of `arguments`.
    pub fn function(name: String, arguments: Vec<Symbol>) -> (symbol: Symbol)
        ensures
            symbol.spec_kind() == SymbolType::Function,
            symbol.spec_text() == name@,
            symbol.spec_arguments() == arguments@,
    {
        Symbol { code: 5, number: 0, text: name, arguments }
    }

    /// Returns the engine's code for the kind of the symbol.
    pub fn code(&self) -> (code: i32)
        ensures
            code == self.spec_code(),
    {
        self.code
    }

    /// Returns the kind of the symbol. This never fails: a code that this
    /// library does not know gives `Unknown`.
    pub fn kind(&self) -> (kind: SymbolType)
        ensures
            kind == self.spec_kind(),
    {
        SymbolType::from_code(self.code)
    }

    /// Returns the number, of a symbol that is one; of any other, a type
    /// error.
    pub fn number(&self) -> (number: Result<i32, ClingoError>)
        ensures
            match number {
                Ok(n) => self.spec_kind() == SymbolType::Number && n == self.spec_number(),
                Err(e) => self.spec_kind() != SymbolType::Number && e@ == (ErrorView::TypeError {
                    message: NOT_A_NUMBER@,
                }),
            },
    {
        match self.kind() {
            SymbolType::Number => Ok(self.number),
            _ => Err(ClingoError::new_type_error(NOT_A_NUMBER)),
        }
    }

    /// Returns the text, of a symbol that is a string; of any other, a type
    /// error.
    pub fn string(&self) -> (text: Result<&str, ClingoError>)
        ensures
            match text {
                Ok(t) => self.spec_kind() == SymbolType::String && t@ == self.spec_text(),
                Err(e) => self.spec_kind() != SymbolType::String && e@ == (ErrorView::TypeError {
                    message: NOT_A_STRING@,
                }),
            },
    {
        match self.kind() {
            SymbolType::String => Ok(self.text.as_str()),
            _ => Err(ClingoError::new_type_error(NOT_A_STRING)),
        }
    }

    /// Returns the name, of a symbol that is a function; of any other, a type
    /// error. The name of a tuple is empty, which is no error.
    pub fn name(&self) -> (name: Result<&str, ClingoError>)
        ensures
            match name {
                Ok(n) => self.spec_kind() == SymbolType::Function && n@ == self.spec_text(),
                Err(e) => self.spec_kind() != SymbolType::Function && e@ == (
                ErrorView::TypeError { message: NOT_A_FUNCTION@ }),
            },
    {
        match self.kind() {
            SymbolType::Function => Ok(self.text.as_str()),
            _ => Err(ClingoError::new_type_error(NOT_A_FUNCTION)),
        }
    }

    /// Returns the arguments, of a symbol that is a function; of any other, a
    /// type error. A function of no arguments has none, which is no error.
    pub fn arguments(&self) -> (arguments: Result<&[Symbol], ClingoError>)
        ensures
            match arguments {
                Ok(a) => self.spec_kind() == SymbolType::Function && a@ == self.spec_arguments(),
                Err(e) => self.spec_kind() != SymbolType::Function && e@ == (
                ErrorView::TypeError { message: NOT_A_FUNCTION@ }),
            },
    {
        match self.kind() {
            SymbolType::Function => Ok(self.arguments.as_slice()),
            _ => Err(ClingoError::new_type_error(NOT_A_FUNCTION)),
        }
    }

    /// Reads a name or a string that the engine holds, from its bytes: the
    /// text stands before the first zero byte, and must be valid UTF-8.
    pub fn read_text(bytes: &[u8]) -> (text: Result<String, ClingoError>)
        ensures
            match text {
                Ok(read) => valid_utf8(c_content(bytes@)) && read@ == decode_utf8(
                    c_content(bytes@),
                ),
                Err(e) => !valid_utf8(c_content(bytes@)) && e@ == (ErrorView::Bindings {
                    message: NOT_TEXT@,
                }),
            },
    {
        match text_before_nul(bytes) {
            Some(read) => Ok(read),
            None => Err(ClingoError::Bindings { message: NOT_TEXT }),
        }
    }

    /// Reads the engine's answer to how long the text of a symbol is, the
    /// zero byte at its end counted. `Some` length is that of the buffer for
    /// the engine to write the text into; `None` says that there is nothing to
    /// write, and that the text is empty.
    pub fn text_size(reply: Result<usize, EngineError>) -> (size: Result<Option<usize>, ClingoError>)
        ensures
            match reply {
                Ok(n) => size == Ok::<Option<usize>, ClingoError>(
                    if n == 0 {
                        None
                    } else {
                        Some(n)
                    },
                ),
                Err(reported) => size is Err && size->Err_0@ == Failure::SymbolTextSize.spec_error(
                    reported,
                ),
            },
    {
        match Failure::SymbolTextSize.check(reply) {
            Ok(n) => if n == 0 {
                Ok(None)
            } else {
                Ok(Some(n))
            },
            Err(e) => Err(e),
        }
    }

    /// Reads the engine's answer to the request to write the text of a symbol:
    /// the buffer as the engine left it. The text is what stands before the
    /// first zero byte, and must be valid UTF-8.
    pub fn to_string(reply: Result<Vec<u8>, EngineError>) -> (text: Result<String, ClingoError>)
        ensures
            match reply {
                Ok(buffer) => if valid_utf8(c_content(buffer@)) {
                    text is Ok && text->Ok_0@ == decode_utf8(c_content(buffer@))
                } else {
                    text is Err && text->Err_0@ == (ErrorView::Bindings { message: NOT_TEXT@ })
                },
                Err(reported) => text is Err && text->Err_0@ == Failure::SymbolText.spec_error(
                    reported,
                ),
            },
    {
        match Failure::SymbolText.check(reply) {
            Ok(buffer) => match text_before_nul(buffer.as_slice()) {
                Some(text) => Ok(text),
                None => Err(ClingoError::Bindings { message: NOT_TEXT }),
            },
            Err(e) => Err(e),
        }
    }
}

} // verus!
