//! Errors: what can go wrong between this library and the engine.
//!
//! Three things can. The engine can report that a call failed, and then says
//! why in a code and a message. Text that is meant for the engine can hold a
//! zero byte, which the engine would take for its end. And the engine can hand
//! over something that does not fit what is asked of it: a symbol of another
//! kind, or a result pattern that has no meaning.

use vstd::prelude::*;
use vstd::utf8::*;

use crate::clingo::configuration::ConfigKey;
use crate::text::{
    append_nat, c_bytes, c_content, c_safe, c_string, decimal_nat, first_nul, text_before_nul,
};

verus! {

/// The kind of failure that the engine reports with a call that failed.
#[derive(Debug, Clone, Copy, PartialEq, Eq, Structural)]
pub enum ErrorCode {
    /// No failure at all.
    Success,
    /// A failure while the engine ran.
    Runtime,
    /// A call that the engine's interface does not allow.
    Logic,
    /// A failure to get memory.
    BadAlloc,
    /// A failure that the engine cannot name.
    Unknown,
    /// A code that the engine does not document.
    Invalid,
}

impl ErrorCode {
    /// The kind that the engine's code `code` stands for.
    pub open spec fn spec_from(code: i32) -> ErrorCode {
        if code == 0 {
            ErrorCode::Success
        } else if code == 1 {
            ErrorCode::Runtime
        } else if code == 2 {
            ErrorCode::Logic
        } else if code == 3 {
            ErrorCode::BadAlloc
        } else if code == 4 {
            ErrorCode::Unknown
        } else {
            ErrorCode::Invalid
        }
    }

    /// The name of the kind.
    pub open spec fn spec_name(&self) -> Seq<char> {
        match self {
            ErrorCode::Success => "Success"@,
            ErrorCode::Runtime => "Runtime"@,
            ErrorCode::Logic => "Logic"@,
            ErrorCode::BadAlloc => "BadAlloc"@,
            ErrorCode::Unknown => "Unknown"@,
            ErrorCode::Invalid => "Invalid"@,
        }
    }

    /// Returns the name of the kind.
    pub fn name(&self) -> (name: &'static str)
        ensures
            name@ == self.spec_name(),
    {
        match self {
            ErrorCode::Success => "Success",
            ErrorCode::Runtime => "Runtime",
            ErrorCode::Logic => "Logic",
            ErrorCode::BadAlloc => "BadAlloc",
            ErrorCode::Unknown => "Unknown",
            ErrorCode::Invalid => "Invalid",
        }
    }
}

impl From<i32> for ErrorCode {
    /// Reads the engine's code. A code that the engine does not document
    /// reads as `Invalid`.
    fn from(code: i32) -> (kind: ErrorCode) {
        match code {
            0 => ErrorCode::Success,
            1 => ErrorCode::Runtime,
            2 => ErrorCode::Logic,
            3 => ErrorCode::BadAlloc,
            4 => ErrorCode::Unknown,
            _ => ErrorCode::Invalid,
        }
    }
}

impl vstd::std_specs::convert::FromSpecImpl<i32> for ErrorCode {
    open spec fn obeys_from_spec() -> bool {
        true
    }

    open spec fn from_spec(code: i32) -> ErrorCode {
        ErrorCode::spec_from(code)
    }
}

/// What the engine says of the call that failed last: its code, and its
/// message as the bytes that the engine holds, or `None` where it holds none.
#[derive(Debug, Clone, PartialEq, Eq)]
pub struct EngineError {
    /// The engine's code for the failure.
    pub code: i32,
    /// The engine's message, up to the zero byte that ends it.
    pub message: Option<Vec<u8>>,
}

/// The message of the engine as text. Where the engine holds no message, or
/// one that is not valid UTF-8, a sentence that says so takes its place.
pub open spec fn engine_message(message: Option<Vec<u8>>) -> Seq<char> {
    match message {
        None => "clingo_error_message() returned null."@,
        Some(bytes) => if valid_utf8(c_content(bytes@)) {
            decode_utf8(c_content(bytes@))
        } else {
            "clingo_error_message() returned invalid UTF-8."@
        },
    }
}

/// A call to the engine that can fail, or a handle that the engine can fail to
/// give.
#[derive(Debug, Clone, Copy, PartialEq, Eq, Structural)]
pub enum Failure {
    /// The engine did not open a session.
    SessionCreation,
    /// The engine opened a session and gave no handle to it.
    SessionMissing,
    /// The engine did not load a program.
    Load,
    /// The engine did not ground the program.
    Grounding,
    /// The engine did not start to solve.
    SolveStart,
    /// The engine started to solve and gave no handle to the search.
    HandleMissing,
    /// The engine did not give the session's configuration.
    ConfigUnavailable,
    /// The engine gave no handle to the session's configuration.
    ConfigMissing,
    /// The engine did not give the root of the configuration.
    ConfigRoot,
    /// The engine did not find the key of an option.
    KeyLookup(ConfigKey),
    /// The engine did not set the value of an option.
    ValueSet(ConfigKey),
    /// The engine did not give the current model.
    ModelRetrieval,
    /// The engine gave no handle to a model that it announced.
    ModelMissing,
    /// The engine did not go on to the next model.
    Resume,
    /// The engine did not stop the search.
    Cancel,
    /// The engine did not give the result of the search.
    FinalResult,
    /// The engine did not give the number of a model.
    ModelNumber,
    /// The engine did not count the symbols of a model.
    SymbolCount,
    /// The engine did not list the symbols of a model.
    SymbolEnumeration,
    /// The engine did not measure the text of a symbol.
    SymbolTextSize,
    /// The engine did not write the text of a symbol.
    SymbolText,
}

impl Failure {
    /// The sentence that says what was being done when the failure came.
    pub open spec fn spec_message(&self) -> Seq<char> {
        match self {
            Failure::SessionCreation => "Failed to create clingo control"@,
            Failure::SessionMissing => "Received null pointer for clingo control"@,
            Failure::Load => "Failed to load program into control"@,
            Failure::Grounding => "Failed to ground program"@,
            Failure::SolveStart => "Failed to solve program"@,
            Failure::HandleMissing => "Received null pointer for solve handle"@,
            Failure::ConfigUnavailable => "Failed to retrieve configuration from control"@,
            Failure::ConfigMissing => "Received null pointer for configuration"@,
            Failure::ConfigRoot => "Failed to get root of configuration"@,
            Failure::KeyLookup(key) => "Failed to get key for '"@ + key.spec_as_str() + "'"@,
            Failure::ValueSet(key) => "Failed to set value for '"@ + key.spec_as_str() + "'"@,
            Failure::ModelRetrieval => "Failed to retrieve model from solve handle"@,
            Failure::ModelMissing => "Received null pointer for model"@,
            Failure::Resume => "Failed to resume solve handle"@,
            Failure::Cancel => "Failed to cancel solve handle"@,
            Failure::FinalResult => "Call to clingo_solve_handle_get() failed"@,
            Failure::ModelNumber => "Failed to retrieve number from model"@,
            Failure::SymbolCount => "Call to clingo_model_symbols_size() failed"@,
            Failure::SymbolEnumeration => "Call to clingo_model_symbols() failed"@,
            Failure::SymbolTextSize => "Failed to get symbol string size"@,
            Failure::SymbolText => "Failed to convert symbol to string"@,
        }
    }

    /// Returns the sentence that says what was being done when the failure
    /// came. For an option, the sentence holds the option's key.
    pub fn message(&self) -> (message: String)
        ensures
            message@ == self.spec_message(),
    {
        match self {
            Failure::SessionCreation => "Failed to create clingo control".to_owned(),
            Failure::SessionMissing => "Received null pointer for clingo control".to_owned(),
            Failure::Load => "Failed to load program into control".to_owned(),
            Failure::Grounding => "Failed to ground program".to_owned(),
            Failure::SolveStart => "Failed to solve program".to_owned(),
            Failure::HandleMissing => "Received null pointer for solve handle".to_owned(),
            Failure::ConfigUnavailable => "Failed to retrieve configuration from control".to_owned(),
            Failure::ConfigMissing => "Received null pointer for configuration".to_owned(),
            Failure::ConfigRoot => "Failed to get root of configuration".to_owned(),
            Failure::KeyLookup(key) => {
                let mut message = "Failed to get key for '".to_owned();
                message.append(key.as_str());
                message.append("'");
                message
            },
            Failure::ValueSet(key) => {
                let mut message = "Failed to set value for '".to_owned();
                message.append(key.as_str());
                message.append("'");
                message
            },
            Failure::ModelRetrieval => "Failed to retrieve model from solve handle".to_owned(),
            Failure::ModelMissing => "Received null pointer for model".to_owned(),
            Failure::Resume => "Failed to resume solve handle".to_owned(),
            Failure::Cancel => "Failed to cancel solve handle".to_owned(),
            Failure::FinalResult => "Call to clingo_solve_handle_get() failed".to_owned(),
            Failure::ModelNumber => "Failed to retrieve number from model".to_owned(),
            Failure::SymbolCount => "Call to clingo_model_symbols_size() failed".to_owned(),
            Failure::SymbolEnumeration => "Call to clingo_model_symbols() failed".to_owned(),
            Failure::SymbolTextSize => "Failed to get symbol string size".to_owned(),
            Failure::SymbolText => "Failed to convert symbol to string".to_owned(),
        }
    }

    /// The error that this failure makes of what the engine says of it.
    pub open spec fn spec_error(&self, reported: EngineError) -> ErrorView {
        ErrorView::Internal {
            message: self.spec_message(),
            internal_code: ErrorCode::spec_from(reported.code),
            internal_message: engine_message(reported.message),
        }
    }

    /// Makes the error of this failure from what the engine says of it.
    pub fn error(&self, reported: EngineError) -> (error: ClingoError)
        ensures
            error@ == self.spec_error(reported),
    {
        ClingoError::new_internal(self.message(), reported)
    }

    /// Reads the engine's answer to a call: what the engine gave stays as it
    /// is, and what the engine says of a failed call becomes the error of this
    /// failure.
    pub fn check<T>(&self, reply: Result<T, EngineError>) -> (checked: Result<T, ClingoError>)
        ensures
            match reply {
                Ok(given) => checked == Ok::<T, ClingoError>(given),
                Err(reported) => checked is Err && checked->Err_0@ == self.spec_error(reported),
            },
    {
        match reply {
            Ok(given) => Ok(given),
            Err(reported) => Err(self.error(reported)),
        }
    }

    /// Reads the engine's answer to a call that opens something: a call that
    /// failed becomes the error of this failure, and a call that gave no
    /// handle the error of `missing`.
    pub fn check_handle(&self, missing: Failure, reply: HandleReply) -> (checked: Result<
        (),
        ClingoError,
    >)
        ensures
            match reply {
                HandleReply::Given => checked is Ok,
                HandleReply::Missing(reported) => checked is Err && checked->Err_0@
                    == missing.spec_error(reported),
                HandleReply::Failed(reported) => checked is Err && checked->Err_0@
                    == self.spec_error(reported),
            },
    {
        match reply {
            HandleReply::Given => Ok(()),
            HandleReply::Missing(reported) => Err(missing.error(reported)),
            HandleReply::Failed(reported) => Err(self.error(reported)),
        }
    }
}

/// The engine's answer to a call that opens something and gives a handle to
/// it.
#[derive(Debug, Clone, PartialEq, Eq)]
pub enum HandleReply {
    /// The call went well and gave a handle.
    Given,
    /// The call went well and gave no handle; with it, what the engine says of
    /// its last failure.
    Missing(EngineError),
    /// The call failed; with it, what the engine says of the failure.
    Failed(EngineError),
}

/// An error of this library.
#[allow(inconsistent_fields)]
#[derive(Debug, Clone, PartialEq, Eq)]
pub enum ClingoError {
    /// Text that was meant for the engine holds a zero byte.
    NulError {
        /// The place of the first zero byte among the bytes of the text.
        position: usize,
    },
    /// The engine reported that a call failed.
    Internal {
        /// What was being done when the failure came.
        message: String,
        /// The kind of failure that the engine reports.
        internal_code: ErrorCode,
        /// The engine's own message.
        internal_message: String,
    },
    /// The engine handed over what its interface does not allow.
    Bindings {
        /// What was wrong.
        message: &'static str,
    },
    /// A symbol was asked for what only a symbol of another kind has.
    TypeError {
        /// What was asked of the symbol.
        message: &'static str,
    },
}

/// An error of this library, with its texts as sequences of characters.
pub enum ErrorView {
    /// Text that was meant for the engine holds a zero byte at `position`.
    NulError { position: usize },
    /// The engine reported that a call failed.
    Internal { message: Seq<char>, internal_code: ErrorCode, internal_message: Seq<char> },
    /// The engine handed over what its interface does not allow.
    Bindings { message: Seq<char> },
    /// A symbol was asked for what only a symbol of another kind has.
    TypeError { message: Seq<char> },
}

impl View for ClingoError {
    type V = ErrorView;

    open spec fn view(&self) -> ErrorView {
        match self {
            ClingoError::NulError { position } => ErrorView::NulError { position: *position },
            ClingoError::Internal { message, internal_code, internal_message } => {
                ErrorView::Internal {
                    message: message@,
                    internal_code: *internal_code,
                    internal_message: internal_message@,
                }
            },
            ClingoError::Bindings { message } => ErrorView::Bindings { message: message@ },
            ClingoError::TypeError { message } => ErrorView::TypeError { message: message@ },
        }
    }
}

/// The text that an error reads as.
pub open spec fn error_text(error: ErrorView) -> Seq<char> {
    match error {
        ErrorView::NulError { position } => {
            "NulError: nul byte found in provided data at position: "@ + decimal_nat(
                position as nat,
            )
        },
        ErrorView::Internal { message, internal_code, internal_message } => {
            "Internal error: "@ + message + " (code: "@ + internal_code.spec_name() + "): "@
                + internal_message
        },
        ErrorView::Bindings { message } => "Bindings error: "@ + message,
        ErrorView::TypeError { message } => "Type error: "@ + message,
    }
}

impl ClingoError {
    /// Makes the error of a call that the engine reported as failed, from the
    /// sentence `message` that says what was being done, and from what the
    /// engine says of the failure.
    pub fn new_internal(message: String, reported: EngineError) -> (error: ClingoError)
        ensures
            error@ == (ErrorView::Internal {
                message: message@,
                internal_code: ErrorCode::spec_from(reported.code),
                internal_message: engine_message(reported.message),
            }),
    {
        let internal_message = match &reported.message {
            None => "clingo_error_message() returned null.".to_owned(),
            Some(bytes) => match text_before_nul(bytes.as_slice()) {
                Some(text) => text,
                None => "clingo_error_message() returned invalid UTF-8.".to_owned(),
            },
        };
        let internal_code = ErrorCode::from(reported.code);
        ClingoError::Internal { message, internal_code, internal_message }
    }

    /// Makes of `text` the bytes to hand to the engine: the bytes of the text
    /// and a zero byte to end them. Text that holds a zero byte is refused
    /// before the engine sees it, with the place of the first such byte.
    pub fn c_text(text: &str) -> (made: Result<Vec<u8>, ClingoError>)
        ensures
            match made {
                Ok(bytes) => c_safe(text@) && bytes@ == c_bytes(text@),
                Err(e) => !c_safe(text@) && e@ == (ErrorView::NulError {
                    position: first_nul(encode_utf8(text@)) as usize,
                }),
            },
    {
        match c_string(text) {
            Ok(bytes) => Ok(bytes),
            Err(position) => Err(ClingoError::NulError { position }),
        }
    }

    /// Makes the error of a symbol that was asked for what it does not have.
    pub fn new_type_error(message: &'static str) -> (error: ClingoError)
        ensures
            error@ == (ErrorView::TypeError { message: message@ }),
    {
        ClingoError::TypeError { message }
    }

    /// Returns the text that the error reads as.
    pub fn to_string(&self) -> (text: String)
        ensures
            text@ == error_text(self@),
    {
        match self {
            ClingoError::NulError { position } => {
                let mut text = "NulError: nul byte found in provided data at position: ".to_owned();
                append_nat(&mut text, *position as u64);
                text
            },
            ClingoError::Internal { message, internal_code, internal_message } => {
                let mut text = "Internal error: ".to_owned();
                text.append(message.as_str());
                text.append(" (code: ");
                text.append(internal_code.name());
                text.append("): ");
                text.append(internal_message.as_str());
                text
            },
            ClingoError::Bindings { message } => {
                let mut text = "Bindings error: ".to_owned();
                text.append(message);
                text
            },
            ClingoError::TypeError { message } => {
                let mut text = "Type error: ".to_owned();
                text.append(message);
                text
            },
        }
    }
}

} // verus!
