use templess::clingo::configuration::{ConfigKey, Configuration};
use templess::clingo::control::{Control, SessionPhase, SolveEvent, BASE_PART};
use templess::clingo::error::{ClingoError, EngineError, ErrorCode, Failure, HandleReply};
use templess::clingo::model::{ListFailure, Model, SHOWN};
use templess::clingo::solve_handle::{SolveHandle, SolveHandleState, POLL_INTERVAL_MILLIS};
use templess::clingo::solve_result::{
    SolveResult, EXHAUSTED, INTERRUPTED, SATISFIABLE, UNSATISFIABLE,
};
use templess::clingo::symbol::{Symbol, SymbolType};

fn reported(code: i32, message: &str) -> EngineError {
    EngineError { code, message: Some(message.as_bytes().to_vec()) }
}

#[test]
fn error_codes_read_from_the_engine() {
    assert_eq!(ErrorCode::from(0), ErrorCode::Success);
    assert_eq!(ErrorCode::from(1), ErrorCode::Runtime);
    assert_eq!(ErrorCode::from(2), ErrorCode::Logic);
    assert_eq!(ErrorCode::from(3), ErrorCode::BadAlloc);
    assert_eq!(ErrorCode::from(4), ErrorCode::Unknown);
    assert_eq!(ErrorCode::from(5), ErrorCode::Invalid);
    assert_eq!(ErrorCode::from(-1), ErrorCode::Invalid);
    assert_eq!(ErrorCode::BadAlloc.name(), "BadAlloc");
}

#[test]
fn internal_error_carries_code_and_message() {
    let error = ClingoError::new_internal("Failed to load program into control".to_string(), reported(1, "syntax error"));
    assert_eq!(
        error,
        ClingoError::Internal {
            message: "Failed to load program into control".to_string(),
            internal_code: ErrorCode::Runtime,
            internal_message: "syntax error".to_string(),
        }
    );
    assert_eq!(
        error.to_string(),
        "Internal error: Failed to load program into control (code: Runtime): syntax error"
    );
}

#[test]
fn internal_error_without_a_readable_message() {
    let none = ClingoError::new_internal("x".to_string(), EngineError { code: 9, message: None });
    assert_eq!(
        none,
        ClingoError::Internal {
            message: "x".to_string(),
            internal_code: ErrorCode::Invalid,
            internal_message: "clingo_error_message() returned null.".to_string(),
        }
    );
    let bad = ClingoError::new_internal(
        "x".to_string(),
        EngineError { code: 2, message: Some(vec![0xc3, 0x28]) },
    );
    assert_eq!(
        bad,
        ClingoError::Internal {
            message: "x".to_string(),
            internal_code: ErrorCode::Logic,
            internal_message: "clingo_error_message() returned invalid UTF-8.".to_string(),
        }
    );
    let cut = ClingoError::new_internal(
        "x".to_string(),
        EngineError { code: 0, message: Some(b"ab\0cd".to_vec()) },
    );
    assert_eq!(
        cut,
        ClingoError::Internal {
            message: "x".to_string(),
            internal_code: ErrorCode::Success,
            internal_message: "ab".to_string(),
        }
    );
}

#[test]
fn errors_read_as_text() {
    assert_eq!(
        ClingoError::NulError { position: 12 }.to_string(),
        "NulError: nul byte found in provided data at position: 12"
    );
    assert_eq!(ClingoError::Bindings { message: "odd" }.to_string(), "Bindings error: odd");
    assert_eq!(ClingoError::new_type_error("no").to_string(), "Type error: no");
    assert_eq!(ClingoError::new_type_error("no"), ClingoError::TypeError { message: "no" });
}

#[test]
fn c_text_refuses_a_zero_byte() {
    assert_eq!(ClingoError::c_text("solve.models"), Ok(b"solve.models\0".to_vec()));
    assert_eq!(ClingoError::c_text("ab\0"), Err(ClingoError::NulError { position: 2 }));
}

#[test]
fn failures_say_what_was_being_done() {
    assert_eq!(Failure::SessionCreation.message(), "Failed to create clingo control");
    assert_eq!(Failure::Load.message(), "Failed to load program into control");
    assert_eq!(Failure::Grounding.message(), "Failed to ground program");
    assert_eq!(Failure::SolveStart.message(), "Failed to solve program");
    assert_eq!(
        Failure::KeyLookup(ConfigKey::SolveModels).message(),
        "Failed to get key for 'solve.models'"
    );
    assert_eq!(
        Failure::ValueSet(ConfigKey::SolveModels).message(),
        "Failed to set value for 'solve.models'"
    );
    assert_eq!(Failure::FinalResult.message(), "Call to clingo_solve_handle_get() failed");
    let checked: Result<u32, ClingoError> = Failure::Grounding.check(Err(reported(1, "boom")));
    assert_eq!(
        checked,
        Err(ClingoError::Internal {
            message: "Failed to ground program".to_string(),
            internal_code: ErrorCode::Runtime,
            internal_message: "boom".to_string(),
        })
    );
    assert_eq!(Failure::Grounding.check(Ok(7u32)), Ok(7));
    assert_eq!(
        Failure::SessionCreation.check_handle(Failure::SessionMissing, HandleReply::Given),
        Ok(())
    );
    assert_eq!(
        Failure::SessionCreation
            .check_handle(Failure::SessionMissing, HandleReply::Missing(reported(0, "")))
            .map_err(|e| e.to_string()),
        Err("Internal error: Received null pointer for clingo control (code: Success): ".to_string())
    );
}

#[test]
fn solve_result_reads_the_four_bits() {
    assert_eq!((SATISFIABLE, UNSATISFIABLE, EXHAUSTED, INTERRUPTED), (1, 2, 4, 8));
    for bits in 0u32..16 {
        let result = SolveResult::from_bits(bits).expect("four bits have a meaning");
        assert_eq!(result.bits(), bits);
        assert_eq!(result.is_satisfiable(), bits & 1 != 0);
        assert_eq!(result.is_unsatisfiable(), bits & 2 != 0);
        assert_eq!(result.is_exhausted(), bits & 4 != 0);
        assert_eq!(result.is_interrupted(), bits & 8 != 0);
    }
    assert_eq!(SolveResult::from_bits(16), None);
    assert_eq!(SolveResult::from_bits(17), None);
    assert_eq!(SolveResult::from_bits(u32::MAX), None);
    let both = SolveResult::from_bits(5).unwrap();
    assert!(both.is_satisfiable() && both.is_exhausted());
    assert!(both.contains(&SolveResult::from_bits(4).unwrap()));
    assert!(both.contains(&SolveResult::empty()));
    assert!(!both.contains(&SolveResult::from_bits(8).unwrap()));
    assert_eq!(
        SolveResult::from_bits(1).unwrap().union(&SolveResult::from_bits(8).unwrap()).bits(),
        9
    );
    assert_eq!(SolveResult::empty().bits(), 0);
}

#[test]
fn symbol_kinds_read_from_the_engine() {
    assert_eq!(SymbolType::from_code(0), SymbolType::Infimum);
    assert_eq!(SymbolType::from_code(1), SymbolType::Number);
    assert_eq!(SymbolType::from_code(4), SymbolType::String);
    assert_eq!(SymbolType::from_code(5), SymbolType::Function);
    assert_eq!(SymbolType::from_code(7), SymbolType::Supremum);
    assert_eq!(SymbolType::from_code(2), SymbolType::Unknown);
    assert_eq!(SymbolType::from_code(-3), SymbolType::Unknown);
    assert_eq!(SymbolType::Function.code(), Some(5));
    assert_eq!(SymbolType::Unknown.code(), None);
    assert_eq!(Symbol::new(42, 0, String::new(), vec![]).kind(), SymbolType::Unknown);
    assert_eq!(Symbol::new(7, 0, String::new(), vec![]).kind(), SymbolType::Supremum);
}

#[test]
fn number_symbol_is_no_function() {
    let number = Symbol::from_number(-7);
    assert_eq!(number.kind(), SymbolType::Number);
    assert_eq!(number.number(), Ok(-7));
    assert_eq!(
        number.name(),
        Err(ClingoError::TypeError { message: "Symbol is not a function" })
    );
    assert_eq!(
        number.arguments().map(|a| a.len()),
        Err(ClingoError::TypeError { message: "Symbol is not a function" })
    );
    assert_eq!(number.string(), Err(ClingoError::TypeError { message: "Symbol is not a string" }));
}

#[test]
fn function_symbol_with_no_arguments_has_an_empty_list() {
    let constant = Symbol::function("a".to_string(), vec![]);
    assert_eq!(constant.kind(), SymbolType::Function);
    assert_eq!(constant.name(), Ok("a"));
    assert_eq!(constant.arguments().map(|a| a.len()), Ok(0));
    assert_eq!(
        constant.number(),
        Err(ClingoError::TypeError { message: "Symbol is not a number" })
    );
    let tuple = Symbol::function(String::new(), vec![Symbol::from_number(1)]);
    assert_eq!(tuple.name(), Ok(""));
    assert_eq!(tuple.arguments().map(|a| a.len()), Ok(1));
    let text = Symbol::from_string("hi".to_string());
    assert_eq!(text.kind(), SymbolType::String);
    assert_eq!(text.string(), Ok("hi"));
    assert_eq!(text.name().is_err(), true);
}

#[test]
fn symbol_text_is_read_from_the_buffer() {
    assert_eq!(Symbol::text_size(Ok(0)), Ok(None));
    assert_eq!(Symbol::text_size(Ok(17)), Ok(Some(17)));
    assert_eq!(
        Symbol::text_size(Err(reported(1, "e"))).map_err(|e| e.to_string()),
        Err("Internal error: Failed to get symbol string size (code: Runtime): e".to_string())
    );
    assert_eq!(Symbol::to_string(Ok(b"slot_chosen(21,5)\0".to_vec())), Ok("slot_chosen(21,5)".to_string()));
    assert_eq!(
        Symbol::to_string(Ok(vec![0xff, 0])),
        Err(ClingoError::Bindings { message: "Failed to convert CStr to str" })
    );
    assert_eq!(
        Symbol::to_string(Err(reported(3, "m"))).map_err(|e| e.to_string()),
        Err("Internal error: Failed to convert symbol to string (code: BadAlloc): m".to_string())
    );
}

#[test]
fn model_keeps_number_and_symbols() {
    let model = Model::new(3, vec![Symbol::from_number(1), Symbol::from_number(2)]);
    assert_eq!(model.number(), 3);
    assert_eq!(model.symbols().len(), 2);
    assert_eq!(model.symbols()[1].number(), Ok(2));
    assert_eq!(model.into_symbols().len(), 2);
    assert_eq!(SHOWN, 2);
    assert_eq!(Model::read_number(Ok(4)), Ok(4));
    assert_eq!(
        Model::read_number(Err(reported(1, "n"))).map_err(|e| e.to_string()),
        Err("Internal error: Failed to retrieve number from model (code: Runtime): n".to_string())
    );
    assert_eq!(Model::symbols_size(Ok(0)), Ok(None));
    assert_eq!(Model::symbols_size(Ok(3)), Ok(Some(3)));
    assert_eq!(
        Model::symbols_size(Err(reported(1, "n"))).map_err(|e| e.to_string()),
        Err("Internal error: Call to clingo_model_symbols_size() failed (code: Runtime): n".to_string())
    );
    assert_eq!(Model::read_symbols(Ok(vec![])), Ok(vec![]));
    assert_eq!(
        Model::read_symbols(Err(ListFailure::Engine(reported(1, "n")))).map_err(|e| e.to_string()),
        Err("Internal error: Call to clingo_model_symbols() failed (code: Runtime): n".to_string())
    );
    assert_eq!(
        Model::read_symbols(Err(ListFailure::NotText)),
        Err(ClingoError::Bindings { message: "Failed to convert CStr to str" })
    );
    assert_eq!(Symbol::read_text(b"slot_chosen\0junk"), Ok("slot_chosen".to_string()));
    assert_eq!(Symbol::read_text(b""), Ok(String::new()));
    assert_eq!(
        Symbol::read_text(&[0xc3, 0x28]),
        Err(ClingoError::Bindings { message: "Failed to convert CStr to str" })
    );
}

#[test]
fn solve_handle_goes_from_active_to_one_end() {
    assert_eq!(POLL_INTERVAL_MILLIS, 100);
    let mut handle = SolveHandle::new();
    assert_eq!(handle.state(), SolveHandleState::Active);
    assert_eq!(handle.model(Ok(true)), Ok(true));
    assert_eq!(handle.state(), SolveHandleState::Active);
    assert_eq!(handle.resume(Ok(())), Ok(()));
    assert_eq!(handle.state(), SolveHandleState::Active);
    assert_eq!(handle.model(Ok(false)), Ok(false));
    assert_eq!(handle.state(), SolveHandleState::Exhausted);
    assert_eq!(handle.cancel(Ok(())), Ok(()));
    assert_eq!(handle.state(), SolveHandleState::Exhausted);
    assert!(handle.model(Err(reported(1, "late"))).is_err());
    assert_eq!(handle.state(), SolveHandleState::Exhausted);
    assert_eq!(handle.close(), SolveHandleState::Exhausted);

    let mut stopped = SolveHandle::new();
    assert_eq!(stopped.cancel(Ok(())), Ok(()));
    assert_eq!(stopped.state(), SolveHandleState::Cancelled);
    assert_eq!(stopped.cancel(Ok(())), Ok(()));
    assert_eq!(stopped.state(), SolveHandleState::Cancelled);

    let mut failed = SolveHandle::new();
    assert_eq!(
        failed.model(Err(reported(1, "gone"))).map_err(|e| e.to_string()),
        Err("Internal error: Failed to retrieve model from solve handle (code: Runtime): gone".to_string())
    );
    assert_eq!(failed.state(), SolveHandleState::Errored);
}

#[test]
fn solve_handle_reads_the_final_result() {
    let mut handle = SolveHandle::new();
    let result = handle.get(Ok(5)).unwrap();
    assert!(result.is_satisfiable() && result.is_exhausted() && !result.is_interrupted());
    assert_eq!(handle.state(), SolveHandleState::Exhausted);

    let mut paused = SolveHandle::new();
    assert_eq!(paused.get(Ok(1)).map(|r| r.bits()), Ok(1));
    assert_eq!(paused.state(), SolveHandleState::Active);

    let mut stopped = SolveHandle::new();
    assert_eq!(stopped.get(Ok(9)).map(|r| r.is_interrupted()), Ok(true));
    assert_eq!(stopped.state(), SolveHandleState::Cancelled);

    let mut odd = SolveHandle::new();
    assert_eq!(
        odd.get(Ok(32)),
        Err(ClingoError::Bindings {
            message: "Unknown or invalid bitflag combination in clingo_solve_result."
        })
    );
    assert_eq!(odd.state(), SolveHandleState::Errored);

    let mut failed = SolveHandle::new();
    assert_eq!(
        failed.get(Err(reported(1, "g"))).map_err(|e| e.to_string()),
        Err("Internal error: Call to clingo_solve_handle_get() failed (code: Runtime): g".to_string())
    );
    assert_eq!(failed.state(), SolveHandleState::Errored);
}

#[test]
fn control_goes_through_its_steps() {
    assert_eq!(BASE_PART, "base");
    assert_eq!(Control::solve_mode(), 3);
    let mut control = Control::new(HandleReply::Given).unwrap();
    assert_eq!(control.phase(), SessionPhase::Fresh);
    assert_eq!(Control::program_path("instance.lp"), Ok(b"instance.lp\0".to_vec()));
    assert_eq!(Control::program_path("in\0"), Err(ClingoError::NulError { position: 2 }));
    assert_eq!(
        control.load(Err(reported(1, "<block>:1:1-2: error: syntax error"))).map_err(|e| e.to_string()),
        Err("Internal error: Failed to load program into control (code: Runtime): <block>:1:1-2: error: syntax error".to_string())
    );
    assert_eq!(control.phase(), SessionPhase::Fresh);
    assert_eq!(control.load(Ok(())), Ok(()));
    assert_eq!(control.phase(), SessionPhase::Loaded);
    assert_eq!(control.load(Ok(())), Ok(()));
    assert_eq!(
        control.ground(Err(reported(1, "g"))).map_err(|e| e.to_string()),
        Err("Internal error: Failed to ground program (code: Runtime): g".to_string())
    );
    assert_eq!(control.phase(), SessionPhase::Loaded);
    assert_eq!(control.ground(Ok(())), Ok(()));
    assert_eq!(control.phase(), SessionPhase::Grounded);
    let configuration = control.configuration_mut(HandleReply::Given, Ok(11)).unwrap();
    assert_eq!(configuration.root(), 11);
    assert_eq!(control.phase(), SessionPhase::Grounded);
    let handle = control.solve(HandleReply::Given).unwrap();
    assert_eq!(handle.state(), SolveHandleState::Active);
    assert_eq!(control.phase(), SessionPhase::Solving);
    assert_eq!(control.close(), SessionPhase::Solving);
}

#[test]
fn control_reports_what_the_engine_refused() {
    assert_eq!(
        Control::new(HandleReply::Failed(reported(3, "no memory"))).map_err(|e| e.to_string()).err(),
        Some("Internal error: Failed to create clingo control (code: BadAlloc): no memory".to_string())
    );
    assert_eq!(
        Control::new(HandleReply::Missing(reported(0, ""))).map_err(|e| e.to_string()).err(),
        Some("Internal error: Received null pointer for clingo control (code: Success): ".to_string())
    );
    let mut control = Control::new(HandleReply::Given).unwrap();
    control.load(Ok(())).unwrap();
    control.ground(Ok(())).unwrap();
    assert_eq!(
        control.solve(HandleReply::Failed(reported(2, "s"))).map_err(|e| e.to_string()).err(),
        Some("Internal error: Failed to solve program (code: Logic): s".to_string())
    );
    assert_eq!(control.phase(), SessionPhase::Grounded);
    assert_eq!(
        control.solve(HandleReply::Missing(reported(0, "s"))).map_err(|e| e.to_string()).err(),
        Some("Internal error: Received null pointer for solve handle (code: Success): s".to_string())
    );
    assert_eq!(
        control
            .configuration_mut(HandleReply::Failed(reported(1, "c")), Ok(0))
            .map_err(|e| e.to_string())
            .err(),
        Some("Internal error: Failed to retrieve configuration from control (code: Runtime): c".to_string())
    );
    assert_eq!(
        control
            .configuration_mut(HandleReply::Missing(reported(1, "c")), Ok(0))
            .map_err(|e| e.to_string())
            .err(),
        Some("Internal error: Received null pointer for configuration (code: Runtime): c".to_string())
    );
    assert_eq!(
        control
            .configuration_mut(HandleReply::Given, Err(reported(1, "c")))
            .map_err(|e| e.to_string())
            .err(),
        Some("Internal error: Failed to get root of configuration (code: Runtime): c".to_string())
    );
}

#[test]
fn configuration_sets_an_option_in_two_steps() {
    assert_eq!(ConfigKey::SolveModels.as_str(), "solve.models");
    let mut configuration = Configuration::new(Ok(4)).unwrap();
    assert_eq!(configuration.root(), 4);
    assert_eq!(configuration.key_of(ConfigKey::SolveModels, Ok(9)), Ok(9));
    assert_eq!(
        configuration
            .key_of(ConfigKey::SolveModels, Err(reported(1, "k")))
            .map_err(|e| e.to_string()),
        Err("Internal error: Failed to get key for 'solve.models' (code: Runtime): k".to_string())
    );
    assert_eq!(Configuration::value_text("0"), Ok(vec![b'0', 0]));
    assert_eq!(Configuration::value_text("1\0"), Err(ClingoError::NulError { position: 1 }));
    assert_eq!(configuration.set_key_to_value(ConfigKey::SolveModels, Ok(())), Ok(()));
    assert_eq!(
        configuration
            .set_key_to_value(ConfigKey::SolveModels, Err(reported(1, "v")))
            .map_err(|e| e.to_string()),
        Err("Internal error: Failed to set value for 'solve.models' (code: Runtime): v".to_string())
    );
    assert_eq!(configuration.root(), 4);
}

#[test]
fn solve_events_read_from_their_codes() {
    let model = Model::new(1, vec![]);
    assert_eq!(SolveEvent::from_code(0, Some(model)), Some(SolveEvent::Model(Model::new(1, vec![]))));
    assert_eq!(SolveEvent::from_code(0, None), None);
    assert_eq!(SolveEvent::from_code(1, None), Some(SolveEvent::Unsat));
    assert_eq!(SolveEvent::from_code(2, None), Some(SolveEvent::Statistics));
    assert_eq!(SolveEvent::from_code(3, None), Some(SolveEvent::Finish));
    assert_eq!(SolveEvent::from_code(4, None), None);
}

#[test]
fn every_failure_has_its_sentence() {
    let key = ConfigKey::SolveModels;
    let sentences = vec![
        (Failure::SessionCreation, "Failed to create clingo control"),
        (Failure::SessionMissing, "Received null pointer for clingo control"),
        (Failure::Load, "Failed to load program into control"),
        (Failure::Grounding, "Failed to ground program"),
        (Failure::SolveStart, "Failed to solve program"),
        (Failure::HandleMissing, "Received null pointer for solve handle"),
        (Failure::ConfigUnavailable, "Failed to retrieve configuration from control"),
        (Failure::ConfigMissing, "Received null pointer for configuration"),
        (Failure::ConfigRoot, "Failed to get root of configuration"),
        (Failure::KeyLookup(key), "Failed to get key for 'solve.models'"),
        (Failure::ValueSet(key), "Failed to set value for 'solve.models'"),
        (Failure::ModelRetrieval, "Failed to retrieve model from solve handle"),
        (Failure::ModelMissing, "Received null pointer for model"),
        (Failure::Resume, "Failed to resume solve handle"),
        (Failure::Cancel, "Failed to cancel solve handle"),
        (Failure::FinalResult, "Call to clingo_solve_handle_get() failed"),
        (Failure::ModelNumber, "Failed to retrieve number from model"),
        (Failure::SymbolCount, "Call to clingo_model_symbols_size() failed"),
        (Failure::SymbolEnumeration, "Call to clingo_model_symbols() failed"),
        (Failure::SymbolTextSize, "Failed to get symbol string size"),
        (Failure::SymbolText, "Failed to convert symbol to string"),
    ];
    for (failure, sentence) in sentences {
        assert_eq!(failure.message(), sentence);
        assert_eq!(
            failure.error(EngineError { code: 4, message: None }),
            ClingoError::Internal {
                message: sentence.to_string(),
                internal_code: ErrorCode::Unknown,
                internal_message: "clingo_error_message() returned null.".to_string(),
            }
        );
    }
}
