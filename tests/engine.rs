use jshost::engine::{Engine, EngineState};
use jshost::error::{EngineInitError, HostError, ScriptError};
use jshost::eval::{classify, compile_options, EvalOutcome};

#[test]
fn second_initialization_fails() {
    let mut e = Engine::new();
    assert_eq!(e.initialize(true), Ok(()));
    assert_eq!(e.initialize(true), Err(EngineInitError::AlreadyInitialized));
    assert_eq!(e.current_state(), EngineState::Ready);
}

#[test]
fn initialization_after_shutdown_fails() {
    let mut e = Engine::new();
    assert_eq!(e.initialize(true), Ok(()));
    e.shutdown();
    assert_eq!(e.current_state(), EngineState::ShutDown);
    assert_eq!(e.initialize(true), Err(EngineInitError::AlreadyShutDown));
}

#[test]
fn failed_acquisition_is_remembered() {
    let mut e = Engine::new();
    assert_eq!(e.initialize(false), Err(EngineInitError::InitFailed));
    assert_eq!(e.current_state(), EngineState::InitFailed);
    assert_eq!(e.initialize(true), Err(EngineInitError::InitFailed));
}

#[test]
fn contexts_need_a_ready_engine_and_a_valid_handle() {
    let mut e = Engine::new();
    assert_eq!(e.create_context(true).err(), Some(HostError::ContextCreation));
    assert_eq!(e.initialize(true), Ok(()));
    assert_eq!(e.create_context(false).err(), Some(HostError::ContextCreation));
    let c = e.create_context(true).unwrap();
    e.release_context(c);
    e.shutdown();
    assert!(!e.is_ready());
}

#[test]
fn options_keep_name_and_line() {
    let o = compile_options("noname", 1);
    assert_eq!(o.filename, "noname");
    assert_eq!(o.line, 1);
}

#[test]
fn outcomes_are_classified() {
    assert_eq!(classify(EvalOutcome::Value(9)), Ok(9));
    assert_eq!(classify(EvalOutcome::CompileFailed), Err(ScriptError::Compile));
    assert_eq!(classify(EvalOutcome::RuntimeFailed), Err(ScriptError::Runtime));
}

#[test]
fn messages_name_the_stage() {
    assert_eq!(HostError::ContextCreation.message(), "failed to create JSContext");
    assert_eq!(
        HostError::EngineInit(EngineInitError::AlreadyInitialized).message(),
        "failed to initialize JS engine: an engine is already live"
    );
    assert_eq!(HostError::Script(ScriptError::Compile).message(), "Failed to evaluate script");
    assert_eq!(HostError::Script(ScriptError::Runtime).message(), "Failed to evaluate script");
    assert_eq!(HostError::Coercion.message(), "failed to convert the result to a string");
}
