use jshost::engine::EngineState;
use jshost::error::{EngineInitError, HostError, ScriptError};
use jshost::eval::EvalOutcome;
use jshost::session::{Action, Phase, Session};

const UNSET: u64 = 0xfff9_8000_0000_0000;

fn ready_session(global: u64) -> Session {
    let mut s = Session::new();
    assert_eq!(s.engine_initialized(Ok(())), Action::CreateContext);
    assert_eq!(s.engine_lifecycle(), EngineState::Ready);
    assert_eq!(s.context_created(true), Action::CreateGlobal);
    assert_eq!(s.global_created(Some(global), UNSET), Action::Evaluate);
    s
}

#[test]
fn successful_session_prints_the_coerced_result() {
    let mut s = ready_session(0x40);
    assert_eq!(s.live_roots(), 2);
    assert_eq!(s.active_realm(), Some(0x40));
    assert_eq!(s.evaluated(EvalOutcome::Value(2)), Action::Coerce(2));
    assert_eq!(s.live_roots(), 2);
    assert_eq!(s.coerced(Some("2".to_string())), Action::Print("2".to_string()));
    assert_eq!(s.phase(), Phase::RealmExited);
    assert_eq!(s.live_roots(), 0);
    assert_eq!(s.active_realm(), None);
}

#[test]
fn compile_failure_reports_without_output() {
    let mut s = ready_session(1);
    assert_eq!(
        s.evaluated(EvalOutcome::CompileFailed),
        Action::ResumeUnwindThenFail(ScriptError::Compile)
    );
    assert_eq!(s.phase(), Phase::Failed);
    assert_eq!(s.live_roots(), 0);
    assert_eq!(s.active_realm(), None);
    assert_eq!(s.engine_lifecycle(), EngineState::Ready);
}

#[test]
fn runtime_failure_reports_without_output() {
    let mut s = ready_session(1);
    assert_eq!(
        s.evaluated(EvalOutcome::RuntimeFailed),
        Action::ResumeUnwindThenFail(ScriptError::Runtime)
    );
    assert_eq!(s.phase(), Phase::Failed);
    assert_eq!(s.live_roots(), 0);
    assert_eq!(s.active_realm(), None);
}

#[test]
fn coercion_failure_reports_and_releases() {
    let mut s = ready_session(3);
    assert_eq!(s.evaluated(EvalOutcome::Value(8)), Action::Coerce(8));
    assert_eq!(s.coerced(None), Action::Fail(HostError::Coercion));
    assert_eq!(s.phase(), Phase::Failed);
    assert_eq!(s.live_roots(), 0);
}

#[test]
fn repeated_cycles_leave_no_roots() {
    let mut s = ready_session(5);
    for i in 0..10u64 {
        if i > 0 {
            assert_eq!(s.begin_evaluation(UNSET), Action::Evaluate);
        }
        assert_eq!(s.live_roots(), 2);
        assert_eq!(s.evaluated(EvalOutcome::Value(i)), Action::Coerce(i));
        assert_eq!(s.coerced(Some(i.to_string())), Action::Print(i.to_string()));
        assert_eq!(s.live_roots(), 0);
    }
    s.close();
    assert_eq!(s.phase(), Phase::Closed);
    assert_eq!(s.engine_lifecycle(), EngineState::ShutDown);
}

#[test]
fn engine_failure_stops_the_session() {
    let mut s = Session::new();
    assert_eq!(
        s.engine_initialized(Err(EngineInitError::InitFailed)),
        Action::Fail(HostError::EngineInit(EngineInitError::InitFailed))
    );
    assert_eq!(s.phase(), Phase::Failed);
    assert_eq!(s.engine_lifecycle(), EngineState::InitFailed);
}

#[test]
fn engine_already_live_stops_the_session() {
    let mut s = Session::new();
    assert_eq!(
        s.engine_initialized(Err(EngineInitError::AlreadyInitialized)),
        Action::Fail(HostError::EngineInit(EngineInitError::AlreadyInitialized))
    );
    assert_eq!(s.phase(), Phase::Failed);
    assert_eq!(s.engine_lifecycle(), EngineState::Uninitialized);
}

#[test]
fn invalid_context_stops_the_session() {
    let mut s = Session::new();
    assert_eq!(s.engine_initialized(Ok(())), Action::CreateContext);
    assert_eq!(s.context_created(false), Action::Fail(HostError::ContextCreation));
    assert_eq!(s.phase(), Phase::Failed);
    s.close();
}

#[test]
fn null_global_stops_the_session() {
    let mut s = Session::new();
    s.engine_initialized(Ok(()));
    s.context_created(true);
    assert_eq!(s.global_created(None, UNSET), Action::Fail(HostError::GlobalCreation));
    assert_eq!(s.phase(), Phase::Failed);
    assert_eq!(s.live_roots(), 0);
    s.close();
    assert_eq!(s.engine_lifecycle(), EngineState::ShutDown);
}
