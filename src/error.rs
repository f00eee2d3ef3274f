//! The failures a host session can report, one variant per failing stage.
use vstd::prelude::*;

verus! {

/// Why the engine could not be initialized.
#[derive(Clone, Copy, Debug, PartialEq, Eq, Structural)]
pub enum EngineInitError {
    /// An engine is already live in this process.
    AlreadyInitialized,
    /// The engine was live once and has been shut down; it cannot come back.
    AlreadyShutDown,
    /// The underlying resources could not be acquired (now or on an earlier try).
    InitFailed,
}

/// How an evaluation failed.
#[derive(Clone, Copy, Debug, PartialEq, Eq, Structural)]
pub enum ScriptError {
    /// The source text did not compile.
    Compile,
    /// The program compiled and threw while running.
    Runtime,
}

/// The stage at which a session failed.
#[derive(Clone, Copy, Debug, PartialEq, Eq, Structural)]
pub enum HostError {
    EngineInit(EngineInitError),
    ContextCreation,
    GlobalCreation,
    Script(ScriptError),
    Coercion,
}

/// The message that names the stage at which `e` happened.
pub open spec fn message_of(e: HostError) -> Seq<char> {
    match e {
        HostError::EngineInit(EngineInitError::AlreadyInitialized) => "failed to initialize JS engine: an engine is already live"@,
        HostError::EngineInit(EngineInitError::AlreadyShutDown) => "failed to initialize JS engine: the engine was shut down"@,
        HostError::EngineInit(EngineInitError::InitFailed) => "failed to initialize JS engine"@,
        HostError::ContextCreation => "failed to create JSContext"@,
        HostError::GlobalCreation => "failed to create the global object"@,
        HostError::Script(ScriptError::Compile) => "Failed to evaluate script"@,
        HostError::Script(ScriptError::Runtime) => "Failed to evaluate script"@,
        HostError::Coercion => "failed to convert the result to a string"@,
    }
}

impl HostError {
    /// A message that names the failing stage.
    pub fn message(&self) -> (r: &'static str)
        ensures
            r@ == message_of(*self),
    {
        match self {
            HostError::EngineInit(EngineInitError::AlreadyInitialized) => "failed to initialize JS engine: an engine is already live",
            HostError::EngineInit(EngineInitError::AlreadyShutDown) => "failed to initialize JS engine: the engine was shut down",
            HostError::EngineInit(EngineInitError::InitFailed) => "failed to initialize JS engine",
            HostError::ContextCreation => "failed to create JSContext",
            HostError::GlobalCreation => "failed to create the global object",
            HostError::Script(ScriptError::Compile) => "Failed to evaluate script",
            HostError::Script(ScriptError::Runtime) => "Failed to evaluate script",
            HostError::Coercion => "failed to convert the result to a string",
        }
    }
}

} // verus!
