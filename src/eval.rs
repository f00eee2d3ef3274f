//! The evaluator's inputs and the reading of its outcome.
use vstd::prelude::*;
use crate::error::ScriptError;

verus! {

/// Where a script's diagnostics are attributed: a file name and a first line.
/// Purely descriptive; it does not change how the script runs.
pub struct CompileOptions {
    pub filename: String,
    pub line: u32,
}

/// Builds the options for a script named `filename` whose text starts at
/// `starting_line`.
pub fn compile_options(filename: &str, starting_line: u32) -> (r: CompileOptions)
    ensures
        r.filename@ == filename@,
        r.line == starting_line,
{
    CompileOptions { filename: filename.to_owned(), line: starting_line }
}

/// What compiling and running one program gave: the bits of the value of its
/// last expression, or the step that failed.
#[derive(Clone, Copy, Debug, PartialEq, Eq, Structural)]
pub enum EvalOutcome {
    Value(u64),
    CompileFailed,
    RuntimeFailed,
}

/// The result an outcome stands for.
pub open spec fn outcome_result(o: EvalOutcome) -> Result<u64, ScriptError> {
    match o {
        EvalOutcome::Value(v) => Ok(v),
        EvalOutcome::CompileFailed => Err(ScriptError::Compile),
        EvalOutcome::RuntimeFailed => Err(ScriptError::Runtime),
    }
}

/// Reads an outcome as a value or a typed script error.
pub fn classify(o: EvalOutcome) -> (r: Result<u64, ScriptError>)
    ensures
        r == outcome_result(o),
{
    match o {
        EvalOutcome::Value(v) => Ok(v),
        EvalOutcome::CompileFailed => Err(ScriptError::Compile),
        EvalOutcome::RuntimeFailed => Err(ScriptError::Runtime),
    }
}

} // verus!
