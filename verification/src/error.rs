//! Errors reported by the engine.

use vstd::prelude::*;

verus! {

/// The step of building an ONNX Runtime session that failed.
#[derive(Debug, Clone, Copy, PartialEq, Eq)]
pub enum SessionStage {
    /// Creating the session builder.
    Builder,
    /// Setting the graph optimisation level.
    OptimizationLevel,
    /// Enabling or disabling the memory pattern.
    MemoryPattern,
    /// Registering the execution providers.
    ExecutionProviders,
    /// Loading the model file and committing the session.
    CommitFromFile,
}

/// Errors of the engine.
#[derive(Debug, Clone)]
pub enum DlcError {
    /// ONNX Runtime refused a step of session creation; `message` is its own text.
    Session { stage: SessionStage, message: String },
    /// The requested camera index is not among the enumerated cameras.
    CameraUnavailable { index: u32 },
    /// The uploaded bytes do not decode as an image.
    InvalidImage { message: String },
}

impl SessionStage {
    /// The label of the step, as it prefixes a session error's text.
    pub fn label(&self) -> (r: &'static str)
        ensures
            r@ == stage_label(*self),
    {
        match self {
            SessionStage::Builder => "Session::builder",
            SessionStage::OptimizationLevel => "with_optimization_level",
            SessionStage::MemoryPattern => "with_memory_pattern",
            SessionStage::ExecutionProviders => "with_execution_providers",
            SessionStage::CommitFromFile => "commit_from_file",
        }
    }
}

/// The label of a session-building step.
pub open spec fn stage_label(stage: SessionStage) -> Seq<char> {
    match stage {
        SessionStage::Builder => "Session::builder"@,
        SessionStage::OptimizationLevel => "with_optimization_level"@,
        SessionStage::MemoryPattern => "with_memory_pattern"@,
        SessionStage::ExecutionProviders => "with_execution_providers"@,
        SessionStage::CommitFromFile => "commit_from_file"@,
    }
}

/// The text of an error, as the server reports it.
pub open spec fn error_text(e: DlcError) -> Seq<char> {
    match e {
        DlcError::Session { stage, message } => stage_label(stage) + ": "@ + message@,
        DlcError::CameraUnavailable { index } => "Camera "@ + decimal(index as nat) + " not available"@,
        DlcError::InvalidImage { message } => "invalid image: "@ + message@,
    }
}

/// The decimal digit for a value below ten.
pub open spec fn digit_char(d: nat) -> char {
    if d == 0 { '0' } else if d == 1 { '1' } else if d == 2 { '2' } else if d == 3 { '3' }
    else if d == 4 { '4' } else if d == 5 { '5' } else if d == 6 { '6' } else if d == 7 { '7' }
    else if d == 8 { '8' } else { '9' }
}

/// The decimal representation of a natural number, without leading zeros.
pub open spec fn decimal(n: nat) -> Seq<char>
    decreases n,
{
    if n < 10 {
        seq![digit_char(n)]
    } else {
        decimal(n / 10).push(digit_char(n % 10))
    }
}

/// The one-character string of a decimal digit.
fn digit_str(d: u32) -> (r: &'static str)
    requires
        d < 10,
    ensures
        r@ == seq![digit_char(d as nat)],
{
    proof {
        reveal_strlit("0");
        reveal_strlit("1");
        reveal_strlit("2");
        reveal_strlit("3");
        reveal_strlit("4");
        reveal_strlit("5");
        reveal_strlit("6");
        reveal_strlit("7");
        reveal_strlit("8");
        reveal_strlit("9");
    }
    if d == 0 { "0" } else if d == 1 { "1" } else if d == 2 { "2" } else if d == 3 { "3" }
    else if d == 4 { "4" } else if d == 5 { "5" } else if d == 6 { "6" } else if d == 7 { "7" }
    else if d == 8 { "8" } else { "9" }
}

/// The decimal text of a number.
pub fn decimal_string(n: u32) -> (r: String)
    ensures
        r@ == decimal(n as nat),
    decreases n,
{
    if n < 10 {
        String::from_str(digit_str(n))
    } else {
        let mut s = decimal_string(n / 10);
        s.append(digit_str(n % 10));
        s
    }
}

impl DlcError {
    /// The text of the error, as the server reports it.
    pub fn text(&self) -> (r: String)
        ensures
            r@ == error_text(*self),
    {
        match self {
            DlcError::Session { stage, message } => {
                let mut s = String::from_str(stage.label());
                s.append(": ");
                s.append(message.as_str());
                s
            },
            DlcError::CameraUnavailable { index } => {
                let mut s = String::from_str("Camera ");
                let digits = decimal_string(*index);
                s.append(digits.as_str());
                s.append(" not available");
                s
            },
            DlcError::InvalidImage { message } => {
                let mut s = String::from_str("invalid image: ");
                s.append(message.as_str());
                s
            },
        }
    }
}

} // verus!
