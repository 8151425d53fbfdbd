//! The calls into ONNX Runtime (`ort`) that session creation makes.
//!
//! The wrappers here are trusted: Verus reads their contracts, not their
//! bodies. Whether a call succeeds depends on the ONNX Runtime library that
//! was loaded, the machine and the model file on disk, so no contract promises
//! success. What each call was handed is kept as a ghost record on the
//! builder, the session and the failure, which the verified code cannot forge.

use vstd::prelude::*;
use ort::environment::Environment;
use ort::ep::ExecutionProviderDispatch;
use ort::session::builder::{GraphOptimizationLevel, SessionBuilder};
use ort::session::Session;
use crate::error::{DlcError, SessionStage};
use crate::provider::{ExecutionTarget, StepModel};

verus! {

/// `ort::environment::Environment`: the process-wide ONNX Runtime environment.
/// Holding one means the runtime library has been loaded.
#[verifier::external_type_specification]
#[verifier::external_body]
pub struct ExEnvironment(Environment);

/// `ort::session::builder::SessionBuilder`.
#[verifier::external_type_specification]
#[verifier::external_body]
pub struct ExSessionBuilder(SessionBuilder);

/// `ort::session::Session`: a loaded model ready for inference.
#[verifier::external_type_specification]
#[verifier::external_body]
pub struct ExSession(Session);

/// Graph optimisation levels of ONNX Runtime, one for one with
/// `ort::session::builder::GraphOptimizationLevel`.
#[derive(Debug, Clone, Copy, PartialEq, Eq)]
pub enum OptimizationLevel {
    Disable,
    Level1,
    Level2,
    Level3,
    All,
}

/// A session builder together with the record of the steps it was handed.
pub struct OnnxBuilder {
    builder: SessionBuilder,
    applied: Ghost<Seq<StepModel>>,
}

impl OnnxBuilder {
    /// The steps this builder was handed since it was created, in order.
    pub closed spec fn applied_steps(&self) -> Seq<StepModel> {
        self.applied@
    }
}

/// A loaded model ready for inference, with the record of how it was built.
pub struct OnnxSession {
    session: Session,
    applied: Ghost<Seq<StepModel>>,
    path: Ghost<Seq<char>>,
}

impl OnnxSession {
    /// The steps the session's builder was handed before the model was loaded.
    pub closed spec fn applied_steps(&self) -> Seq<StepModel> {
        self.applied@
    }

    /// The path the model was loaded from.
    pub closed spec fn model_path(&self) -> Seq<char> {
        self.path@
    }

    /// The ONNX Runtime session.
    pub fn session(&self) -> &Session {
        &self.session
    }
}

/// A refused call of session building: which call it was, ONNX Runtime's
/// message, and the steps the builder had been handed before it.
pub struct OnnxFailure {
    stage: SessionStage,
    message: String,
    completed: Ghost<Option<Seq<StepModel>>>,
}

impl OnnxFailure {
    /// The call that was refused.
    pub closed spec fn failed_stage(&self) -> SessionStage {
        self.stage
    }

    /// ONNX Runtime's message.
    pub closed spec fn failure_message(&self) -> Seq<char> {
        self.message@
    }

    /// The steps the builder had been handed before the refused call; none
    /// when the builder itself could not be created.
    pub closed spec fn completed_steps(&self) -> Option<Seq<StepModel>> {
        self.completed@
    }

    /// The engine's error for this failure, leaving the failure in place.
    pub fn error(&self) -> (e: DlcError)
        ensures
            e matches DlcError::Session { stage, message }
                && stage == self.failed_stage() && message@ == self.failure_message(),
    {
        DlcError::Session { stage: self.stage, message: self.message.clone() }
    }

    /// The engine's error for this failure: the refused call's stage with
    /// ONNX Runtime's message.
    pub fn into_error(self) -> (e: DlcError)
        ensures
            e matches DlcError::Session { stage, message }
                && stage == self.failed_stage() && message@ == self.failure_message(),
    {
        DlcError::Session { stage: self.stage, message: self.message }
    }
}

/// Calls `ort::session::Session::builder`, which creates the session options
/// in the given environment. Nothing is promised of the outcome; a new builder
/// has been handed no steps, and a refusal is the builder call's with its message.
#[verifier::external_body]
pub(crate) fn session_builder(environment: &Environment) -> (r: Result<OnnxBuilder, OnnxFailure>)
    ensures
        r matches Ok(b) ==> b.applied_steps() == Seq::<StepModel>::empty(),
        r matches Err(f) ==> f.failed_stage() == SessionStage::Builder && f.completed_steps() is None,
{
    match Session::builder(environment) {
        Ok(builder) => Ok(OnnxBuilder { builder, applied: Ghost(Seq::empty()) }),
        Err(e) => Err(OnnxFailure { stage: SessionStage::Builder, message: e.to_string(), completed: Ghost(None) }),
    }
}

/// Calls `SessionBuilder::with_optimization_level` with the level of the same
/// name. Nothing is promised of the outcome; the builder's record grows by
/// this step, and a refusal is this call's, with its message.
#[verifier::external_body]
pub(crate) fn with_optimization_level(b: OnnxBuilder, level: OptimizationLevel) -> (r: Result<OnnxBuilder, OnnxFailure>)
    ensures
        r matches Ok(nb) ==> nb.applied_steps() == b.applied_steps().push(StepModel::Optimization(level)),
        r matches Err(f) ==> f.failed_stage() == SessionStage::OptimizationLevel
            && f.completed_steps() == Some(b.applied_steps()),
{
    let ort_level = match level {
        OptimizationLevel::Disable => GraphOptimizationLevel::Disable,
        OptimizationLevel::Level1 => GraphOptimizationLevel::Level1,
        OptimizationLevel::Level2 => GraphOptimizationLevel::Level2,
        OptimizationLevel::Level3 => GraphOptimizationLevel::Level3,
        OptimizationLevel::All => GraphOptimizationLevel::All,
    };
    let OnnxBuilder { builder, applied } = b;
    match builder.with_optimization_level(ort_level) {
        Ok(builder) => Ok(OnnxBuilder { builder, applied: Ghost(applied@.push(StepModel::Optimization(level))) }),
        Err(e) => Err(OnnxFailure { stage: SessionStage::OptimizationLevel, message: e.to_string(), completed: Ghost(Some(applied@)) }),
    }
}

/// Calls `SessionBuilder::with_memory_pattern`, which enables or disables the
/// memory pattern optimisation. Nothing is promised of the outcome; the
/// builder's record grows by this step, and a refusal is this call's.
#[verifier::external_body]
pub(crate) fn with_memory_pattern(b: OnnxBuilder, enable: bool) -> (r: Result<OnnxBuilder, OnnxFailure>)
    ensures
        r matches Ok(nb) ==> nb.applied_steps() == b.applied_steps().push(StepModel::MemoryPattern(enable)),
        r matches Err(f) ==> f.failed_stage() == SessionStage::MemoryPattern
            && f.completed_steps() == Some(b.applied_steps()),
{
    let OnnxBuilder { builder, applied } = b;
    match builder.with_memory_pattern(enable) {
        Ok(builder) => Ok(OnnxBuilder { builder, applied: Ghost(applied@.push(StepModel::MemoryPattern(enable))) }),
        Err(e) => Err(OnnxFailure { stage: SessionStage::MemoryPattern, message: e.to_string(), completed: Ghost(Some(applied@)) }),
    }
}

/// Calls `SessionBuilder::with_execution_providers`, which registers the
/// providers in the order given. Each target becomes its provider one for one:
/// `DirectML { device_id }` as `ep::DirectML::default().with_device_id(device_id)`,
/// `Cpu` as `ep::CPU::default()`. Nothing is promised of the outcome; the
/// builder's record grows by this step, and a refusal is this call's.
#[verifier::external_body]
pub(crate) fn with_execution_providers(b: OnnxBuilder, targets: &Vec<ExecutionTarget>) -> (r: Result<OnnxBuilder, OnnxFailure>)
    ensures
        r matches Ok(nb) ==> nb.applied_steps() == b.applied_steps().push(StepModel::Providers(targets@)),
        r matches Err(f) ==> f.failed_stage() == SessionStage::ExecutionProviders
            && f.completed_steps() == Some(b.applied_steps()),
{
    let providers: Vec<ExecutionProviderDispatch> = targets.iter().map(|t| match t {
        ExecutionTarget::DirectML { device_id } => ort::ep::DirectML::default().with_device_id(*device_id).build(),
        ExecutionTarget::Cpu => ort::ep::CPU::default().build(),
    }).collect();
    let OnnxBuilder { builder, applied } = b;
    match builder.with_execution_providers(providers) {
        Ok(builder) => Ok(OnnxBuilder { builder, applied: Ghost(applied@.push(StepModel::Providers(targets@))) }),
        Err(e) => Err(OnnxFailure { stage: SessionStage::ExecutionProviders, message: e.to_string(), completed: Ghost(Some(applied@)) }),
    }
}

/// Calls `SessionBuilder::commit_from_file`, which loads the model at `path`
/// (an error when no file is there) and creates the session. Nothing is
/// promised of the outcome; the session records the builder's steps and the
/// path, and a refusal is this call's.
#[verifier::external_body]
pub(crate) fn commit_from_file(b: OnnxBuilder, path: &str) -> (r: Result<OnnxSession, OnnxFailure>)
    ensures
        r matches Ok(s) ==> s.applied_steps() == b.applied_steps() && s.model_path() == path@,
        r matches Err(f) ==> f.failed_stage() == SessionStage::CommitFromFile
            && f.completed_steps() == Some(b.applied_steps()),
{
    let OnnxBuilder { mut builder, applied } = b;
    match builder.commit_from_file(path) {
        Ok(session) => Ok(OnnxSession { session, applied, path: Ghost(path@) }),
        Err(e) => Err(OnnxFailure { stage: SessionStage::CommitFromFile, message: e.to_string(), completed: Ghost(Some(applied@)) }),
    }
}

} // verus!
