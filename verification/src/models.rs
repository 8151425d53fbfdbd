//! The ONNX models of the pipeline and the components that load them.

use vstd::prelude::*;
use ort::environment::Environment;
use crate::error::{DlcError, SessionStage};
use crate::paths::{joined_path, path_join};
use crate::onnx::{OnnxFailure, OnnxSession};
use crate::provider::{GpuProvider, StepModel, failure_fits, load_default_session, spec_steps};

verus! {

/// The models the pipeline needs, relative to the models directory.
pub open spec fn spec_required_models() -> Seq<Seq<char>> {
    seq![
        "inswapper_128.onnx"@,
        "buffalo_l/buffalo_l/det_10g.onnx"@,
        "gfpgan-1024.onnx"@,
    ]
}

/// The face detection model, relative to the models directory.
pub open spec fn spec_detector_model() -> Seq<char> {
    "buffalo_l/buffalo_l/det_10g.onnx"@
}

/// The models the pipeline needs, relative to the models directory.
/// A missing one is downloaded on first use.
pub fn required_models() -> (r: Vec<String>)
    ensures
        r@.map_values(|s: String| s@) == spec_required_models(),
{
    let mut r: Vec<String> = Vec::new();
    r.push(String::from_str("inswapper_128.onnx"));
    r.push(String::from_str("buffalo_l/buffalo_l/det_10g.onnx"));
    r.push(String::from_str("gfpgan-1024.onnx"));
    assert(r@.map_values(|s: String| s@) =~= spec_required_models());
    r
}

/// The face detection model, relative to the models directory.
pub fn detector_model() -> (r: String)
    ensures
        r@ == spec_detector_model(),
{
    String::from_str("buffalo_l/buffalo_l/det_10g.onnx")
}

/// The path of a model inside the models directory.
pub fn model_file_path(models_dir: &str, model: &str) -> (r: String)
    ensures
        r@ == joined_path(models_dir@, model@),
{
    path_join(models_dir, model)
}

/// What checking one required model found.
pub enum ModelCheck {
    /// No file is there (it is downloaded on first use).
    Absent,
    /// ONNX Runtime loaded the file into this session.
    Loaded(OnnxSession),
    /// ONNX Runtime refused to load the file.
    Failed(OnnxFailure),
}

/// The index of the first failed check at or after `i`, if any.
pub open spec fn first_failure_from(checks: Seq<ModelCheck>, i: int) -> Option<int>
    decreases checks.len() - i,
{
    if i < 0 || i >= checks.len() {
        None
    } else if checks[i] is Failed {
        Some(i)
    } else {
        first_failure_from(checks, i + 1)
    }
}

/// The index of the first failed check, if any.
pub open spec fn first_failure(checks: Seq<ModelCheck>) -> Option<int> {
    first_failure_from(checks, 0)
}

/// The outcome a list of checks gives: the error of the first model that
/// failed to load, in the order checked, or success when none failed.
pub open spec fn outcome_fits(outcome: Result<(), DlcError>, checks: Seq<ModelCheck>) -> bool {
    match first_failure(checks) {
        None => outcome is Ok,
        Some(k) => outcome matches Err(DlcError::Session { stage, message })
            && stage == checks[k]->Failed_0.failed_stage()
            && message@ == checks[k]->Failed_0.failure_message(),
    }
}

/// The first failure from `i` on is a failed check, with none before it from
/// `i`; there is none exactly when no check from `i` on failed.
pub proof fn lemma_first_failure(checks: Seq<ModelCheck>, i: int)
    requires
        0 <= i <= checks.len(),
    ensures
        first_failure_from(checks, i) is None <==> (forall|j: int| i <= j < checks.len() ==> !(#[trigger] checks[j] is Failed)),
        first_failure_from(checks, i) matches Some(k) ==> i <= k < checks.len() && checks[k] is Failed
            && forall|j: int| i <= j < k ==> !(#[trigger] checks[j] is Failed),
    decreases checks.len() - i,
{
    if i < checks.len() {
        lemma_first_failure(checks, i + 1);
    }
}

/// A validation's outcome is success exactly when no model failed to load,
/// whatever the other checks found; otherwise it is the error of the first
/// model that failed, and every model checked before that one loaded or was absent.
pub proof fn lemma_outcome_ok_iff_no_failure(outcome: Result<(), DlcError>, checks: Seq<ModelCheck>)
    requires
        outcome_fits(outcome, checks),
    ensures
        outcome is Ok <==> (forall|i: int| 0 <= i < checks.len() ==> !(#[trigger] checks[i] is Failed)),
        outcome matches Err(e) ==> exists|k: int| 0 <= k < checks.len() && #[trigger] checks[k] is Failed
            && (forall|j: int| 0 <= j < k ==> !(#[trigger] checks[j] is Failed))
            && (e matches DlcError::Session { stage, message }
                && stage == checks[k]->Failed_0.failed_stage()
                && message@ == checks[k]->Failed_0.failure_message()),
{
    lemma_first_failure(checks, 0);
}

/// The result of checking the required models: what each check found, and
/// the outcome they give.
pub struct ModelValidation {
    pub checks: Vec<ModelCheck>,
    pub outcome: Result<(), DlcError>,
}

impl ModelValidation {
    /// Gather checks into a validation: its outcome is the error of the first
    /// model that failed to load, or success.
    pub fn from_checks(checks: Vec<ModelCheck>) -> (r: ModelValidation)
        ensures
            r.checks@ == checks@,
            outcome_fits(r.outcome, checks@),
    {
        let mut i: usize = 0;
        while i < checks.len()
            invariant
                i <= checks.len(),
                first_failure(checks@) == first_failure_from(checks@, i as int),
            decreases checks.len() - i,
        {
            let failure = match &checks[i] {
                ModelCheck::Failed(f) => Some(f.error()),
                _ => None,
            };
            match failure {
                Some(e) => {
                    return ModelValidation { checks, outcome: Err(e) };
                },
                None => {},
            }
            i = i + 1;
        }
        ModelValidation { checks, outcome: Ok(()) }
    }
}

/// Whether the presence flags say that the `i`-th required model is present
/// (a flag that is not given counts as absent).
pub open spec fn flagged_present(present: Seq<bool>, i: int) -> bool {
    i < present.len() && present[i]
}

/// What checking the `i`-th required model must have done: nothing when it is
/// absent; otherwise load it from `models_dir` into a CPU session, which either
/// holds that model or failed at a call the CPU build goes through.
pub open spec fn check_fits(check: ModelCheck, models_dir: Seq<char>, present: Seq<bool>, i: int) -> bool {
    if !flagged_present(present, i) {
        check is Absent
    } else {
        match check {
            ModelCheck::Absent => false,
            ModelCheck::Loaded(s) => s.model_path() == joined_path(models_dir, spec_required_models()[i])
                && s.applied_steps() == spec_steps(GpuProvider::Cpu),
            ModelCheck::Failed(f) => failure_fits(f.failed_stage(), f.completed_steps(), spec_steps(GpuProvider::Cpu)),
        }
    }
}

/// Check every required model with ONNX Runtime. The required models lie at
/// `model_file_path(models_dir, m)` for each `m` of `required_models()`, and
/// `present[i]` tells whether the `i`-th of them exists.
///
/// An absent model passes (it is downloaded on first use). Each present one is
/// loaded into a CPU session, and the first that fails to load, in the order
/// of `required_models()`, gives the outcome's error. The execution providers
/// named in `providers` are not consulted: the check always uses the CPU.
pub fn validate_models(
    environment: &Environment,
    models_dir: &str,
    providers: &Vec<String>,
    present: &Vec<bool>,
) -> (r: ModelValidation)
    ensures
        r.checks@.len() == spec_required_models().len(),
        forall|i: int| 0 <= i < r.checks@.len() ==> check_fits(#[trigger] r.checks@[i], models_dir@, present@, i),
        outcome_fits(r.outcome, r.checks@),
{
    let models = required_models();
    let provider = GpuProvider::Cpu;
    let mut checks: Vec<ModelCheck> = Vec::new();
    let mut i: usize = 0;
    while i < models.len()
        invariant
            i <= models.len(),
            models@.map_values(|s: String| s@) == spec_required_models(),
            checks@.len() == i,
            forall|j: int| 0 <= j < i ==> check_fits(#[trigger] checks@[j], models_dir@, present@, j),
            provider is Cpu,
        decreases models.len() - i,
    {
        let here = i < present.len() && present[i];
        let check = if here {
            let path = model_file_path(models_dir, models[i].as_str());
            assert(models@.map_values(|s: String| s@)[i as int] == models@[i as int]@);
            match provider.load_session(environment, path.as_str()) {
                Ok(session) => ModelCheck::Loaded(session),
                Err(f) => ModelCheck::Failed(f),
            }
        } else {
            ModelCheck::Absent
        };
        checks.push(check);
        i = i + 1;
    }
    ModelValidation::from_checks(checks)
}

/// Face detector using the SCRFD model from buffalo_l.
pub struct FaceDetector {
    session: OnnxSession,
}

/// What a component loaded with ONNX Runtime's defaults from `model_path`
/// holds, or how loading it failed: at the builder call or at the commit.
pub open spec fn default_load_fits(session: Option<OnnxSession>, error: Option<DlcError>, model_path: Seq<char>) -> bool {
    &&& session matches Some(s) ==> s.model_path() == model_path && s.applied_steps() == Seq::<StepModel>::empty()
    &&& error matches Some(e) ==> (e matches DlcError::Session { stage, .. }
        && (stage == SessionStage::Builder || stage == SessionStage::CommitFromFile))
}

impl FaceDetector {
    /// The model the detector runs.
    pub closed spec fn model_session(&self) -> OnnxSession {
        self.session
    }

    /// Load the SCRFD model at `model_path`.
    pub fn new(environment: &Environment, model_path: &str) -> (r: Result<FaceDetector, DlcError>)
        ensures
            r matches Ok(d) ==> default_load_fits(Some(d.model_session()), None, model_path@),
            r matches Err(e) ==> default_load_fits(None, Some(e), model_path@),
    {
        match load_default_session(environment, model_path) {
            Ok(session) => Ok(FaceDetector { session }),
            Err(f) => Err(f.into_error()),
        }
    }
}

/// Face enhancer using GFPGAN or GPEN models.
pub struct FaceEnhancer {
    session: OnnxSession,
}

impl FaceEnhancer {
    /// The model the enhancer runs.
    pub closed spec fn model_session(&self) -> OnnxSession {
        self.session
    }

    /// Load the enhancer model at `model_path`.
    pub fn new(environment: &Environment, model_path: &str) -> (r: Result<FaceEnhancer, DlcError>)
        ensures
            r matches Ok(d) ==> default_load_fits(Some(d.model_session()), None, model_path@),
            r matches Err(e) ==> default_load_fits(None, Some(e), model_path@),
    {
        match load_default_session(environment, model_path) {
            Ok(session) => Ok(FaceEnhancer { session }),
            Err(f) => Err(f.into_error()),
        }
    }
}

/// Face swapper using the inswapper_128 model.
pub struct FaceSwapper {
    session: OnnxSession,
}

impl FaceSwapper {
    /// The model the swapper runs.
    pub closed spec fn model_session(&self) -> OnnxSession {
        self.session
    }

    /// Load the inswapper model at `model_path`.
    pub fn new(environment: &Environment, model_path: &str) -> (r: Result<FaceSwapper, DlcError>)
        ensures
            r matches Ok(d) ==> default_load_fits(Some(d.model_session()), None, model_path@),
            r matches Err(e) ==> default_load_fits(None, Some(e), model_path@),
    {
        match load_default_session(environment, model_path) {
            Ok(session) => Ok(FaceSwapper { session }),
            Err(f) => Err(f.into_error()),
        }
    }
}

/// Configuration for the processing pipeline.
#[derive(Debug, Clone, Copy, PartialEq, Eq)]
pub struct PipelineConfig {
    pub face_swap_enabled: bool,
    pub face_enhancer_gfpgan: bool,
    pub face_enhancer_gpen256: bool,
    pub face_enhancer_gpen512: bool,
    pub jpeg_quality: u8,
}

impl Default for PipelineConfig {
    /// Face swapping on, every enhancer off, JPEG quality 80.
    fn default() -> (r: PipelineConfig)
        ensures
            r.face_swap_enabled,
            !r.face_enhancer_gfpgan,
            !r.face_enhancer_gpen256,
            !r.face_enhancer_gpen512,
            r.jpeg_quality == 80,
    {
        PipelineConfig {
            face_swap_enabled: true,
            face_enhancer_gfpgan: false,
            face_enhancer_gpen256: false,
            face_enhancer_gpen512: false,
            jpeg_quality: 80,
        }
    }
}

} // verus!
