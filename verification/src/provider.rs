//! Execution provider selection and ONNX session creation.

use vstd::prelude::*;
use ort::environment::Environment;
use crate::error::SessionStage;
use crate::paths::{extension_of, file_stem_of, path_extension, path_file_stem, path_with_file_name, with_file_name_of};
use crate::onnx::{
    OnnxFailure, OnnxSession, OptimizationLevel, commit_from_file, session_builder,
    with_execution_providers, with_memory_pattern, with_optimization_level,
};

verus! {

/// GPU execution provider configuration.
#[derive(Debug, Clone)]
pub enum GpuProvider {
    /// Try DirectML first, fall back to CPU.
    Auto,
    /// Force DirectML with a specific device ID: no CPU fallback.
    DirectML { device_id: i32 },
    /// CPU only.
    Cpu,
    /// AMD XDNA2 NPU via VitisAI EP (requires Ryzen AI SDK + INT8 quantized models).
    /// Not supported in this build: sessions fall back to the CPU.
    Npu { config_file: String },
}

impl Default for GpuProvider {
    fn default() -> (r: GpuProvider)
        ensures
            r is Auto,
    {
        GpuProvider::Auto
    }
}

/// One execution provider to register with a session, in priority order.
#[derive(Debug, Clone, Copy, PartialEq, Eq)]
pub enum ExecutionTarget {
    /// DirectML on the given adapter.
    DirectML { device_id: i32 },
    /// The default CPU provider.
    Cpu,
}

/// What a session is built with for a provider configuration.
#[derive(Debug, Clone)]
pub struct SessionPlan {
    /// The graph optimisation level (level 3 on every path: it enables the FP16
    /// layout rewrites on hardware that supports them).
    pub optimization: OptimizationLevel,
    /// Whether the memory pattern optimisation is switched off (DirectML needs this).
    pub disable_memory_pattern: bool,
    /// The execution providers, in the order ONNX Runtime tries them.
    pub targets: Vec<ExecutionTarget>,
    /// Whether the configuration asked for a provider that is not supported
    /// here and the session falls back to the CPU.
    pub falls_back_to_cpu: bool,
}

/// The DirectML adapter of a configuration: its own for `DirectML`, 0 otherwise.
pub open spec fn spec_device_id(p: GpuProvider) -> i32 {
    match p {
        GpuProvider::DirectML { device_id } => device_id,
        _ => 0,
    }
}

/// Whether a configuration goes through DirectML.
pub open spec fn uses_directml(p: GpuProvider) -> bool {
    p is Auto || p is DirectML
}

/// The execution providers of a configuration, in priority order: DirectML
/// then the CPU for `Auto`, DirectML alone for `DirectML`, the CPU alone otherwise.
pub open spec fn spec_targets(p: GpuProvider) -> Seq<ExecutionTarget> {
    match p {
        GpuProvider::Auto => seq![ExecutionTarget::DirectML { device_id: 0 }, ExecutionTarget::Cpu],
        GpuProvider::DirectML { device_id } => seq![ExecutionTarget::DirectML { device_id }],
        _ => seq![ExecutionTarget::Cpu],
    }
}

/// The session plan of a configuration, field by field.
pub open spec fn plan_matches(plan: SessionPlan, p: GpuProvider) -> bool {
    &&& plan.optimization == OptimizationLevel::Level3
    &&& plan.disable_memory_pattern == uses_directml(p)
    &&& plan.targets@ == spec_targets(p)
    &&& plan.falls_back_to_cpu == (p is Npu)
}

/// `Auto` tries DirectML and falls back to the CPU; `DirectML` is forced, with
/// no CPU fallback; `Cpu` and `Npu` run on the CPU alone. DirectML, when
/// present, comes first and is the only GPU provider.
pub proof fn lemma_provider_lists(p: GpuProvider)
    ensures
        spec_targets(p).len() >= 1,
        spec_targets(p)[0] is DirectML <==> uses_directml(p),
        spec_targets(p).contains(ExecutionTarget::Cpu) <==> !(p is DirectML),
        p matches GpuProvider::DirectML { device_id } ==> spec_targets(p) == seq![ExecutionTarget::DirectML { device_id }],
        p is Auto ==> spec_targets(p).last() == ExecutionTarget::Cpu,
        forall|i: int| 0 <= i < spec_targets(p).len() && (#[trigger] spec_targets(p)[i] is DirectML)
            ==> i == 0 && uses_directml(p),
{
    if p is Auto {
        assert(spec_targets(p)[1] == ExecutionTarget::Cpu);
    } else if !(p is DirectML) {
        assert(spec_targets(p)[0] == ExecutionTarget::Cpu);
    }
}

/// A step of session building after the builder is created, as a model.
pub enum StepModel {
    Optimization(OptimizationLevel),
    MemoryPattern(bool),
    Providers(Seq<ExecutionTarget>),
}

/// A step of session building after the builder is created.
#[derive(Debug, Clone, PartialEq, Eq)]
pub enum SessionStep {
    /// Set the graph optimisation level.
    Optimization(OptimizationLevel),
    /// Enable (`true`) or disable (`false`) the memory pattern.
    MemoryPattern(bool),
    /// Register these execution providers, in this order.
    Providers(Vec<ExecutionTarget>),
}

/// The model of a step.
pub open spec fn step_view(s: SessionStep) -> StepModel {
    match s {
        SessionStep::Optimization(l) => StepModel::Optimization(l),
        SessionStep::MemoryPattern(b) => StepModel::MemoryPattern(b),
        SessionStep::Providers(t) => StepModel::Providers(t@),
    }
}

/// The models of a list of steps.
pub open spec fn steps_view(s: Seq<SessionStep>) -> Seq<StepModel> {
    s.map_values(|x: SessionStep| step_view(x))
}

/// The steps that carry out a plan, in order: the optimisation level, the
/// memory pattern switched off when the plan says so, then the providers.
pub open spec fn spec_plan_steps(
    optimization: OptimizationLevel,
    disable_memory_pattern: bool,
    targets: Seq<ExecutionTarget>,
) -> Seq<StepModel> {
    seq![StepModel::Optimization(optimization)]
        + (if disable_memory_pattern { seq![StepModel::MemoryPattern(false)] } else { Seq::empty() })
        + seq![StepModel::Providers(targets)]
}

/// The steps of session building for a configuration: level 3; the memory
/// pattern off for `Auto` and `DirectML`; then its providers.
pub open spec fn spec_steps(p: GpuProvider) -> Seq<StepModel> {
    spec_plan_steps(OptimizationLevel::Level3, uses_directml(p), spec_targets(p))
}

/// Every configuration builds by its own session plan: the steps are the
/// plan's optimisation level, the memory pattern off exactly when the plan says
/// so, then the plan's providers.
pub proof fn lemma_steps_follow_plan(p: GpuProvider, plan: SessionPlan)
    requires
        plan_matches(plan, p),
    ensures
        spec_steps(p) == spec_plan_steps(plan.optimization, plan.disable_memory_pattern, plan.targets@),
{
}

/// An NPU request builds exactly as a CPU one (the NPU is not supported here):
/// level 3, no memory-pattern step, and the CPU as the only provider.
pub proof fn lemma_npu_builds_as_cpu(config_file: String)
    ensures
        spec_steps(GpuProvider::Npu { config_file }) == spec_steps(GpuProvider::Cpu),
        spec_steps(GpuProvider::Npu { config_file }) == seq![
            StepModel::Optimization(OptimizationLevel::Level3),
            StepModel::Providers(seq![ExecutionTarget::Cpu]),
        ],
{
    assert(spec_steps(GpuProvider::Npu { config_file }) =~= seq![
        StepModel::Optimization(OptimizationLevel::Level3),
        StepModel::Providers(seq![ExecutionTarget::Cpu]),
    ]);
    assert(spec_steps(GpuProvider::Cpu) =~= seq![
        StepModel::Optimization(OptimizationLevel::Level3),
        StepModel::Providers(seq![ExecutionTarget::Cpu]),
    ]);
}

/// For every configuration the build starts at level 3 and ends by registering
/// that configuration's own providers; a memory-pattern step occurs exactly for
/// the configurations that use DirectML, and then it switches the pattern off.
pub proof fn lemma_steps_shape(p: GpuProvider)
    ensures
        spec_steps(p)[0] == StepModel::Optimization(OptimizationLevel::Level3),
        spec_steps(p).last() == StepModel::Providers(spec_targets(p)),
        (exists|i: int| 0 <= i < spec_steps(p).len() && #[trigger] spec_steps(p)[i] is MemoryPattern) <==> uses_directml(p),
        forall|i: int| 0 <= i < spec_steps(p).len() && (#[trigger] spec_steps(p)[i] is MemoryPattern)
            ==> spec_steps(p)[i] == StepModel::MemoryPattern(false),
{
    let st = spec_steps(p);
    if uses_directml(p) {
        assert(st =~= seq![
            StepModel::Optimization(OptimizationLevel::Level3),
            StepModel::MemoryPattern(false),
            StepModel::Providers(spec_targets(p)),
        ]);
        assert(st[1] is MemoryPattern);
    } else {
        assert(st =~= seq![
            StepModel::Optimization(OptimizationLevel::Level3),
            StepModel::Providers(spec_targets(p)),
        ]);
    }
}

/// The session-building stage of a step.
pub open spec fn step_stage(s: StepModel) -> SessionStage {
    match s {
        StepModel::Optimization(_) => SessionStage::OptimizationLevel,
        StepModel::MemoryPattern(_) => SessionStage::MemoryPattern,
        StepModel::Providers(_) => SessionStage::ExecutionProviders,
    }
}

impl SessionPlan {
    /// The steps that carry out this plan, in order.
    pub fn steps(&self) -> (r: Vec<SessionStep>)
        ensures
            steps_view(r@) == spec_plan_steps(self.optimization, self.disable_memory_pattern, self.targets@),
    {
        let mut r: Vec<SessionStep> = Vec::new();
        r.push(SessionStep::Optimization(self.optimization));
        if self.disable_memory_pattern {
            r.push(SessionStep::MemoryPattern(false));
        }
        r.push(SessionStep::Providers(self.targets.clone()));
        assert(steps_view(r@) =~= spec_plan_steps(self.optimization, self.disable_memory_pattern, self.targets@));
        r
    }
}

impl GpuProvider {
    /// The DirectML adapter to use: the configured one, or 0.
    pub fn device_id(&self) -> (r: i32)
        ensures
            r == spec_device_id(*self),
    {
        match self {
            GpuProvider::DirectML { device_id } => *device_id,
            _ => 0,
        }
    }

    /// How a session is built for this configuration.
    ///
    /// `Auto` registers DirectML and then the CPU, `DirectML` registers DirectML
    /// alone, both with the memory pattern disabled; `Cpu` and `Npu` register
    /// the CPU alone.
    pub fn session_plan(&self) -> (plan: SessionPlan)
        ensures
            plan_matches(plan, *self),
    {
        let device_id = self.device_id();
        let mut targets: Vec<ExecutionTarget> = Vec::new();
        let directml = match self {
            GpuProvider::Auto | GpuProvider::DirectML { .. } => true,
            _ => false,
        };
        if directml {
            targets.push(ExecutionTarget::DirectML { device_id });
        }
        let forced = match self {
            GpuProvider::DirectML { .. } => true,
            _ => false,
        };
        if !forced {
            targets.push(ExecutionTarget::Cpu);
        }
        assert(targets@ =~= spec_targets(*self));
        let falls_back_to_cpu = match self {
            GpuProvider::Npu { .. } => true,
            _ => false,
        };
        SessionPlan {
            optimization: OptimizationLevel::Level3,
            disable_memory_pattern: directml,
            targets,
            falls_back_to_cpu,
        }
    }

    /// Load an ONNX model with the appropriate execution providers.
    ///
    /// Level3 graph optimisation is applied on all paths: it enables FP16
    /// layout rewrites on hardware that supports it (DirectML, CUDA, VitisAI).
    /// A failure of any step is reported with the step and ONNX Runtime's message.
    ///
    /// The session is built by `build_session` from `session_steps()`: the
    /// builder, then those steps in order, then the model file at `model_path`.
    pub fn load_session(&self, environment: &Environment, model_path: &str) -> (r: Result<
        OnnxSession,
        OnnxFailure,
    >)
        ensures
            r matches Ok(s) ==> s.applied_steps() == spec_steps(*self) && s.model_path() == model_path@,
            r matches Err(f) ==> failure_fits(f.failed_stage(), f.completed_steps(), spec_steps(*self)),
    {
        let steps = self.session_steps();
        build_session(environment, &steps, model_path)
    }

    /// The steps that build a session for this configuration, after the
    /// builder is created: level 3 optimisation, the memory pattern off for
    /// `Auto` and `DirectML`, then the execution providers of `session_plan`.
    pub fn session_steps(&self) -> (r: Vec<SessionStep>)
        ensures
            steps_view(r@) == spec_steps(*self),
    {
        let plan = self.session_plan();
        plan.steps()
    }
}

/// The file stem of a path, or the empty text when it has none.
pub open spec fn stem_or_empty(path: Seq<char>) -> Seq<char> {
    match file_stem_of(path) {
        Some(s) => s,
        None => Seq::empty(),
    }
}

/// The extension of a path, or the empty text when it has none.
pub open spec fn extension_or_empty(path: Seq<char>) -> Seq<char> {
    match extension_of(path) {
        Some(e) => e,
        None => Seq::empty(),
    }
}

/// The file name of the FP16 variant: `{stem}_fp16.{ext}`.
pub open spec fn fp16_file_name(stem: Seq<char>, ext: Seq<char>) -> Seq<char> {
    stem + "_fp16."@ + ext
}

/// The FP16 variant of a model path: the same directory, with the file name
/// `{stem}_fp16.{ext}`.
pub open spec fn spec_fp16_variant(path: Seq<char>) -> Seq<char> {
    with_file_name_of(path, fp16_file_name(stem_or_empty(path), extension_or_empty(path)))
}

/// The model path that is loaded: the FP16 variant when it is present, else the base path.
pub open spec fn spec_resolved_model_path(base: Seq<char>, fp16_present: bool) -> Seq<char> {
    if fp16_present {
        spec_fp16_variant(base)
    } else {
        base
    }
}

/// The model path that is loaded, for every base path: with the FP16 file
/// present it is the base path with its file name replaced by
/// `{stem}_fp16.{ext}` (the same as `fp16_variant_path`), whatever the
/// directory; without it, the base path itself.
pub proof fn lemma_resolved_model_path(base: Seq<char>)
    ensures
        spec_resolved_model_path(base, true)
            == with_file_name_of(base, stem_or_empty(base) + "_fp16."@ + extension_or_empty(base)),
        spec_resolved_model_path(base, true) == spec_fp16_variant(base),
        spec_resolved_model_path(base, false) == base,
{
}

impl GpuProvider {
    /// The path of the FP16 variant of a model, placed alongside the base model
    /// with `_fp16` appended to the stem:
    ///   `inswapper_128.onnx`  →  `inswapper_128_fp16.onnx`
    ///
    /// A path without a stem or an extension contributes an empty one.
    pub fn fp16_variant_path(base_path: &str) -> (r: String)
        ensures
            r@ == spec_fp16_variant(base_path@),
    {
        let stem = match path_file_stem(base_path) {
            Some(s) => s,
            None => String::new(),
        };
        let ext = match path_extension(base_path) {
            Some(e) => e,
            None => String::new(),
        };
        let mut name = stem;
        name.append("_fp16.");
        name.append(ext.as_str());
        path_with_file_name(base_path, name.as_str())
    }

    /// Prefer the FP16 variant of a model (e.g. `inswapper_128_fp16.onnx`),
    /// falling back to the FP32 path when the FP16 file is not present.
    ///
    /// `fp16_present` tells whether a file exists at `fp16_variant_path(base_path)`.
    pub fn resolve_model_path(base_path: &str, fp16_present: bool) -> (r: String)
        ensures
            r@ == spec_resolved_model_path(base_path@, fp16_present),
    {
        if fp16_present {
            Self::fp16_variant_path(base_path)
        } else {
            String::from_str(base_path)
        }
    }
}

/// Whether a failure is the one a build with these steps ends with: the
/// builder call when no builder was made; otherwise, after the steps done (a
/// prefix of `steps`), the next step's call, or the commit when all were done.
pub open spec fn failure_fits(stage: SessionStage, completed: Option<Seq<StepModel>>, steps: Seq<StepModel>) -> bool {
    match completed {
        None => stage == SessionStage::Builder,
        Some(done) => {
            &&& done.len() <= steps.len()
            &&& done == steps.take(done.len() as int)
            &&& if done.len() < steps.len() {
                stage == step_stage(steps[done.len() as int])
            } else {
                stage == SessionStage::CommitFromFile
            }
        },
    }
}

/// Build a session: create the builder in `environment`, hand it `steps` in
/// order (each step's own values), then load the model at `model_path`.
/// The first refused call ends the build; the failure is that call's.
pub fn build_session(environment: &Environment, steps: &Vec<SessionStep>, model_path: &str) -> (r: Result<
    OnnxSession,
    OnnxFailure,
>)
    ensures
        r matches Ok(s) ==> s.applied_steps() == steps_view(steps@) && s.model_path() == model_path@,
        r matches Err(f) ==> failure_fits(f.failed_stage(), f.completed_steps(), steps_view(steps@)),
{
    let ghost view = steps_view(steps@);
    let mut builder = match session_builder(environment) {
        Ok(b) => b,
        Err(f) => { return Err(f); },
    };
    let mut i: usize = 0;
    while i < steps.len()
        invariant
            i <= steps.len(),
            view == steps_view(steps@),
            builder.applied_steps() == view.take(i as int),
        decreases steps.len() - i,
    {
        let step = &steps[i];
        assert(view[i as int] == step_view(*step));
        assert(view.take(i as int).push(view[i as int]) =~= view.take(i + 1));
        builder = match step {
            SessionStep::Optimization(level) => match with_optimization_level(builder, *level) {
                Ok(b) => b,
                Err(f) => { return Err(f); },
            },
            SessionStep::MemoryPattern(enable) => match with_memory_pattern(builder, *enable) {
                Ok(b) => b,
                Err(f) => { return Err(f); },
            },
            SessionStep::Providers(targets) => match with_execution_providers(builder, targets) {
                Ok(b) => b,
                Err(f) => { return Err(f); },
            },
        };
        i = i + 1;
    }
    assert(view.take(view.len() as int) =~= view);
    commit_from_file(builder, model_path)
}

/// Create a session with ONNX Runtime's defaults: a builder, no steps, and the
/// model file at `model_path`.
pub fn load_default_session(environment: &Environment, model_path: &str) -> (r: Result<
    OnnxSession,
    OnnxFailure,
>)
    ensures
        r matches Ok(s) ==> s.applied_steps() == Seq::<StepModel>::empty() && s.model_path() == model_path@,
        r matches Err(f) ==> failure_fits(f.failed_stage(), f.completed_steps(), Seq::<StepModel>::empty()),
{
    let builder = match session_builder(environment) {
        Ok(b) => b,
        Err(f) => { return Err(f); },
    };
    assert(Seq::<StepModel>::empty().take(0) =~= Seq::<StepModel>::empty());
    commit_from_file(builder, model_path)
}

} // verus!
