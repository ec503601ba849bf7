//! The data that the library reads and writes: configuration, generation
//! requests and jobs, assets, probes and design requests.
//!
//! Floating-point values of the application, the LoRA strength and the
//! text-model temperature, are held as the IEEE-754 bit patterns of their
//! `f32` values.  Timestamps are seconds and
//! nanoseconds since the Unix epoch.

use vstd::prelude::*;

verus! {

/// Which image engine runs generation jobs.
#[derive(Clone, Copy, Debug, PartialEq, Eq, Structural)]
pub enum EngineMode {
    Mock,
    StableDiffusionCpp,
    StableDiffusionCppServer,
}

/// Which compute backend the image engine is asked to use.
#[derive(Clone, Copy, Debug, PartialEq, Eq, Structural)]
pub enum BackendPreference {
    Auto,
    Vulkan,
    Metal,
    Cpu,
}

/// Which provider drafts creative plans.
#[derive(Clone, Copy, Debug, PartialEq, Eq, Structural)]
pub enum TextProviderMode {
    Mock,
    Disabled,
    OpenAiCompatible,
}

/// A LoRA that generation requests may select.
#[derive(Clone, Debug)]
pub struct LoraProfile {
    pub id: String,
    pub label: String,
    pub path: String,
    pub trigger: String,
    pub compatible_families: Vec<String>,
}

/// The files and options of one image model.
#[derive(Clone, Debug)]
pub struct ModelProfile {
    pub id: String,
    pub label: String,
    pub family: String,
    pub enabled: bool,
    pub model_path: String,
    pub diffusion_model_path: String,
    pub vae_path: String,
    pub clip_l_path: String,
    pub t5xxl_path: String,
    pub llm_path: String,
    pub lora_directory: String,
    pub extra_args: Vec<String>,
    pub default_steps: u32,
}

/// Image-engine settings.
#[derive(Clone, Debug)]
pub struct EngineConfig {
    pub mode: EngineMode,
    pub binary_path: String,
    pub server_binary_path: String,
    pub server_url: String,
    pub backend: BackendPreference,
    pub active_model_id: String,
    pub models: Vec<ModelProfile>,
    pub loras: Vec<LoraProfile>,
}

/// Text-model settings.  `temperature_bits` is the bit pattern of the
/// `f32` sampling temperature.
#[derive(Clone, Debug)]
pub struct TextModelConfig {
    pub mode: TextProviderMode,
    pub base_url: String,
    pub model: String,
    pub api_key: String,
    pub temperature_bits: u32,
    pub max_tokens: u32,
}

/// Settings of the loopback automation API.
#[derive(Clone, Debug)]
pub struct AutomationConfig {
    pub enabled: bool,
    pub port: u16,
    pub token: String,
}

/// The whole persistent configuration.
#[derive(Clone, Debug)]
pub struct AppConfig {
    pub engine: EngineConfig,
    pub text_model: TextModelConfig,
    pub automation: AutomationConfig,
}

/// A LoRA chosen for one request; `strength_bits` is the bit pattern of
/// the `f32` strength.
#[derive(Clone, Debug)]
pub struct LoraSelection {
    pub id: String,
    pub strength_bits: u32,
}

/// A request to generate one image.
#[derive(Clone, Debug)]
pub struct GenerationRequest {
    pub prompt: String,
    pub negative_prompt: String,
    pub model_id: String,
    pub width: u32,
    pub height: u32,
    pub steps: u32,
    pub seed: Option<u64>,
    pub loras: Vec<LoraSelection>,
}

/// Where a job stands.
#[derive(Clone, Copy, Debug, PartialEq, Eq, Structural)]
pub enum JobStatus {
    Queued,
    Running,
    Completed,
    Failed,
    Cancelled,
}

/// What kind of file an asset is.
#[derive(Clone, Copy, Debug, PartialEq, Eq, Structural)]
pub enum AssetKind {
    Image,
    Video,
    Design,
}

/// A file produced by the application.
#[derive(Clone, Debug)]
pub struct GeneratedAsset {
    pub id: String,
    pub path: String,
    pub mime_type: String,
    pub width: u32,
    pub height: u32,
    pub kind: AssetKind,
}

/// A point in time: whole seconds since the Unix epoch and the nanoseconds
/// past that second.
#[derive(Clone, Copy, Debug, PartialEq, Eq, Structural)]
pub struct Timestamp {
    pub seconds: i64,
    pub nanos: u32,
}

/// A generation job and its history.
#[derive(Clone, Debug)]
pub struct GenerationJob {
    pub id: String,
    pub request: GenerationRequest,
    pub status: JobStatus,
    pub progress: u8,
    pub phase: String,
    pub elapsed_seconds: Option<u64>,
    pub eta_seconds: Option<u64>,
    pub created_at: Timestamp,
    pub updated_at: Timestamp,
    pub output: Option<GeneratedAsset>,
    pub error_message: Option<String>,
    pub logs: Vec<String>,
}

/// What probing the image engine found.
#[derive(Clone, Debug)]
pub struct EngineProbe {
    pub ready: bool,
    pub mode: EngineMode,
    pub binary_path: String,
    pub summary: String,
    pub output: String,
}

/// The state of the managed image server process.
#[derive(Clone, Debug)]
pub struct ManagedImageServerStatus {
    pub running: bool,
    pub pid: Option<u32>,
    pub address: String,
    pub phase: String,
    pub logs: Vec<String>,
}

/// What probing the text model found.
#[derive(Clone, Debug)]
pub struct TextModelProbe {
    pub ready: bool,
    pub base_url: String,
    pub summary: String,
    pub output: String,
}

/// A brief for the creative planner.
#[derive(Clone, Debug)]
pub struct CreativeBriefRequest {
    pub brief: String,
    pub template: String,
    pub width: u32,
    pub height: u32,
}

/// Marketing copy and an image prompt drafted from a brief.
#[derive(Clone, Debug)]
pub struct CreativePlan {
    pub template: String,
    pub eyebrow: String,
    pub title: String,
    pub subtitle: String,
    pub cta: String,
    pub image_prompt: String,
    pub negative_prompt: String,
}

/// A request to compose an SVG design.
#[derive(Clone, Debug)]
pub struct DesignRequest {
    pub template: String,
    pub title: String,
    pub subtitle: String,
    pub cta: String,
    pub eyebrow: String,
    pub background_image_path: String,
    pub output_name: String,
    pub width: u32,
    pub height: u32,
}

/// The state of the automation API.
#[derive(Clone, Debug)]
pub struct AutomationStatus {
    pub running: bool,
    pub address: String,
    pub token: String,
}

/// What the application can do with its current configuration.
#[derive(Clone, Debug)]
pub struct CapabilitySummary {
    pub image_generation: bool,
    pub video_generation: bool,
    pub loras: bool,
    pub svg_composition: bool,
    pub text_design_generation: bool,
    pub automation_api: bool,
    pub engine_mode: EngineMode,
}

/// The files and directories of the application's data directory.
#[derive(Clone, Debug)]
pub struct AppPaths {
    pub root: String,
    pub config_file: String,
    pub jobs_file: String,
    pub outputs: String,
    pub designs: String,
}

// ---------------------------------------------------------------------
// Abstract views

/// The abstract value of a [`LoraSelection`].
pub struct LoraSelectionView {
    pub id: Seq<char>,
    pub strength_bits: u32,
}

/// The abstract value of a [`GenerationRequest`].
pub struct GenerationRequestView {
    pub prompt: Seq<char>,
    pub negative_prompt: Seq<char>,
    pub model_id: Seq<char>,
    pub width: u32,
    pub height: u32,
    pub steps: u32,
    pub seed: Option<u64>,
    pub loras: Seq<LoraSelectionView>,
}

/// The abstract value of a [`GeneratedAsset`].
pub struct GeneratedAssetView {
    pub id: Seq<char>,
    pub path: Seq<char>,
    pub mime_type: Seq<char>,
    pub width: u32,
    pub height: u32,
    pub kind: AssetKind,
}

/// The abstract value of a [`GenerationJob`].
pub struct GenerationJobView {
    pub id: Seq<char>,
    pub request: GenerationRequestView,
    pub status: JobStatus,
    pub progress: u8,
    pub phase: Seq<char>,
    pub elapsed_seconds: Option<u64>,
    pub eta_seconds: Option<u64>,
    pub created_at: Timestamp,
    pub updated_at: Timestamp,
    pub output: Option<GeneratedAssetView>,
    pub error_message: Option<Seq<char>>,
    pub logs: Seq<Seq<char>>,
}

/// The views of a sequence of strings.
pub open spec fn strings_view(v: Seq<String>) -> Seq<Seq<char>> {
    v.map_values(|s: String| s@)
}

impl View for LoraSelection {
    type V = LoraSelectionView;

    open spec fn view(&self) -> LoraSelectionView {
        LoraSelectionView { id: self.id@, strength_bits: self.strength_bits }
    }
}

impl View for GenerationRequest {
    type V = GenerationRequestView;

    open spec fn view(&self) -> GenerationRequestView {
        GenerationRequestView {
            prompt: self.prompt@,
            negative_prompt: self.negative_prompt@,
            model_id: self.model_id@,
            width: self.width,
            height: self.height,
            steps: self.steps,
            seed: self.seed,
            loras: self.loras@.map_values(|l: LoraSelection| l@),
        }
    }
}

impl View for GeneratedAsset {
    type V = GeneratedAssetView;

    open spec fn view(&self) -> GeneratedAssetView {
        GeneratedAssetView {
            id: self.id@,
            path: self.path@,
            mime_type: self.mime_type@,
            width: self.width,
            height: self.height,
            kind: self.kind,
        }
    }
}

/// The view of an optional asset.
pub open spec fn asset_option_view(a: Option<GeneratedAsset>) -> Option<GeneratedAssetView> {
    match a {
        Some(x) => Some(x@),
        None => None,
    }
}

/// The view of an optional string.
pub open spec fn string_option_view(s: Option<String>) -> Option<Seq<char>> {
    match s {
        Some(x) => Some(x@),
        None => None,
    }
}

impl View for GenerationJob {
    type V = GenerationJobView;

    open spec fn view(&self) -> GenerationJobView {
        GenerationJobView {
            id: self.id@,
            request: self.request@,
            status: self.status,
            progress: self.progress,
            phase: self.phase@,
            elapsed_seconds: self.elapsed_seconds,
            eta_seconds: self.eta_seconds,
            created_at: self.created_at,
            updated_at: self.updated_at,
            output: asset_option_view(self.output),
            error_message: string_option_view(self.error_message),
            logs: strings_view(self.logs@),
        }
    }
}

/// A copy of a list of strings.
pub fn copy_strings(v: &Vec<String>) -> (c: Vec<String>)
    ensures
        c@ == v@,
{
    let mut c: Vec<String> = Vec::new();
    for i in 0..v.len()
        invariant
            c@ == v@.take(i as int),
    {
        c.push(v[i].clone());
        assert(v@.take(i + 1) == v@.take(i as int).push(v@[i as int]));
    }
    assert(v@.take(v.len() as int) == v@);
    c
}

impl LoraSelection {
    /// A copy of this selection.
    pub fn copy(&self) -> (c: Self)
        ensures
            c@ == self@,
    {
        LoraSelection { id: self.id.clone(), strength_bits: self.strength_bits }
    }
}

impl GenerationRequest {
    /// A copy of this request.
    pub fn copy(&self) -> (c: Self)
        ensures
            c@ == self@,
    {
        let mut loras: Vec<LoraSelection> = Vec::new();
        for i in 0..self.loras.len()
            invariant
                loras.len() == i,
                forall|k: int| 0 <= k < i ==> (#[trigger] loras@[k])@ == self.loras@[k]@,
        {
            loras.push(self.loras[i].copy());
        }
        assert(loras@.map_values(|l: LoraSelection| l@) =~= self.loras@.map_values(
            |l: LoraSelection| l@,
        ));
        GenerationRequest {
            prompt: self.prompt.clone(),
            negative_prompt: self.negative_prompt.clone(),
            model_id: self.model_id.clone(),
            width: self.width,
            height: self.height,
            steps: self.steps,
            seed: self.seed,
            loras,
        }
    }
}

impl GeneratedAsset {
    /// A copy of this asset record.
    pub fn copy(&self) -> (c: Self)
        ensures
            c@ == self@,
    {
        GeneratedAsset {
            id: self.id.clone(),
            path: self.path.clone(),
            mime_type: self.mime_type.clone(),
            width: self.width,
            height: self.height,
            kind: self.kind,
        }
    }
}

impl GenerationJob {
    /// A copy of this job.
    pub fn copy(&self) -> (c: Self)
        ensures
            c@ == self@,
    {
        let output = match &self.output {
            Some(a) => Some(a.copy()),
            None => None,
        };
        let error_message = match &self.error_message {
            Some(e) => Some(e.clone()),
            None => None,
        };
        let logs = copy_strings(&self.logs);
        GenerationJob {
            id: self.id.clone(),
            request: self.request.copy(),
            status: self.status,
            progress: self.progress,
            phase: self.phase.clone(),
            elapsed_seconds: self.elapsed_seconds,
            eta_seconds: self.eta_seconds,
            created_at: self.created_at,
            updated_at: self.updated_at,
            output,
            error_message,
            logs,
        }
    }
}

/// The views of the fields of two model profiles agree.
pub open spec fn same_model_profile(a: ModelProfile, b: ModelProfile) -> bool {
    &&& a.id@ == b.id@
    &&& a.label@ == b.label@
    &&& a.family@ == b.family@
    &&& a.enabled == b.enabled
    &&& a.model_path@ == b.model_path@
    &&& a.diffusion_model_path@ == b.diffusion_model_path@
    &&& a.vae_path@ == b.vae_path@
    &&& a.clip_l_path@ == b.clip_l_path@
    &&& a.t5xxl_path@ == b.t5xxl_path@
    &&& a.llm_path@ == b.llm_path@
    &&& a.lora_directory@ == b.lora_directory@
    &&& strings_view(a.extra_args@) == strings_view(b.extra_args@)
    &&& a.default_steps == b.default_steps
}

impl ModelProfile {
    /// A copy of this profile.
    pub fn copy(&self) -> (c: Self)
        ensures
            same_model_profile(c, *self),
    {
        let extra_args = copy_strings(&self.extra_args);
        ModelProfile {
            id: self.id.clone(),
            label: self.label.clone(),
            family: self.family.clone(),
            enabled: self.enabled,
            model_path: self.model_path.clone(),
            diffusion_model_path: self.diffusion_model_path.clone(),
            vae_path: self.vae_path.clone(),
            clip_l_path: self.clip_l_path.clone(),
            t5xxl_path: self.t5xxl_path.clone(),
            llm_path: self.llm_path.clone(),
            lora_directory: self.lora_directory.clone(),
            extra_args,
            default_steps: self.default_steps,
        }
    }
}

} // verus!
