//! The `sd-cli` process adapter: probe results, backend arguments, and the
//! plan and outcome of one generation.

use vstd::prelude::*;
use crate::engine_args::{
    build_model_args, model_args_spec, model_paths_error, prompt_with_loras, selections_view,
    shell_preview, shell_preview_spec, tagged_prompt_from, validate_model_paths,
};
use crate::ids;
use crate::models::{
    AssetKind, BackendPreference, EngineConfig, EngineMode, EngineProbe, GeneratedAsset,
    GenerationRequest, ModelProfile, strings_view,
};
use crate::paths::{join_path, join_path_spec};
use crate::text::{
    append, decimal, decimal_string, is_blank, is_blank_spec, owned, take_chars, trim, trim_spec,
    truncate,
};

verus! {

/// The backend arguments given to `sd-cli` for a backend preference.
pub open spec fn cli_backend_args(p: BackendPreference) -> Seq<Seq<char>> {
    match p {
        BackendPreference::Auto => seq![],
        BackendPreference::Vulkan => seq![
            "--backend"@,
            "diffusion=vulkan0,te=cpu,vae=cpu"@,
            "--params-backend"@,
            "diffusion=vulkan0,te=cpu,vae=cpu"@,
        ],
        BackendPreference::Metal => seq![
            "--backend"@,
            "diffusion=MTL0,te=cpu,vae=cpu"@,
            "--params-backend"@,
            "diffusion=MTL0,te=cpu,vae=cpu"@,
        ],
        BackendPreference::Cpu => seq![
            "--backend"@,
            "all=CPU"@,
            "--params-backend"@,
            "all=CPU"@,
            "--offload-to-cpu"@,
        ],
    }
}

/// The backend arguments for `sd-cli`: diffusion on the chosen GPU with
/// the text encoder and VAE on the CPU, everything on the CPU, or nothing
/// for automatic selection.
pub fn build_backend_args(preference: &BackendPreference) -> (args: Vec<String>)
    ensures
        strings_view(args@) == cli_backend_args(*preference),
{
    let mut args: Vec<String> = Vec::new();
    match preference {
        BackendPreference::Auto => {},
        BackendPreference::Vulkan => {
            args.push(owned("--backend"));
            args.push(owned("diffusion=vulkan0,te=cpu,vae=cpu"));
            args.push(owned("--params-backend"));
            args.push(owned("diffusion=vulkan0,te=cpu,vae=cpu"));
        },
        BackendPreference::Metal => {
            args.push(owned("--backend"));
            args.push(owned("diffusion=MTL0,te=cpu,vae=cpu"));
            args.push(owned("--params-backend"));
            args.push(owned("diffusion=MTL0,te=cpu,vae=cpu"));
        },
        BackendPreference::Cpu => {
            args.push(owned("--backend"));
            args.push(owned("all=CPU"));
            args.push(owned("--params-backend"));
            args.push(owned("all=CPU"));
            args.push(owned("--offload-to-cpu"));
        },
    }
    assert(strings_view(args@) =~= cli_backend_args(*preference));
    args
}

/// A probe result for an `sd-cli` that could not be run.
pub fn not_ready(binary: &str, summary: &str) -> (probe: EngineProbe)
    ensures
        !probe.ready,
        probe.mode == EngineMode::StableDiffusionCpp,
        probe.binary_path@ == binary@,
        probe.summary@ == summary@,
        probe.output@.len() == 0,
{
    EngineProbe {
        ready: false,
        mode: EngineMode::StableDiffusionCpp,
        binary_path: owned(binary),
        summary: owned(summary),
        output: String::new(),
    }
}

/// The probe result before `sd-cli` is launched: not ready when the
/// trimmed executable path is blank or, as `binary_is_file` tells, not a
/// file; `None` when the executable should be launched.
pub fn sd_cli_probe_precheck(binary_path: &str, binary_is_file: bool) -> (r: Option<EngineProbe>)
    ensures
        r is None <==> (trim_spec(binary_path@).len() > 0 && binary_is_file),
        r is Some ==> !r->0.ready && r->0.mode == EngineMode::StableDiffusionCpp && r->0.binary_path@
            == trim_spec(binary_path@) && r->0.output@.len() == 0,
        r is Some ==> r->0.summary@ == (if trim_spec(binary_path@).len() == 0 {
            "Set the path to the sd-cli executable."@
        } else {
            "The configured executable does not exist."@
        }),
{
    let binary = trim(binary_path);
    if binary.as_str().is_empty() {
        return Some(not_ready(binary.as_str(), "Set the path to the sd-cli executable."));
    }
    if !binary_is_file {
        return Some(not_ready(binary.as_str(), "The configured executable does not exist."));
    }
    None
}

/// What `sd-cli --help` printed: standard output, a newline and standard
/// error, trimmed.
pub open spec fn probe_combined(stdout: Seq<char>, stderr: Seq<char>) -> Seq<char> {
    trim_spec(stdout + "\n"@ + stderr)
}

/// The probe result once `sd-cli --help` has run: ready when it exited
/// successfully or printed anything, with the first 8000 characters of
/// what it printed.
pub fn sd_cli_probe_result(binary_path: &str, success: bool, stdout: &str, stderr: &str) -> (probe: EngineProbe)
    ensures
        probe.ready == (success || probe_combined(stdout@, stderr@).len() > 0),
        probe.mode == EngineMode::StableDiffusionCpp,
        probe.binary_path@ == trim_spec(binary_path@),
        probe.summary@ == (if success {
            "stable-diffusion.cpp process launched successfully."@
        } else {
            "The process launched but returned a non-zero status."@
        }),
        probe.output@ == take_chars(probe_combined(stdout@, stderr@), 8000),
{
    let mut all = owned(stdout);
    append(&mut all, "\n");
    append(&mut all, stderr);
    let combined = trim(all.as_str());
    let summary = if success {
        owned("stable-diffusion.cpp process launched successfully.")
    } else {
        owned("The process launched but returned a non-zero status.")
    };
    EngineProbe {
        ready: success || !combined.as_str().is_empty(),
        mode: EngineMode::StableDiffusionCpp,
        binary_path: trim(binary_path),
        summary,
        output: truncate(combined.as_str(), 8000),
    }
}

/// The seed given to `sd-cli`: the request's, or 42.
pub open spec fn cli_seed(seed: Option<u64>) -> u64 {
    match seed {
        Some(s) => s,
        None => 42,
    }
}

/// The full `sd-cli` argument list for one generation with the given
/// prompt and output file.
pub open spec fn sd_cli_args_spec(
    request: GenerationRequest,
    backend: BackendPreference,
    model: ModelProfile,
    prompt: Seq<char>,
    output_path: Seq<char>,
) -> Seq<Seq<char>> {
    model_args_spec(model) + cli_backend_args(backend) + seq![
        "-p"@,
        prompt,
        "-W"@,
        decimal(request.width as nat),
        "-H"@,
        decimal(request.height as nat),
        "--steps"@,
        decimal(request.steps as nat),
        "--seed"@,
        decimal(cli_seed(request.seed) as nat),
        "-o"@,
        output_path,
    ] + (if is_blank_spec(request.negative_prompt@) {
        seq![]
    } else {
        seq!["-n"@, request.negative_prompt@]
    }) + (if !is_blank_spec(model.lora_directory@) && request.loras.len() > 0 {
        seq!["--lora-model-dir"@, model.lora_directory@]
    } else {
        seq![]
    }) + strings_view(model.extra_args@)
}

/// How one `sd-cli` generation will run: the executable, its arguments, the
/// command line shown in the log, and the output file and asset id.
#[derive(Debug)]
pub struct SdCliPlan {
    pub binary: String,
    pub args: Vec<String>,
    pub command_preview: String,
    pub asset_id: String,
    pub output_path: String,
}

/// The message for an unusable `sd-cli` path.
pub open spec fn invalid_binary_message() -> Seq<char> {
    "The stable-diffusion.cpp binary path is not valid."@
}

fn push_str_arg(args: &mut Vec<String>, a: String)
    ensures
        strings_view(final(args)@) == strings_view(old(args)@).push(a@),
{
    args.push(a);
    assert(strings_view(args@) =~= strings_view(old(args)@).push(a@));
}

fn extend_args(args: &mut Vec<String>, more: Vec<String>)
    ensures
        strings_view(final(args)@) == strings_view(old(args)@) + strings_view(more@),
{
    let mut i: usize = 0;
    while i < more.len()
        invariant
            i <= more.len(),
            strings_view(args@) == strings_view(old(args)@) + strings_view(more@.take(i as int)),
        decreases more.len() - i,
    {
        push_str_arg(args, more[i].clone());
        assert(strings_view(more@.take(i + 1)) =~= strings_view(more@.take(i as int)).push(more@[i as int]@));
        i = i + 1;
    }
    assert(more@.take(more.len() as int) == more@);
}

/// The full `sd-cli` argument list for one generation (see
/// [`sd_cli_args_spec`]).
pub fn sd_cli_args(
    request: &GenerationRequest,
    backend: &BackendPreference,
    model: &ModelProfile,
    prompt: String,
    output_path: &String,
) -> (args: Vec<String>)
    ensures
        strings_view(args@) == sd_cli_args_spec(*request, *backend, *model, prompt@, output_path@),
{
    let mut args = build_model_args(model);
    extend_args(&mut args, build_backend_args(backend));
    let ghost prompt_view = prompt@;
    let ghost base = strings_view(args@);
    push_str_arg(&mut args, owned("-p"));
    push_str_arg(&mut args, prompt);
    push_str_arg(&mut args, owned("-W"));
    push_str_arg(&mut args, decimal_string(request.width as u64));
    push_str_arg(&mut args, owned("-H"));
    push_str_arg(&mut args, decimal_string(request.height as u64));
    push_str_arg(&mut args, owned("--steps"));
    push_str_arg(&mut args, decimal_string(request.steps as u64));
    push_str_arg(&mut args, owned("--seed"));
    let seed: u64 = match request.seed {
        Some(s) => s,
        None => 42,
    };
    push_str_arg(&mut args, decimal_string(seed));
    push_str_arg(&mut args, owned("-o"));
    push_str_arg(&mut args, output_path.clone());
    let ghost fixed = strings_view(args@);
    assert(fixed =~= base + seq![
        "-p"@,
        prompt_view,
        "-W"@,
        decimal(request.width as nat),
        "-H"@,
        decimal(request.height as nat),
        "--steps"@,
        decimal(request.steps as nat),
        "--seed"@,
        decimal(cli_seed(request.seed) as nat),
        "-o"@,
        output_path@,
    ]);
    if !is_blank(request.negative_prompt.as_str()) {
        push_str_arg(&mut args, owned("-n"));
        push_str_arg(&mut args, request.negative_prompt.clone());
        assert(strings_view(args@) =~= fixed + seq!["-n"@, request.negative_prompt@]);
    } else {
        assert(strings_view(args@) =~= fixed + Seq::<Seq<char>>::empty());
    }
    let ghost with_negative = strings_view(args@);
    if !is_blank(model.lora_directory.as_str()) && request.loras.len() > 0 {
        push_str_arg(&mut args, owned("--lora-model-dir"));
        push_str_arg(&mut args, model.lora_directory.clone());
        assert(strings_view(args@) =~= with_negative + seq!["--lora-model-dir"@, model.lora_directory@]);
    } else {
        assert(strings_view(args@) =~= with_negative + Seq::<Seq<char>>::empty());
    }
    extend_args(&mut args, crate::models::copy_strings(&model.extra_args));
    args
}

/// Prepares one `sd-cli` generation.  The trimmed executable path must be
/// set and, as `binary_is_file` tells, be a file; the model files must pass
/// [`validate_model_paths`] with `model_files_exist`; the LoRAs must
/// resolve.  The output goes to `<outputs>/<asset id>.png` under a fresh
/// random asset id.
pub fn plan_sd_cli_generation(
    request: &GenerationRequest,
    engine: &EngineConfig,
    model: &ModelProfile,
    outputs_dir: &str,
    binary_is_file: bool,
    model_files_exist: &Vec<bool>,
) -> (r: Result<SdCliPlan, String>)
    requires
        model_files_exist.len() == 6,
    ensures
        !(trim_spec(engine.binary_path@).len() > 0 && binary_is_file) ==> r is Err && r->Err_0@
            == invalid_binary_message(),
        (trim_spec(engine.binary_path@).len() > 0 && binary_is_file && model_paths_error(*model, model_files_exist@) is Some)
            ==> r is Err && Some(r->Err_0@) == model_paths_error(*model, model_files_exist@),
        (trim_spec(engine.binary_path@).len() > 0 && binary_is_file && model_paths_error(*model, model_files_exist@) is None)
            ==> match tagged_prompt_from(trim_spec(request.prompt@), selections_view(request.loras@), engine.loras@, model.family@) {
                Err(e) => r is Err && r->Err_0@ == e,
                Ok(prompt) => r is Ok && ({
                    let plan = r->Ok_0;
                    &&& plan.binary@ == trim_spec(engine.binary_path@)
                    &&& ids::is_uuid_v4_text(plan.asset_id@)
                    &&& plan.output_path@ == join_path_spec(outputs_dir@, plan.asset_id@ + ".png"@)
                    &&& strings_view(plan.args@) == sd_cli_args_spec(*request, engine.backend, *model, prompt, plan.output_path@)
                    &&& plan.command_preview@ == plan.binary@ + " "@ + shell_preview_spec(strings_view(plan.args@))
                }),
            },
{
    let binary = trim(engine.binary_path.as_str());
    if binary.as_str().is_empty() || !binary_is_file {
        return Err(owned("The stable-diffusion.cpp binary path is not valid."));
    }
    match validate_model_paths(model, model_files_exist) {
        Err(e) => {
            return Err(e);
        },
        Ok(()) => {},
    }
    let asset_id = ids::new_uuid_text();
    let mut file_name = asset_id.clone();
    append(&mut file_name, ".png");
    let output_path = join_path(outputs_dir, file_name.as_str());
    let prompt = match prompt_with_loras(request.prompt.as_str(), &request.loras, &engine.loras, model) {
        Err(e) => {
            return Err(e);
        },
        Ok(p) => p,
    };
    let args = sd_cli_args(request, &engine.backend, model, prompt, &output_path);
    let mut command_preview = binary.clone();
    append(&mut command_preview, " ");
    let preview = shell_preview(&args);
    append(&mut command_preview, preview.as_str());
    Ok(SdCliPlan { binary, args, command_preview, asset_id, output_path })
}

/// The message for an `sd-cli` run that exited unsuccessfully.
pub open spec fn exit_failure_message(exit_status: Seq<char>, stderr: Seq<char>) -> Seq<char> {
    "stable-diffusion.cpp exited with "@ + exit_status + ".\n"@ + take_chars(stderr, 4000)
}

/// The outcome of a finished `sd-cli` run: a failure when it exited
/// unsuccessfully (with the exit status as text and the first 4000
/// characters of its standard error) or when `output_exists` tells that
/// it wrote no output file; otherwise the PNG asset, with the log lines
/// command line, standard output and standard error.
pub fn finish_sd_cli_generation(
    plan: SdCliPlan,
    request: &GenerationRequest,
    success: bool,
    exit_status: &str,
    stdout: String,
    stderr: String,
    output_exists: bool,
) -> (r: Result<(GeneratedAsset, Vec<String>), String>)
    ensures
        !success ==> r is Err && r->Err_0@ == exit_failure_message(exit_status@, stderr@),
        success && !output_exists ==> r is Err && r->Err_0@ == "The engine reported success but did not create "@
            + plan.output_path@ + "."@,
        success && output_exists ==> r is Ok && ({
            let (asset, logs) = r->Ok_0;
            &&& asset.id@ == plan.asset_id@
            &&& asset.path@ == plan.output_path@
            &&& asset.mime_type@ == "image/png"@
            &&& asset.width == request.width
            &&& asset.height == request.height
            &&& asset.kind == AssetKind::Image
            &&& strings_view(logs@) == seq![plan.command_preview@, stdout@, stderr@]
        }),
{
    if !success {
        let mut message = owned("stable-diffusion.cpp exited with ");
        append(&mut message, exit_status);
        append(&mut message, ".\n");
        let tail = truncate(stderr.as_str(), 4000);
        append(&mut message, tail.as_str());
        return Err(message);
    }
    if !output_exists {
        let mut message = owned("The engine reported success but did not create ");
        append(&mut message, plan.output_path.as_str());
        append(&mut message, ".");
        return Err(message);
    }
    let mut logs: Vec<String> = Vec::new();
    logs.push(plan.command_preview);
    logs.push(stdout);
    logs.push(stderr);
    let asset = GeneratedAsset {
        id: plan.asset_id,
        path: plan.output_path,
        mime_type: owned("image/png"),
        width: request.width,
        height: request.height,
        kind: AssetKind::Image,
    };
    let ghost lv = strings_view(logs@);
    assert(lv =~= seq![lv[0], lv[1], lv[2]]);
    Ok((asset, logs))
}

} // verus!
