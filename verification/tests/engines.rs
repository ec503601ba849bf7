use imgen_pro::engine_args::{
    build_lora_payload, build_model_args, lora_profile, prompt_with_lora_triggers, prompt_with_loras,
    shell_preview, validate_model_paths,
};
use imgen_pro::float_text::push_f32_text3;
use imgen_pro::mock::{mock_probe, render_mock_output};
use imgen_pro::models::{
    AppConfig, AssetKind, BackendPreference, EngineConfig, EngineMode, GenerationRequest, LoraProfile,
    LoraSelection, ModelProfile,
};
use imgen_pro::sd_cpp::{
    build_backend_args, finish_sd_cli_generation, not_ready, plan_sd_cli_generation, sd_cli_args,
    sd_cli_probe_precheck, sd_cli_probe_result,
};

fn strings(items: &[&str]) -> Vec<String> {
    items.iter().map(|s| s.to_string()).collect()
}

fn model() -> ModelProfile {
    ModelProfile {
        id: "z".to_string(),
        label: "Z-Image".to_string(),
        family: "Z-Image".to_string(),
        enabled: true,
        model_path: String::new(),
        diffusion_model_path: "/m/z.gguf".to_string(),
        vae_path: "/m/ae.sft".to_string(),
        clip_l_path: " ".to_string(),
        t5xxl_path: String::new(),
        llm_path: "/m/qwen.gguf".to_string(),
        lora_directory: "/m/loras".to_string(),
        extra_args: strings(&["--cfg-scale", "1.0"]),
        default_steps: 4,
    }
}

fn loras() -> Vec<LoraProfile> {
    vec![
        LoraProfile {
            id: "ink".to_string(),
            label: "Ink".to_string(),
            path: "/m/loras/ink_style.safetensors".to_string(),
            trigger: "  inkwash ".to_string(),
            compatible_families: strings(&["z-image"]),
        },
        LoraProfile {
            id: "any".to_string(),
            label: "Anything".to_string(),
            path: "/m/loras/any.safetensors".to_string(),
            trigger: String::new(),
            compatible_families: Vec::new(),
        },
        LoraProfile {
            id: "sdxl".to_string(),
            label: "SDXL only".to_string(),
            path: "/m/loras/sdxl.safetensors".to_string(),
            trigger: "x".to_string(),
            compatible_families: strings(&["sdxl"]),
        },
    ]
}

fn selection(id: &str, strength: f32) -> LoraSelection {
    LoraSelection { id: id.to_string(), strength_bits: strength.to_bits() }
}

fn request(loras: Vec<LoraSelection>) -> GenerationRequest {
    GenerationRequest {
        prompt: "  a lighthouse  ".to_string(),
        negative_prompt: "blurry text".to_string(),
        model_id: "z".to_string(),
        width: 512,
        height: 768,
        steps: 4,
        seed: None,
        loras,
    }
}

fn engine() -> EngineConfig {
    let mut engine = AppConfig::default().engine;
    engine.mode = EngineMode::StableDiffusionCpp;
    engine.binary_path = " /bin/sd-cli ".to_string();
    engine.backend = BackendPreference::Cpu;
    engine.loras = loras();
    engine
}

#[test]
fn model_args_skip_blank_paths() {
    assert_eq!(
        build_model_args(&model()),
        strings(&["--diffusion-model", "/m/z.gguf", "--vae", "/m/ae.sft", "--llm", "/m/qwen.gguf"])
    );
}

#[test]
fn cli_backend_args_per_preference() {
    assert!(build_backend_args(&BackendPreference::Auto).is_empty());
    assert_eq!(
        build_backend_args(&BackendPreference::Vulkan),
        strings(&["--backend", "diffusion=vulkan0,te=cpu,vae=cpu", "--params-backend", "diffusion=vulkan0,te=cpu,vae=cpu"])
    );
    assert_eq!(
        build_backend_args(&BackendPreference::Metal),
        strings(&["--backend", "diffusion=MTL0,te=cpu,vae=cpu", "--params-backend", "diffusion=MTL0,te=cpu,vae=cpu"])
    );
    assert_eq!(
        build_backend_args(&BackendPreference::Cpu),
        strings(&["--backend", "all=CPU", "--params-backend", "all=CPU", "--offload-to-cpu"])
    );
}

#[test]
fn model_path_validation_reports_each_error() {
    let all = vec![true; 6];
    assert!(validate_model_paths(&model(), &all).is_ok());
    let mut empty = model();
    empty.diffusion_model_path = " ".to_string();
    assert_eq!(
        validate_model_paths(&empty, &all).unwrap_err(),
        "Configure either a complete model path or a diffusion model path."
    );
    let missing_vae = vec![true, true, false, false, false, false];
    assert_eq!(
        validate_model_paths(&model(), &missing_vae).unwrap_err(),
        "The configured VAE file does not exist: /m/ae.sft"
    );
    let missing_llm = vec![true, true, true, false, false, false];
    assert_eq!(
        validate_model_paths(&model(), &missing_llm).unwrap_err(),
        "The configured LLM text encoder file does not exist: /m/qwen.gguf"
    );
    let missing_diffusion = vec![false; 6];
    assert_eq!(
        validate_model_paths(&model(), &missing_diffusion).unwrap_err(),
        "The configured diffusion model file does not exist: /m/z.gguf"
    );
}

#[test]
fn lora_profile_resolution() {
    let profiles = loras();
    assert_eq!(lora_profile("ink", &profiles, &model()).unwrap().label, "Ink");
    assert_eq!(lora_profile("any", &profiles, &model()).unwrap().label, "Anything");
    assert_eq!(
        lora_profile("nope", &profiles, &model()).unwrap_err(),
        "LoRA profile 'nope' was not found."
    );
    assert_eq!(
        lora_profile("sdxl", &profiles, &model()).unwrap_err(),
        "LoRA 'SDXL only' is not marked compatible with model family 'Z-Image'."
    );
}

#[test]
fn trigger_prompt_appends_trimmed_triggers() {
    let profiles = loras();
    let sels = vec![selection("ink", 0.8), selection("any", 1.0)];
    assert_eq!(
        prompt_with_lora_triggers("  a lighthouse  ", &sels, &profiles, &model()).unwrap(),
        "a lighthouse inkwash"
    );
    let bad = vec![selection("ink", 0.8), selection("sdxl", 1.0)];
    assert_eq!(
        prompt_with_lora_triggers("a", &bad, &profiles, &model()).unwrap_err(),
        "LoRA 'SDXL only' is not marked compatible with model family 'Z-Image'."
    );
}

#[test]
fn tagged_prompt_uses_file_stems_and_three_decimals() {
    let profiles = loras();
    let sels = vec![selection("ink", 0.8), selection("any", -1.25)];
    assert_eq!(
        prompt_with_loras("  a lighthouse  ", &sels, &profiles, &model()).unwrap(),
        "a lighthouse <lora:ink_style:0.800> inkwash <lora:any:-1.250>"
    );
    let mut odd = loras();
    odd[1].path = "/".to_string();
    assert_eq!(
        prompt_with_loras("a", &vec![selection("any", 1.0)], &odd, &model()).unwrap_err(),
        "LoRA path is invalid: /"
    );
}

#[test]
fn strength_text_matches_float_formatting() {
    let values: [f32; 22] = [
        0.0, -0.0, 0.8, 0.8125, 0.0625, 0.1875, 0.0005, -0.0004, 1.0, -1.25, 12.345, 0.5, 2.5e-4,
        1.0e-45, 1.0e10, 123456.79, f32::MAX, f32::MIN, f32::MIN_POSITIVE, f32::INFINITY, f32::NEG_INFINITY, f32::NAN,
    ];
    for value in values {
        let mut s = String::from("x=");
        push_f32_text3(&mut s, value.to_bits());
        assert_eq!(s, format!("x={value:.3}"), "bits {:#x}", value.to_bits());
    }
    for bits in (0u32..=0xFFFF_FFFF).step_by(104_729) {
        let mut s = String::new();
        push_f32_text3(&mut s, bits);
        assert_eq!(s, format!("{:.3}", f32::from_bits(bits)), "bits {bits:#x}");
    }
}

#[test]
fn lora_payload_entries() {
    let profiles = loras();
    let entries = build_lora_payload(&vec![selection("any", 0.5), selection("ink", 1.0)], &profiles, &model()).unwrap();
    assert_eq!(entries.len(), 2);
    assert_eq!(entries[0].path, "/m/loras/any.safetensors");
    assert_eq!(entries[0].strength_bits, 0.5_f32.to_bits());
    assert_eq!(entries[1].path, "/m/loras/ink_style.safetensors");
    assert_eq!(
        build_lora_payload(&vec![selection("missing", 0.001)], &profiles, &model()).err().unwrap(),
        "LoRA profile 'missing' was not found."
    );
}

#[test]
fn shell_preview_quotes_arguments_with_spaces() {
    assert_eq!(
        shell_preview(&strings(&["-p", "a \"big\" cat", "-W", "512"])),
        "-p \"a \\\"big\\\" cat\" -W 512"
    );
    assert_eq!(shell_preview(&Vec::new()), "");
    assert_eq!(shell_preview(&strings(&["say\"hi\""])), "say\"hi\"");
}

#[test]
fn cli_probe_results() {
    let probe = sd_cli_probe_precheck("   ", true).unwrap();
    assert!(!probe.ready);
    assert_eq!(probe.summary, "Set the path to the sd-cli executable.");
    let probe = sd_cli_probe_precheck(" /bin/sd ", false).unwrap();
    assert_eq!(probe.summary, "The configured executable does not exist.");
    assert_eq!(probe.binary_path, "/bin/sd");
    assert!(sd_cli_probe_precheck("/bin/sd", true).is_none());

    let probe = sd_cli_probe_result(" /bin/sd ", false, "usage: sd-cli", "");
    assert!(probe.ready);
    assert_eq!(probe.summary, "The process launched but returned a non-zero status.");
    assert_eq!(probe.output, "usage: sd-cli");
    assert_eq!(probe.mode, EngineMode::StableDiffusionCpp);
    let silent = sd_cli_probe_result("/bin/sd", false, " ", "\n");
    assert!(!silent.ready);
    let ok = sd_cli_probe_result("/bin/sd", true, "", "");
    assert!(ok.ready);
    assert_eq!(ok.summary, "stable-diffusion.cpp process launched successfully.");

    let nr = not_ready("/x", "why");
    assert!(!nr.ready && nr.output.is_empty() && nr.summary == "why");
}

#[test]
fn cli_arguments_for_one_generation() {
    let mut req = request(vec![selection("ink", 0.8)]);
    req.seed = Some(7);
    let args = sd_cli_args(&req, &BackendPreference::Auto, &model(), "p".to_string(), &"/o/x.png".to_string());
    assert_eq!(
        args,
        strings(&[
            "--diffusion-model", "/m/z.gguf", "--vae", "/m/ae.sft", "--llm", "/m/qwen.gguf",
            "-p", "p", "-W", "512", "-H", "768", "--steps", "4", "--seed", "7", "-o", "/o/x.png",
            "-n", "blurry text", "--lora-model-dir", "/m/loras", "--cfg-scale", "1.0",
        ])
    );
    let plain = request(Vec::new());
    let args = sd_cli_args(&plain, &BackendPreference::Auto, &model(), "p".to_string(), &"/o/x.png".to_string());
    assert!(args.contains(&"42".to_string()));
    assert!(!args.contains(&"--lora-model-dir".to_string()));
}

#[test]
fn cli_generation_plan_and_outcome() {
    let req = request(vec![selection("ink", 0.8)]);
    let all = vec![true; 6];
    assert_eq!(
        plan_sd_cli_generation(&req, &engine(), &model(), "/out", false, &all).err().unwrap(),
        "The stable-diffusion.cpp binary path is not valid."
    );
    let plan = plan_sd_cli_generation(&req, &engine(), &model(), "/out", true, &all).unwrap();
    assert_eq!(plan.binary, "/bin/sd-cli");
    assert_eq!(plan.output_path, format!("/out/{}.png", plan.asset_id));
    assert_eq!(plan.args[12], "a lighthouse <lora:ink_style:0.800> inkwash");
    assert!(plan.command_preview.starts_with("/bin/sd-cli --diffusion-model /m/z.gguf"));

    let failed = finish_sd_cli_generation(
        plan_sd_cli_generation(&req, &engine(), &model(), "/out", true, &all).unwrap(),
        &req, false, "exit status: 1", String::new(), "boom".to_string(), false,
    );
    assert_eq!(failed.unwrap_err(), "stable-diffusion.cpp exited with exit status: 1.\nboom");
    let output_path = plan.output_path.clone();
    let missing = finish_sd_cli_generation(
        plan_sd_cli_generation(&req, &engine(), &model(), "/out", true, &all).unwrap(),
        &req, true, "exit status: 0", String::new(), String::new(), false,
    );
    assert!(missing.unwrap_err().starts_with("The engine reported success but did not create /out/"));
    let preview = plan.command_preview.clone();
    let (asset, logs) = finish_sd_cli_generation(plan, &req, true, "0", "out".to_string(), "err".to_string(), true).unwrap();
    assert_eq!(asset.path, output_path);
    assert_eq!(asset.mime_type, "image/png");
    assert_eq!(asset.kind, AssetKind::Image);
    assert_eq!(logs, vec![preview, "out".to_string(), "err".to_string()]);
}

#[test]
fn mock_engine_output_and_probe() {
    let mut req = request(Vec::new());
    req.width = 100;
    req.prompt = "a <b>".to_string();
    req.seed = Some(361);
    let out = render_mock_output("/out", "job-9", &req);
    assert_eq!(out.output_path, "/out/job-9.svg");
    assert_eq!(out.asset.width, 256);
    assert_eq!(out.asset.height, 768);
    assert_eq!(out.asset.mime_type, "image/svg+xml");
    assert_eq!(out.asset.id.len(), 36);
    assert!(out.svg.contains("a &lt;b&gt;"));
    assert!(out.svg.contains("hsl(1 82% 68%)"));
    assert!(out.svg.contains("256 \u{d7} 768 \u{b7} 4 steps \u{b7} seed 361"));
    assert_eq!(out.logs, vec!["Mock engine selected.".to_string(), "Wrote viability output to /out/job-9.svg".to_string()]);
    let probe = mock_probe();
    assert!(probe.ready);
    assert_eq!(probe.mode, EngineMode::Mock);
    assert_eq!(probe.summary, "Mock engine is ready for workflow viability testing.");
}

#[test]
fn mock_engine_draws_a_random_seed_when_none_is_given() {
    let req = request(Vec::new());
    let out = render_mock_output("/out", "job-r", &req);
    let marker = " steps \u{b7} seed ";
    let start = out.svg.find(marker).unwrap() + marker.len();
    let digits: String = out.svg[start..].chars().take_while(|c| c.is_ascii_digit()).collect();
    let seed: u64 = digits.parse().unwrap();
    assert_eq!((seed >> 52) & 15, 4);
    assert!(out.svg.contains(&format!("hsl({} 82% 68%)", seed % 360)));
    let again = render_mock_output("/out", "job-r", &req);
    assert_ne!(out.asset.id, again.asset.id);
    assert!(out.svg.contains("+00:00</text>"));
}
