use imgen_pro::automation::{
    authorized, bad_request, bind_address, check_access, job_reply, running_status, unauthorized,
};
use imgen_pro::image_server::{
    build_backend_args, build_model_args, build_server_args, flush_log_fragment, infer_phase,
    parse_server_address, check_server_launch, server_address_from, server_status, split_log_chunk,
};
use imgen_pro::image_server::{start_launches, ChildState};
use imgen_pro::jobs::new_job;
use imgen_pro::sd_server::{completed_image_b64, poll_fields, submitted_job_id};
use imgen_pro::models::{
    AppConfig, BackendPreference, CreativeBriefRequest, CreativePlan, EngineConfig, GenerationRequest,
    LoraSelection, ModelProfile, TextProviderMode, Timestamp,
};
use imgen_pro::parsing::split_whitespace;
use imgen_pro::sd_server::{
    classify_poll, decode_server_image, endpoint, finish_server_generation, fraction_since_marker,
    http_error_message, parse_fraction, plan_server_generation, poll_url, probe_result,
    progress_stage, recent_log_text, stage_progress, PollOutcome, ProgressStage,
};
use imgen_pro::text_model;

fn strings(items: &[&str]) -> Vec<String> {
    items.iter().map(|s| s.to_string()).collect()
}

fn model() -> ModelProfile {
    let mut m = AppConfig::default().engine.models[0].clone();
    m.diffusion_model_path = "/m/z.gguf".to_string();
    m.vae_path = "/m/ae.sft".to_string();
    m.extra_args = strings(&["--cfg-scale", "1.0"]);
    m
}

fn engine(server_url: &str) -> EngineConfig {
    let mut e = AppConfig::default().engine;
    e.server_url = server_url.to_string();
    e.server_binary_path = " /bin/sd-server ".to_string();
    e.backend = BackendPreference::Vulkan;
    e
}

#[test]
fn server_backend_args_per_preference() {
    assert!(build_backend_args(&BackendPreference::Auto).is_empty());
    assert_eq!(
        build_backend_args(&BackendPreference::Vulkan),
        strings(&[
            "--backend", "diffusion=vulkan0,te=cpu,vae=cpu", "--params-backend", "diffusion=cpu,te=cpu,vae=cpu",
            "--offload-to-cpu", "--max-vram", "vulkan0=1.5", "--stream-layers",
        ])
    );
    assert_eq!(
        build_backend_args(&BackendPreference::Cpu),
        strings(&["--backend", "all=cpu", "--params-backend", "all=cpu", "--offload-to-cpu"])
    );
    assert_eq!(build_backend_args(&BackendPreference::Metal).len(), 4);
    assert_eq!(build_model_args(&model()), strings(&["--diffusion-model", "/m/z.gguf", "--vae", "/m/ae.sft"]));
}

#[test]
fn server_address_from_url() {
    assert_eq!(parse_server_address("http://127.0.0.1:1234"), Ok(("127.0.0.1".to_string(), 1234)));
    assert_eq!(parse_server_address("  http://localhost/  "), Ok(("localhost".to_string(), 80)));
    assert_eq!(parse_server_address("https://example.com"), Ok(("example.com".to_string(), 443)));
    assert_eq!(
        parse_server_address("not a url"),
        Err("stable-diffusion.cpp server URL is invalid: relative URL without a base".to_string())
    );
    assert_eq!(
        parse_server_address("unix:/tmp/socket"),
        Err("stable-diffusion.cpp server URL must include a host.".to_string())
    );
    assert_eq!(
        parse_server_address("foo://host"),
        Err("stable-diffusion.cpp server URL must include a port.".to_string())
    );
    assert_eq!(server_address_from(Ok((Some("h".to_string()), Some(9)))), Ok(("h".to_string(), 9)));
    assert_eq!(
        server_address_from(Err("bad".to_string())),
        Err("stable-diffusion.cpp server URL is invalid: bad".to_string())
    );
}

#[test]
fn server_arguments_in_order() {
    assert_eq!(
        build_server_args(&engine("http://127.0.0.1:1234"), &model()).unwrap(),
        strings(&[
            "--listen-ip", "127.0.0.1", "--listen-port", "1234", "--diffusion-model", "/m/z.gguf", "--vae",
            "/m/ae.sft", "--backend", "diffusion=vulkan0,te=cpu,vae=cpu", "--params-backend",
            "diffusion=cpu,te=cpu,vae=cpu", "--offload-to-cpu", "--max-vram", "vulkan0=1.5", "--stream-layers",
            "--cfg-scale", "1.0",
        ])
    );
    assert_eq!(
        build_server_args(&engine("no scheme here"), &model()).unwrap_err(),
        "stable-diffusion.cpp server URL is invalid: relative URL without a base"
    );
}

#[test]
fn server_launch_checks_in_order() {
    let all = vec![true; 6];
    let mut no_model = model();
    no_model.diffusion_model_path = String::new();
    assert_eq!(
        check_server_launch(&engine("http://127.0.0.1:1234"), &no_model, &all, false).err().unwrap(),
        "Configure either a complete model path or a diffusion model path."
    );
    assert_eq!(
        check_server_launch(&engine("http://127.0.0.1:1234"), &model(), &all, false).err().unwrap(),
        "The stable-diffusion.cpp server binary path is not valid."
    );
    let mut blank = engine("http://127.0.0.1:1234");
    blank.server_binary_path = "  ".to_string();
    assert_eq!(
        check_server_launch(&blank, &model(), &all, true).err().unwrap(),
        "The stable-diffusion.cpp server binary path is not valid."
    );
    assert_eq!(check_server_launch(&engine("no url"), &model(), &all, true), Ok("/bin/sd-server".to_string()));
}

#[test]
fn phase_from_server_log() {
    assert_eq!(infer_phase(&Vec::new(), true), "Starting");
    assert_eq!(infer_phase(&Vec::new(), false), "Stopped");
    assert_eq!(infer_phase(&strings(&["[stdout] loading model"]), true), "Loading model");
    assert_eq!(infer_phase(&strings(&["loading", "listening on: 127.0.0.1:1234"]), true), "Ready");
    assert_eq!(infer_phase(&strings(&["get_learned_condition", "sampling"]), true), "Sampling");
    assert_eq!(infer_phase(&strings(&["generating image", "decoded"]), false), "Decoding image");
    assert_eq!(infer_phase(&strings(&["get_learned_condition done"]), true), "Encoding prompt");
    assert_eq!(infer_phase(&strings(&["hello"]), true), "Running");
    assert_eq!(infer_phase(&strings(&["hello", "bye"]), false), "bye");
    let mut old = strings(&["listening on: x"]);
    old.extend((0..20).map(|i| format!("line {i}")));
    assert_eq!(infer_phase(&old, true), "Running");
    old.remove(1);
    assert_eq!(infer_phase(&old, true), "Ready");
}

#[test]
fn server_status_report() {
    let status = server_status(true, Some(41), "http://127.0.0.1:1234".to_string(), strings(&["loading"]));
    assert!(status.running);
    assert_eq!(status.pid, Some(41));
    assert_eq!(status.phase, "Loading model");
    assert_eq!(status.logs, strings(&["loading"]));
}

#[test]
fn log_lines_are_split_on_line_breaks() {
    let mut pending = Vec::new();
    let lines = split_log_chunk("stdout", &mut pending, b"abc\ndef");
    assert_eq!(lines, strings(&["[stdout] abc"]));
    assert_eq!(pending, b"def".to_vec());
    let lines = split_log_chunk("stdout", &mut pending, b"\r\n   \n\xffok\n");
    assert_eq!(lines, strings(&["[stdout] def", "[stdout] \u{fffd}ok"]));
    assert!(pending.is_empty());
    let mut tail = b"  tail  ".to_vec();
    assert_eq!(flush_log_fragment("stderr", &mut tail), Some("[stderr] tail".to_string()));
    assert!(tail.is_empty());
    assert_eq!(flush_log_fragment("stderr", &mut tail), None);
    let mut blank = b" \t ".to_vec();
    assert_eq!(flush_log_fragment("stderr", &mut blank), None);
    assert!(blank.is_empty());
}

#[test]
fn log_splitting_ignores_how_output_is_chunked() {
    let output: &[u8] = b"first line\nsecond\r\nthird partial";
    let mut whole_pending = Vec::new();
    let whole = split_log_chunk("stdout", &mut whole_pending, output);
    for cut in 0..=output.len() {
        let mut pending = Vec::new();
        let mut lines = split_log_chunk("stdout", &mut pending, &output[..cut]);
        lines.extend(split_log_chunk("stdout", &mut pending, &output[cut..]));
        assert_eq!(lines, whole);
        assert_eq!(pending, whole_pending);
    }
    assert_eq!(whole, strings(&["[stdout] first line", "[stdout] second"]));
}

#[test]
fn fraction_parsing_follows_tokens() {
    assert_eq!(parse_fraction("  |=====| 3/4 - 1.2s/it", 4), Some((3, 4)));
    assert_eq!(parse_fraction("3/4 - 1.2s/it", 10), None);
    assert_eq!(parse_fraction("step 5/20,", 20), Some((5, 20)));
    assert_eq!(parse_fraction("21/20", 20), None);
    assert_eq!(parse_fraction("[5/20]", 20), None);
    assert_eq!(parse_fraction("no fraction here", 20), None);
    assert_eq!(parse_fraction("1/138 9/138", 138), Some((1, 138)));
    let words = split_whitespace(" a  bc\td ");
    assert_eq!(words.len(), 3);
    assert_eq!(words[1], vec!['b', 'c']);
}

#[test]
fn recent_lines_newest_first() {
    let logs = strings(&["a", "b", "c"]);
    assert_eq!(recent_log_text(&logs, 2), "c\nb");
    assert_eq!(recent_log_text(&logs, 10), "c\nb\na");
    assert_eq!(recent_log_text(&logs, 0), "");
    assert_eq!(fraction_since_marker(&strings(&["2/4", "generating image:", "3/4"]), "generating image:", 4), Some((3, 4)));
    assert_eq!(fraction_since_marker(&strings(&["2/4", "generating image:"]), "generating image:", 4), None);
}

#[test]
fn progress_stage_from_server_log() {
    assert!(matches!(progress_stage(&Vec::new(), 4), ProgressStage::Submitted));
    assert!(matches!(progress_stage(&strings(&["listening on: x"]), 4), ProgressStage::Listening));
    assert!(matches!(progress_stage(&strings(&["generate_image"]), 4), ProgressStage::EncodingPrompt));
    assert!(matches!(progress_stage(&strings(&["get_learned_condition completed"]), 4), ProgressStage::PromptEncoded));
    assert!(matches!(
        progress_stage(&strings(&["generating image: 1/1", "  |===| 2/4 - 1.0s/it"]), 4),
        ProgressStage::Sampling(Some((2, 4)))
    ));
    assert!(matches!(progress_stage(&strings(&["sampling completed"]), 4), ProgressStage::SamplingComplete));
    assert!(matches!(
        progress_stage(&strings(&["decoding 1 latents", "10/138"]), 4),
        ProgressStage::Decoding(Some((10, 138)))
    ));
    assert!(matches!(progress_stage(&strings(&["latent 1 decoded"]), 4), ProgressStage::Decoded));
    assert_eq!(stage_progress(&ProgressStage::Decoded), (96, "Decoding image".to_string()));
    assert_eq!(stage_progress(&ProgressStage::Decoding(None)), (88, "Decoding image".to_string()));
    assert_eq!(stage_progress(&ProgressStage::SamplingComplete), (86, "Sampling complete".to_string()));
    assert_eq!(stage_progress(&ProgressStage::Sampling(Some((1, 4)))), (30, "Sampling".to_string()));
    assert_eq!(stage_progress(&ProgressStage::PromptEncoded), (28, "Prompt encoded".to_string()));
    assert_eq!(stage_progress(&ProgressStage::EncodingPrompt), (22, "Encoding prompt".to_string()));
    assert_eq!(stage_progress(&ProgressStage::Listening), (16, "Queued on sd-server".to_string()));
    assert_eq!(stage_progress(&ProgressStage::Submitted), (12, "Submitted to sd-server".to_string()));
}

#[test]
fn server_endpoints_and_probe() {
    assert_eq!(endpoint(" http://h:1// ", "/sdcpp/v1/img_gen"), Ok("http://h:1/sdcpp/v1/img_gen".to_string()));
    assert_eq!(endpoint("  ", "/x"), Err("Configure the stable-diffusion.cpp server URL first.".to_string()));
    assert_eq!(poll_url("http://h:1", "abc"), Ok("http://h:1/sdcpp/v1/jobs/abc".to_string()));
    let config = engine("http://h:1");
    let probe = probe_result(&config, false, 503, "down");
    assert!(!probe.ready);
    assert_eq!(probe.summary, "stable-diffusion.cpp server returned HTTP 503.");
    assert_eq!(probe.binary_path, "http://h:1");
    assert_eq!(probe_result(&config, true, 200, "{}").summary, "stable-diffusion.cpp server is ready.");
    assert_eq!(
        http_error_message("stable-diffusion.cpp server returned ", 500, "oops"),
        "stable-diffusion.cpp server returned HTTP 500: oops"
    );
}

#[test]
fn poll_outcomes() {
    assert!(matches!(classify_poll(Some("completed"), None), PollOutcome::Completed));
    match classify_poll(Some("failed"), Some("out of memory")) {
        PollOutcome::Failed(m) => assert_eq!(m, "stable-diffusion.cpp server job failed: out of memory"),
        _ => panic!("expected a failure"),
    }
    match classify_poll(Some("cancelled"), None) {
        PollOutcome::Failed(m) => assert_eq!(m, "stable-diffusion.cpp server job failed: server job did not complete"),
        _ => panic!("expected a failure"),
    }
    assert!(matches!(classify_poll(Some("running"), None), PollOutcome::Pending));
    assert!(matches!(classify_poll(None, Some("x")), PollOutcome::Pending));
}

#[test]
fn server_image_decoding() {
    assert_eq!(decode_server_image(" aGVsbG8= \n"), Ok(b"hello".to_vec()));
    assert_eq!(
        decode_server_image("!!!!"),
        Err("stable-diffusion.cpp server returned invalid image data: Invalid symbol 33, offset 0.".to_string())
    );
}

fn server_request() -> GenerationRequest {
    GenerationRequest {
        prompt: " a fox ".to_string(),
        negative_prompt: String::new(),
        model_id: "primary-model".to_string(),
        width: 512,
        height: 512,
        steps: 4,
        seed: None,
        loras: vec![LoraSelection { id: "missing".to_string(), strength_bits: 1.0_f32.to_bits() }],
    }
}

#[test]
fn server_generation_plan_and_result() {
    let mut req = server_request();
    assert_eq!(
        plan_server_generation(&req, &engine("http://h:1"), &model(), "/out").err().unwrap(),
        "LoRA profile 'missing' was not found."
    );
    req.loras.clear();
    assert_eq!(
        plan_server_generation(&req, &engine(" "), &model(), "/out").err().unwrap(),
        "Configure the stable-diffusion.cpp server URL first."
    );
    let plan = plan_server_generation(&req, &engine("http://h:1/"), &model(), "/out").unwrap();
    assert_eq!(plan.prompt, "a fox");
    assert_eq!(plan.submit_url, "http://h:1/sdcpp/v1/img_gen");
    assert_eq!(plan.output_path, format!("/out/{}.png", plan.asset_id));
    assert!(plan.loras.is_empty());
    let (asset, logs) = finish_server_generation(&plan, &req, "job-7");
    assert_eq!(asset.id, plan.asset_id);
    assert_eq!(asset.mime_type, "image/png");
    assert_eq!(
        logs,
        vec![
            "POST http://h:1/sdcpp/v1/img_gen".to_string(),
            "stable-diffusion.cpp server job id: job-7".to_string(),
            format!("Wrote server output to {}", plan.output_path),
        ]
    );
}

fn brief(text: &str, template: &str) -> CreativeBriefRequest {
    CreativeBriefRequest { brief: text.to_string(), template: template.to_string(), width: 1400, height: 900 }
}

#[test]
fn text_model_requests() {
    assert_eq!(
        text_model::endpoint(" http://127.0.0.1:8080/v1// ", "models"),
        Ok("http://127.0.0.1:8080/v1/models".to_string())
    );
    assert_eq!(
        text_model::endpoint(" / ", "models"),
        Err("Configure the local text model base URL first.".to_string())
    );
    assert_eq!(text_model::bearer_token("  key  "), Some("key".to_string()));
    assert_eq!(text_model::bearer_token("   "), None);
    let mut config = AppConfig::default().text_model;
    assert!(text_model::validate_plan_request(&config, &brief("a hero", "web-hero")).is_ok());
    assert_eq!(
        text_model::validate_plan_request(&config, &brief("  ", "web-hero")).unwrap_err(),
        "Add a creative brief before generating a design plan."
    );
    let mut small = brief("x", "web-hero");
    small.height = 100;
    assert_eq!(
        text_model::validate_plan_request(&config, &small).unwrap_err(),
        "Creative plan dimensions must be between 320 and 4096 pixels."
    );
    config.mode = TextProviderMode::Disabled;
    assert_eq!(
        text_model::validate_plan_request(&config, &brief("a", "web-hero")).unwrap_err(),
        "Enable the local text model in Engine settings first."
    );
    let probe = text_model::disabled_probe(&config);
    assert!(!probe.ready);
    assert_eq!(probe.summary, "Local text and design generation is disabled.");
    let probe = text_model::probe_result(&config, false, 404, "nope");
    assert_eq!(probe.summary, "Local text endpoint returned HTTP 404.");
    assert_eq!(probe.output, "nope");
    assert_eq!(
        text_model::creative_user_prompt(&brief("  Hero for a cafe ", "web-hero")),
        "Creative brief:\nHero for a cafe\n\nRequested template: web-hero\nCanvas: 1400 x 900 pixels. Preserve useful negative space for SVG copy."
    );
    assert_eq!(text_model::http_error_message(500, "bad"), "Local text model returned HTTP 500: bad");
    assert!(text_model::system_prompt().starts_with("You are the creative director"));
}

#[test]
fn json_object_extraction() {
    assert_eq!(
        text_model::extract_json_object("Sure: {\"a\": {\"b\": 1}} done"),
        Ok("{\"a\": {\"b\": 1}}".to_string())
    );
    assert_eq!(
        text_model::extract_json_object("no json"),
        Err("Creative plan response did not contain a JSON object.".to_string())
    );
    assert_eq!(
        text_model::extract_json_object("{ open"),
        Err("Creative plan response did not contain a complete JSON object.".to_string())
    );
    assert_eq!(
        text_model::extract_json_object("} then {"),
        Err("Creative plan response contained malformed JSON.".to_string())
    );
}

#[test]
fn plan_normalization() {
    let mut plan = CreativePlan {
        template: "billboard".to_string(),
        eyebrow: format!("  {}  ", "e".repeat(40)),
        title: "  Title  ".to_string(),
        subtitle: "s".repeat(200),
        cta: " Go ".to_string(),
        image_prompt: " a scene ".to_string(),
        negative_prompt: " text ".to_string(),
    };
    assert!(text_model::normalize_plan(&mut plan, &brief("b", "web-hero")).is_ok());
    assert_eq!(plan.template, "web-hero");
    assert_eq!(plan.eyebrow, "e".repeat(32));
    assert_eq!(plan.title, "Title");
    assert_eq!(plan.subtitle.chars().count(), 180);
    assert_eq!(plan.cta, "Go");
    assert_eq!(plan.image_prompt, "a scene");
    assert_eq!(plan.negative_prompt, "text");
    let mut kept = plan.clone();
    kept.template = "feature-poster".to_string();
    kept.title = "   ".to_string();
    assert_eq!(
        text_model::normalize_plan(&mut kept, &brief("b", "web-hero")).unwrap_err(),
        "Creative plan must include a headline and image prompt."
    );
    assert_eq!(kept.template, "feature-poster");
}

#[test]
fn automation_access_and_replies() {
    assert!(authorized("secret-token", Some("Bearer secret-token")));
    assert!(!authorized("secret-token", Some("Bearer other")));
    assert!(!authorized("secret-token", Some("bearer secret-token")));
    assert!(!authorized("secret-token", None));
    assert!(check_access("t", Some("Bearer t")).is_ok());
    let refused = check_access("t", Some("Basic t")).unwrap_err();
    assert_eq!(refused.status, 401);
    assert_eq!(refused.message, "Missing or invalid bearer token");
    let missing = check_access("t", None).unwrap_err();
    assert_eq!((missing.status, missing.message.as_str()), (401, "Missing or invalid bearer token"));
    assert_eq!(unauthorized().status, 401);
    let bad = bad_request("Prompt cannot be empty.".to_string());
    assert_eq!((bad.status, bad.message.as_str()), (400, "Prompt cannot be empty."));
    assert_eq!(bind_address(4762), "127.0.0.1:4762");
    let status = running_status(4762, "tok".to_string());
    assert!(status.running);
    assert_eq!(status.address, "http://127.0.0.1:4762");
    assert_eq!(status.token, "tok");
    let job = new_job("j".to_string(), server_request(), Timestamp { seconds: 1, nanos: 0 });
    assert_eq!(job_reply(Some(job)).unwrap().id, "j");
    let not_found = job_reply(None).unwrap_err();
    assert_eq!((not_found.status, not_found.message.as_str()), (404, "Job not found"));
}

#[test]
fn server_replies_are_read_by_json_pointer() {
    assert_eq!(submitted_job_id("{\"id\":\"job-42\",\"status\":\"queued\"}"), Ok("job-42".to_string()));
    assert_eq!(
        submitted_job_id("{\"id\":7}"),
        Err("stable-diffusion.cpp server response did not include a job id.".to_string())
    );
    assert!(submitted_job_id("not json").unwrap_err().starts_with("stable-diffusion.cpp server returned invalid JSON: "));
    assert_eq!(
        poll_fields("{\"status\":\"failed\",\"error\":{\"message\":\"oom\"}}"),
        Ok((Some("failed".to_string()), Some("oom".to_string())))
    );
    assert_eq!(poll_fields("{\"progress\":3}"), Ok((None, None)));
    assert!(poll_fields("{").unwrap_err().starts_with("stable-diffusion.cpp server job poll returned invalid JSON: "));
    let (status, error) = poll_fields("{\"status\":\"completed\"}").unwrap();
    assert!(matches!(classify_poll(status.as_deref(), error.as_deref()), PollOutcome::Completed));
    assert_eq!(
        completed_image_b64("{\"result\":{\"images\":[{\"b64_json\":\"aGVsbG8=\"}]}}"),
        Ok("aGVsbG8=".to_string())
    );
    assert_eq!(
        completed_image_b64("{\"result\":{\"images\":[]}}"),
        Err("stable-diffusion.cpp server completed without an image.".to_string())
    );
}

#[test]
fn planner_reply_content_is_read_by_json_pointer() {
    assert_eq!(
        text_model::plan_message_content("{\"choices\":[{\"message\":{\"content\":\"{\\\"title\\\":\\\"x\\\"}\"}}]}"),
        Ok("{\"title\":\"x\"}".to_string())
    );
    assert_eq!(
        text_model::plan_message_content("{\"choices\":[]}"),
        Err("Local text model response did not contain message content.".to_string())
    );
    assert!(text_model::plan_message_content("<html>").unwrap_err().starts_with("Local text model returned invalid JSON: "));
}

#[test]
fn server_plan_carries_seed_and_steps() {
    let mut req = server_request();
    req.loras.clear();
    req.steps = 6;
    let plan = plan_server_generation(&req, &engine("http://h:1"), &model(), "/out").unwrap();
    assert_eq!(plan.seed, -1);
    assert_eq!(plan.sample_steps, 6);
    req.seed = Some(42);
    assert_eq!(plan_server_generation(&req, &engine("http://h:1"), &model(), "/out").unwrap().seed, 42);
    req.seed = Some(u64::MAX);
    assert_eq!(plan_server_generation(&req, &engine("http://h:1"), &model(), "/out").unwrap().seed, -1);
}

#[test]
fn mock_planner_answers_without_a_model() {
    let config = AppConfig::default().text_model;
    let plan = text_model::offline_plan(&config, &brief("  Premium web hero for a consultancy ", "web-hero"))
        .unwrap()
        .unwrap();
    assert_eq!(plan.template, "web-hero");
    assert_eq!(plan.title, "Premium web hero for a consultancy");
    assert!(plan.image_prompt.contains("Premium web hero for a consultancy"));
    assert_eq!(plan.eyebrow, "Mock creative plan");
    let other = text_model::mock_creative_plan(&brief(&"x".repeat(100), "billboard"));
    assert_eq!(other.template, "feature-poster");
    assert_eq!(other.title.chars().count(), 72);
    let mut live = config.clone();
    live.mode = TextProviderMode::OpenAiCompatible;
    assert!(text_model::offline_plan(&live, &brief("a", "web-hero")).unwrap().is_none());
    assert_eq!(
        text_model::offline_plan(&config, &brief(" ", "web-hero")).unwrap_err(),
        "Add a creative brief before generating a design plan."
    );
}

#[test]
fn start_launches_only_without_a_running_child() {
    assert!(start_launches(ChildState::Absent));
    assert!(start_launches(ChildState::Exited));
    assert!(!start_launches(ChildState::Running));
}
