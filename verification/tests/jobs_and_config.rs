use imgen_pro::config::{
    active_model, capability_summary, default_sd_server_url, find_enabled_model, validate_config,
    DEFAULT_TEMPERATURE_BITS,
};
use imgen_pro::jobs::{default_job_phase, new_job, validate_request, JobStore, ProgressSnapshot};
use imgen_pro::models::{
    AppConfig, AssetKind, BackendPreference, EngineMode, GeneratedAsset, GenerationRequest,
    JobStatus, ModelProfile, TextModelConfig, TextProviderMode, Timestamp,
};
use imgen_pro::paths::join_path;

fn request(prompt: &str) -> GenerationRequest {
    GenerationRequest {
        prompt: prompt.to_string(),
        negative_prompt: "blurry".to_string(),
        model_id: "primary-model".to_string(),
        width: 1024,
        height: 576,
        steps: 4,
        seed: Some(42),
        loras: Vec::new(),
    }
}

fn at(seconds: i64) -> Timestamp {
    Timestamp { seconds, nanos: 0 }
}

fn asset(id: &str) -> GeneratedAsset {
    GeneratedAsset {
        id: id.to_string(),
        path: format!("/out/{id}.png"),
        mime_type: "image/png".to_string(),
        width: 1024,
        height: 576,
        kind: AssetKind::Image,
    }
}

fn is_uuid_v4(text: &str) -> bool {
    let bytes = text.as_bytes();
    text.len() == 36
        && bytes[8] == b'-'
        && bytes[13] == b'-'
        && bytes[18] == b'-'
        && bytes[23] == b'-'
        && bytes[14] == b'4'
        && text.chars().all(|c| c == '-' || c.is_ascii_digit() || ('a'..='f').contains(&c))
}

#[test]
fn validate_request_reports_each_error() {
    assert!(validate_request(&request("a cat")).is_ok());
    assert_eq!(validate_request(&request("  \n")).unwrap_err(), "Prompt cannot be empty.");
    let mut narrow = request("a cat");
    narrow.width = 255;
    assert_eq!(
        validate_request(&narrow).unwrap_err(),
        "Width and height must be between 256 and 2048 pixels."
    );
    let mut tall = request("a cat");
    tall.height = 2049;
    assert_eq!(
        validate_request(&tall).unwrap_err(),
        "Width and height must be between 256 and 2048 pixels."
    );
    let mut no_steps = request("a cat");
    no_steps.steps = 0;
    assert_eq!(validate_request(&no_steps).unwrap_err(), "Steps must be between 1 and 100.");
    let mut many = request("a cat");
    many.steps = 101;
    assert_eq!(validate_request(&many).unwrap_err(), "Steps must be between 1 and 100.");
    let mut edges = request("a cat");
    edges.width = 256;
    edges.height = 2048;
    edges.steps = 100;
    assert!(validate_request(&edges).is_ok());
}

#[test]
fn new_job_is_queued_with_one_log_line() {
    let job = new_job("job-1".to_string(), request("a cat"), at(10));
    assert_eq!(job.id, "job-1");
    assert_eq!(job.status, JobStatus::Queued);
    assert_eq!(job.progress, 0);
    assert_eq!(job.phase, "Queued");
    assert_eq!(default_job_phase(), "Queued");
    assert_eq!(job.created_at, at(10));
    assert_eq!(job.updated_at, at(10));
    assert!(job.output.is_none() && job.error_message.is_none());
    assert_eq!(job.logs, vec!["Job accepted by the local queue.".to_string()]);
}

#[test]
fn store_reads_back_what_was_written() {
    let mut store = JobStore::new();
    assert!(store.get_job("job-1").is_none());
    store.insert_job(new_job("job-1".to_string(), request("a cat"), at(10)));
    let read = store.get_job("job-1").unwrap();
    assert_eq!(read.request.prompt, "a cat");
    assert_eq!(read.status, JobStatus::Queued);
    let mut replaced = new_job("job-1".to_string(), request("a dog"), at(11));
    replaced.progress = 3;
    store.insert_job(replaced);
    assert_eq!(store.get_job("job-1").unwrap().request.prompt, "a dog");
    assert_eq!(store.list_jobs().len(), 1);
}

#[test]
fn list_jobs_is_newest_first() {
    let mut store = JobStore::new();
    store.insert_job(new_job("old".to_string(), request("a"), at(1)));
    store.insert_job(new_job("new".to_string(), request("b"), at(3)));
    store.insert_job(new_job("mid".to_string(), request("c"), at(2)));
    let ids: Vec<String> = store.list_jobs().into_iter().map(|job| job.id).collect();
    assert_eq!(ids, vec!["new".to_string(), "mid".to_string(), "old".to_string()]);
}

#[test]
fn from_jobs_keeps_the_last_of_duplicate_ids() {
    let store = JobStore::from_jobs(vec![
        new_job("a".to_string(), request("first"), at(1)),
        new_job("b".to_string(), request("other"), at(2)),
        new_job("a".to_string(), request("second"), at(3)),
    ]);
    assert_eq!(store.list_jobs().len(), 2);
    assert_eq!(store.get_job("a").unwrap().request.prompt, "second");
}

#[test]
fn cancel_only_queued_jobs() {
    let mut store = JobStore::new();
    store.insert_job(new_job("q".to_string(), request("a"), at(1)));
    store.insert_job(new_job("r".to_string(), request("b"), at(1)));
    assert!(store.start_at("r", at(2)));
    assert_eq!(store.cancel_at("missing", at(3)), Ok(false));
    assert_eq!(
        store.cancel_at("r", at(3)),
        Err("Running-process cancellation is intentionally deferred until the process supervisor milestone."
            .to_string())
    );
    assert_eq!(store.get_job("r").unwrap().status, JobStatus::Running);
    assert_eq!(store.cancel_at("q", at(4)), Ok(true));
    let cancelled = store.get_job("q").unwrap();
    assert_eq!(cancelled.status, JobStatus::Cancelled);
    assert_eq!(cancelled.updated_at, at(4));
    assert_eq!(cancelled.logs.last().unwrap(), "Job cancelled before execution.");
    assert_eq!(store.cancel_at("q", at(5)), Ok(false));
}

#[test]
fn cancelled_job_is_never_started() {
    let mut store = JobStore::new();
    store.insert_job(new_job("q".to_string(), request("a"), at(1)));
    assert_eq!(store.cancel_at("q", at(2)), Ok(true));
    assert!(!store.start_at("q", at(3)));
    assert_eq!(store.get_job("q").unwrap().status, JobStatus::Cancelled);
    assert!(!store.start_at("missing", at(3)));
}

#[test]
fn job_life_cycle_records_outcomes() {
    let mut store = JobStore::new();
    store.insert_job(new_job("j".to_string(), request("a"), at(1)));
    assert!(store.start_at("j", at(2)));
    let running = store.get_job("j").unwrap();
    assert_eq!(running.status, JobStatus::Running);
    assert_eq!(running.progress, 8);
    assert_eq!(running.logs.last().unwrap(), "Generation worker started.");

    let snapshot = ProgressSnapshot::new(150, "Sampling", Some(12), Some(30));
    assert!(store.update_progress_at("j", snapshot, at(3)));
    let progressed = store.get_job("j").unwrap();
    assert_eq!(progressed.progress, 99);
    assert_eq!(progressed.phase, "Sampling");
    assert_eq!(progressed.elapsed_seconds, Some(12));
    assert_eq!(progressed.eta_seconds, Some(30));
    assert!(store.update_progress_at("j", ProgressSnapshot::new(40, "Decoding image", None, None), at(4)));
    assert_eq!(store.get_job("j").unwrap().progress, 40);

    assert!(store.complete_at("j", asset("img"), vec!["line one".to_string(), "line two".to_string()], at(5)));
    let done = store.get_job("j").unwrap();
    assert_eq!(done.status, JobStatus::Completed);
    assert_eq!(done.progress, 100);
    assert_eq!(done.output.as_ref().unwrap().id, "img");
    assert!(done.error_message.is_none());
    assert_eq!(&done.logs[done.logs.len() - 2..], &["line one".to_string(), "line two".to_string()]);
    assert!(!store.complete_at("missing", asset("x"), Vec::new(), at(6)));
}

#[test]
fn failure_is_recorded_with_message() {
    let mut store = JobStore::new();
    store.insert_job(new_job("j".to_string(), request("a"), at(1)));
    assert!(store.fail_at("j", "engine crashed", at(2)));
    let failed = store.get_job("j").unwrap();
    assert_eq!(failed.status, JobStatus::Failed);
    assert_eq!(failed.progress, 100);
    assert_eq!(failed.error_message.as_deref(), Some("engine crashed"));
    assert_eq!(failed.logs.last().unwrap(), "engine crashed");
    assert!(!store.fail_at("missing", "x", at(3)));
    assert!(!store.update_progress_at("missing", ProgressSnapshot::new(1, "x", None, None), at(3)));
}

#[test]
fn enqueue_validates_and_stores_a_queued_job() {
    let mut store = JobStore::new();
    assert_eq!(store.enqueue(request(" ")).unwrap_err(), "Prompt cannot be empty.");
    assert!(store.list_jobs().is_empty());
    let job = store.enqueue(request("a cat")).unwrap();
    assert!(is_uuid_v4(&job.id));
    assert_eq!(job.status, JobStatus::Queued);
    assert_eq!(job.logs, vec!["Job accepted by the local queue.".to_string()]);
    assert_eq!(store.get_job(&job.id).unwrap().request.prompt, "a cat");
    let second = store.enqueue(request("a dog")).unwrap();
    assert_ne!(job.id, second.id);
    assert!(store.start(&job.id));
    assert_eq!(store.cancel(&second.id), Ok(true));
    assert!(store.complete(&job.id, asset("a"), Vec::new()));
    assert!(store.fail(&second.id, "late failure"));
    assert!(store.update_progress(&job.id, ProgressSnapshot::new(5, "x", None, None)));
}

#[test]
fn default_configuration_matches_first_run() {
    let config = AppConfig::default();
    assert_eq!(config.engine.mode, EngineMode::Mock);
    assert_eq!(config.engine.server_url, "http://127.0.0.1:1234");
    assert_eq!(default_sd_server_url(), "http://127.0.0.1:1234");
    assert_eq!(config.engine.backend, BackendPreference::Vulkan);
    assert_eq!(config.engine.active_model_id, "primary-model");
    assert_eq!(config.engine.models.len(), 1);
    assert_eq!(config.engine.models[0].label, "Primary local model");
    assert_eq!(config.engine.models[0].family, "flux");
    assert_eq!(config.engine.models[0].default_steps, 4);
    assert_eq!(config.text_model.mode, TextProviderMode::Mock);
    assert_eq!(config.text_model.base_url, "http://127.0.0.1:8080/v1");
    assert_eq!(config.text_model.model, "local-model");
    assert_eq!(f32::from_bits(config.text_model.temperature_bits), 0.7_f32);
    assert_eq!(DEFAULT_TEMPERATURE_BITS, 0.7_f32.to_bits());
    assert_eq!(config.text_model.max_tokens, 700);
    assert!(!config.automation.enabled);
    assert_eq!(config.automation.port, 4762);
    assert!(is_uuid_v4(&config.automation.token));
    assert!(validate_config(&config).is_ok());
    let text = TextModelConfig::default();
    assert_eq!(text.max_tokens, 700);
}

#[test]
fn validate_config_reports_each_error() {
    let base = AppConfig::default();

    let mut c = base.clone();
    c.engine.models.clear();
    assert_eq!(validate_config(&c).unwrap_err(), "At least one model profile is required.");

    let mut c = base.clone();
    c.engine.active_model_id = "other".to_string();
    assert_eq!(validate_config(&c).unwrap_err(), "The active model ID does not match a model profile.");

    let mut c = base.clone();
    c.text_model.base_url = " ".to_string();
    assert_eq!(validate_config(&c).unwrap_err(), "Local text model base URL cannot be empty.");

    let mut c = base.clone();
    c.text_model.model = String::new();
    assert_eq!(validate_config(&c).unwrap_err(), "Local text model name cannot be empty.");

    let mut c = base.clone();
    c.text_model.temperature_bits = 2.5_f32.to_bits();
    assert_eq!(validate_config(&c).unwrap_err(), "Local text model temperature must be between 0 and 2.");
    c.text_model.temperature_bits = (-0.1_f32).to_bits();
    assert_eq!(validate_config(&c).unwrap_err(), "Local text model temperature must be between 0 and 2.");
    c.text_model.temperature_bits = f32::NAN.to_bits();
    assert_eq!(validate_config(&c).unwrap_err(), "Local text model temperature must be between 0 and 2.");
    c.text_model.temperature_bits = 2.0_f32.to_bits();
    assert!(validate_config(&c).is_ok());
    c.text_model.temperature_bits = (-0.0_f32).to_bits();
    assert!(validate_config(&c).is_ok());

    let mut c = base.clone();
    c.text_model.max_tokens = 63;
    assert_eq!(validate_config(&c).unwrap_err(), "Local text model max tokens must be between 64 and 8192.");
    c.text_model.max_tokens = 8193;
    assert_eq!(validate_config(&c).unwrap_err(), "Local text model max tokens must be between 64 and 8192.");

    let mut c = base.clone();
    c.text_model.mode = TextProviderMode::Disabled;
    c.text_model.base_url = String::new();
    c.text_model.max_tokens = 0;
    assert!(validate_config(&c).is_ok());

    let mut c = base.clone();
    c.automation.port = 0;
    assert_eq!(validate_config(&c).unwrap_err(), "Automation port must be greater than zero.");

    let mut c = base.clone();
    c.automation.token = "  short-token  ".to_string();
    assert_eq!(validate_config(&c).unwrap_err(), "Automation token must contain at least 12 characters.");
    c.automation.token = "exactly12chr".to_string();
    assert!(validate_config(&c).is_ok());
    c.automation.token = "\u{e9}\u{e9}\u{e9}\u{e9}\u{e9}\u{e9}".to_string();
    assert!(validate_config(&c).is_ok());
}

#[test]
fn capability_summary_follows_text_mode() {
    let mut config = AppConfig::default();
    let summary = capability_summary(&config);
    assert!(summary.image_generation && summary.loras && summary.svg_composition && summary.automation_api);
    assert!(!summary.video_generation);
    assert!(summary.text_design_generation);
    assert_eq!(summary.engine_mode, EngineMode::Mock);
    config.text_model.mode = TextProviderMode::Disabled;
    config.engine.mode = EngineMode::StableDiffusionCppServer;
    let summary = capability_summary(&config);
    assert!(!summary.text_design_generation);
    assert_eq!(summary.engine_mode, EngineMode::StableDiffusionCppServer);
}

fn profile(id: &str, enabled: bool) -> ModelProfile {
    let mut m = AppConfig::default().engine.models[0].clone();
    m.id = id.to_string();
    m.label = format!("label {id}");
    m.enabled = enabled;
    m
}

#[test]
fn active_model_picks_first_enabled_match() {
    let mut config = AppConfig::default();
    config.engine.models = vec![profile("a", false), profile("a", true), profile("b", true)];
    config.engine.active_model_id = "a".to_string();
    assert_eq!(active_model(&config).unwrap().label, "label a");
    assert!(active_model(&config).unwrap().enabled);
    config.engine.active_model_id = "c".to_string();
    assert_eq!(active_model(&config).unwrap_err(), "Model profile 'c' is not available.");
    config.engine.models = vec![profile("c", false)];
    assert_eq!(active_model(&config).unwrap_err(), "Model profile 'c' is not available.");
    assert_eq!(find_enabled_model(&vec![profile("b", true)], "b").unwrap().id, "b");
}

#[test]
fn paths_join_under_root() {
    let paths = imgen_pro::models::AppPaths::under_root("/data/imgen");
    assert_eq!(paths.config_file, "/data/imgen/config.json");
    assert_eq!(paths.jobs_file, "/data/imgen/jobs.json");
    assert_eq!(paths.outputs, join_path("/data/imgen", "outputs"));
    assert_eq!(paths.designs, "/data/imgen/designs");
}

#[test]
fn listed_jobs_reload_into_the_same_store() {
    let mut store = JobStore::new();
    store.insert_job(new_job("a".to_string(), request("first"), at(1)));
    store.insert_job(new_job("b".to_string(), request("second"), at(2)));
    assert!(store.start_at("b", at(3)));
    assert!(store.fail_at("b", "broken", at(4)));
    let listed = store.list_jobs();
    let reloaded = JobStore::from_jobs(listed.clone());
    let again = reloaded.list_jobs();
    assert_eq!(again.len(), listed.len());
    for (x, y) in listed.iter().zip(again.iter()) {
        assert_eq!(x.id, y.id);
        assert_eq!(x.status, y.status);
        assert_eq!(x.logs, y.logs);
        assert_eq!(x.updated_at, y.updated_at);
        assert_eq!(x.error_message, y.error_message);
    }
}

#[test]
fn one_job_runs_at_a_time() {
    let mut store = JobStore::new();
    store.insert_job(new_job("a".to_string(), request("first"), at(1)));
    store.insert_job(new_job("b".to_string(), request("second"), at(2)));
    assert!(store.start_at("a", at(3)));
    assert!(!store.start_at("b", at(4)));
    assert_eq!(store.get_job("b").unwrap().status, JobStatus::Queued);
    assert!(store.complete_at("a", asset("a"), Vec::new(), at(5)));
    assert!(!store.start_at("a", at(6)));
    assert!(store.start_at("b", at(6)));
    assert!(store.fail_at("b", "boom", at(7)));
    assert!(!store.start_at("b", at(8)));
    store.insert_job(new_job("c".to_string(), request("third"), at(9)));
    assert!(store.fail_at("c", "Generation queue is unavailable.", at(9)));
    assert!(!store.start_at("c", at(10)));
    let running = store.list_jobs().into_iter().filter(|j| j.status == JobStatus::Running).count();
    assert_eq!(running, 0);
}
