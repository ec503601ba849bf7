//! Configuration: defaults, validation of a configuration before it is
//! saved, the capability summary, and the choice of model profile.

use vstd::prelude::*;
use crate::ids;
use crate::models::{
    AppConfig, AutomationConfig, BackendPreference, CapabilitySummary, EngineConfig, EngineMode,
    ModelProfile, TextModelConfig, TextProviderMode, same_model_profile,
};
use crate::text::{is_blank, is_blank_spec, owned, trim, trim_spec, utf8_len, utf8_len_at_least};

verus! {

/// The bit pattern of the `f32` value 0.7, the default temperature.
pub const DEFAULT_TEMPERATURE_BITS: u32 = 0x3F33_3333;

/// The default address of a stable-diffusion.cpp server.
pub open spec fn default_server_url_spec() -> Seq<char> {
    "http://127.0.0.1:1234"@
}

/// The default address of a stable-diffusion.cpp server.
pub fn default_sd_server_url() -> (url: String)
    ensures
        url@ == default_server_url_spec(),
{
    owned("http://127.0.0.1:1234")
}

impl Default for TextModelConfig {
    /// The mock planner, pointed at a llama.cpp server on the default port.
    fn default() -> (c: Self)
        ensures
            c.mode == TextProviderMode::Mock,
            c.base_url@ == "http://127.0.0.1:8080/v1"@,
            c.model@ == "local-model"@,
            c.api_key@.len() == 0,
            c.temperature_bits == DEFAULT_TEMPERATURE_BITS,
            c.max_tokens == 700,
    {
        TextModelConfig {
            mode: TextProviderMode::Mock,
            base_url: owned("http://127.0.0.1:8080/v1"),
            model: owned("local-model"),
            api_key: String::new(),
            temperature_bits: DEFAULT_TEMPERATURE_BITS,
            max_tokens: 700,
        }
    }
}

impl Default for AppConfig {
    /// The first-run configuration: the mock engine with one enabled
    /// primary model profile, the mock text planner, and the automation API
    /// disabled on port 4762 with a fresh random token.
    fn default() -> (c: Self)
        ensures
            c.engine.mode == EngineMode::Mock,
            c.engine.binary_path@.len() == 0,
            c.engine.server_binary_path@.len() == 0,
            c.engine.server_url@ == default_server_url_spec(),
            c.engine.backend == BackendPreference::Vulkan,
            c.engine.active_model_id@ == "primary-model"@,
            c.engine.models.len() == 1,
            c.engine.models@[0].id@ == "primary-model"@,
            c.engine.models@[0].label@ == "Primary local model"@,
            c.engine.models@[0].family@ == "flux"@,
            c.engine.models@[0].enabled,
            c.engine.models@[0].model_path@.len() == 0,
            c.engine.models@[0].diffusion_model_path@.len() == 0,
            c.engine.models@[0].vae_path@.len() == 0,
            c.engine.models@[0].clip_l_path@.len() == 0,
            c.engine.models@[0].t5xxl_path@.len() == 0,
            c.engine.models@[0].llm_path@.len() == 0,
            c.engine.models@[0].lora_directory@.len() == 0,
            c.engine.models@[0].extra_args.len() == 0,
            c.engine.models@[0].default_steps == 4,
            c.engine.loras.len() == 0,
            c.text_model.mode == TextProviderMode::Mock,
            c.text_model.base_url@ == "http://127.0.0.1:8080/v1"@,
            c.text_model.model@ == "local-model"@,
            c.text_model.api_key@.len() == 0,
            c.text_model.temperature_bits == DEFAULT_TEMPERATURE_BITS,
            c.text_model.max_tokens == 700,
            !c.automation.enabled,
            c.automation.port == 4762,
            ids::is_uuid_v4_text(c.automation.token@),
    {
        let mut models: Vec<ModelProfile> = Vec::new();
        models.push(
            ModelProfile {
                id: owned("primary-model"),
                label: owned("Primary local model"),
                family: owned("flux"),
                enabled: true,
                model_path: String::new(),
                diffusion_model_path: String::new(),
                vae_path: String::new(),
                clip_l_path: String::new(),
                t5xxl_path: String::new(),
                llm_path: String::new(),
                lora_directory: String::new(),
                extra_args: Vec::new(),
                default_steps: 4,
            },
        );
        AppConfig {
            engine: EngineConfig {
                mode: EngineMode::Mock,
                binary_path: String::new(),
                server_binary_path: String::new(),
                server_url: default_sd_server_url(),
                backend: BackendPreference::Vulkan,
                active_model_id: owned("primary-model"),
                models,
                loras: Vec::new(),
            },
            text_model: TextModelConfig::default(),
            automation: AutomationConfig { enabled: false, port: 4762, token: ids::new_uuid_text() },
        }
    }
}

/// Whether the `f32` with bit pattern `bits` lies in `0.0..=2.0`.  Among
/// IEEE-754 single-precision values these are `-0.0` (`0x8000_0000`) and the
/// non-negative values up to 2.0, whose patterns are `0` to `0x4000_0000`
/// in the same order as the values; NaN patterns lie outside both.
pub open spec fn temperature_in_range(bits: u32) -> bool {
    bits <= 0x4000_0000 || bits == 0x8000_0000
}

/// Whether some profile in `models` has id `id`.
pub open spec fn has_model(models: Seq<ModelProfile>, id: Seq<char>) -> bool {
    exists|i: int| 0 <= i < models.len() && #[trigger] models[i].id@ == id
}

/// Why a configuration may not be saved, if it may not.
pub open spec fn config_error(c: AppConfig) -> Option<Seq<char>> {
    if c.engine.models.len() == 0 {
        Some("At least one model profile is required."@)
    } else if !has_model(c.engine.models@, c.engine.active_model_id@) {
        Some("The active model ID does not match a model profile."@)
    } else if c.text_model.mode != TextProviderMode::Disabled && is_blank_spec(c.text_model.base_url@) {
        Some("Local text model base URL cannot be empty."@)
    } else if c.text_model.mode != TextProviderMode::Disabled && is_blank_spec(c.text_model.model@) {
        Some("Local text model name cannot be empty."@)
    } else if c.text_model.mode != TextProviderMode::Disabled && !temperature_in_range(
        c.text_model.temperature_bits,
    ) {
        Some("Local text model temperature must be between 0 and 2."@)
    } else if c.text_model.mode != TextProviderMode::Disabled && !(64 <= c.text_model.max_tokens
        <= 8192) {
        Some("Local text model max tokens must be between 64 and 8192."@)
    } else if c.automation.port == 0 {
        Some("Automation port must be greater than zero."@)
    } else if utf8_len(trim_spec(c.automation.token@)) < 12 {
        Some("Automation token must contain at least 12 characters."@)
    } else {
        None
    }
}

/// Checks a configuration before it is saved: at least one model profile,
/// an active model id that names one, sane text-model settings when the
/// text model is enabled, a non-zero automation port, and an automation
/// token of at least 12 UTF-8 bytes once trimmed.  The first problem is reported.
pub fn validate_config(config: &AppConfig) -> (r: Result<(), String>)
    ensures
        r is Ok <==> config_error(*config) is None,
        r is Err ==> Some(r->Err_0@) == config_error(*config),
{
    if config.engine.models.len() == 0 {
        return Err(owned("At least one model profile is required."));
    }
    let mut found = false;
    let mut i: usize = 0;
    while i < config.engine.models.len()
        invariant
            i <= config.engine.models.len(),
            found == exists|k: int| 0 <= k < i && #[trigger] config.engine.models@[k].id@
                == config.engine.active_model_id@,
        decreases config.engine.models.len() - i,
    {
        if crate::text::str_equal(config.engine.models[i].id.as_str(), config.engine.active_model_id.as_str()) {
            found = true;
        }
        i = i + 1;
    }
    if !found {
        return Err(owned("The active model ID does not match a model profile."));
    }
    if config.text_model.mode != TextProviderMode::Disabled {
        if is_blank(config.text_model.base_url.as_str()) {
            return Err(owned("Local text model base URL cannot be empty."));
        }
        if is_blank(config.text_model.model.as_str()) {
            return Err(owned("Local text model name cannot be empty."));
        }
        let bits = config.text_model.temperature_bits;
        if !(bits <= 0x4000_0000 || bits == 0x8000_0000) {
            return Err(owned("Local text model temperature must be between 0 and 2."));
        }
        if !(64 <= config.text_model.max_tokens && config.text_model.max_tokens <= 8192) {
            return Err(owned("Local text model max tokens must be between 64 and 8192."));
        }
    }
    if config.automation.port == 0 {
        return Err(owned("Automation port must be greater than zero."));
    }
    let token = trim(config.automation.token.as_str());
    if !utf8_len_at_least(token.as_str(), 12) {
        return Err(owned("Automation token must contain at least 12 characters."));
    }
    Ok(())
}

/// What the application can do with `config`: image generation, LoRAs,
/// SVG composition and the automation API always; video never; text and
/// design drafting unless the text model is disabled.
pub fn capability_summary(config: &AppConfig) -> (s: CapabilitySummary)
    ensures
        s.image_generation,
        !s.video_generation,
        s.loras,
        s.svg_composition,
        s.text_design_generation == (config.text_model.mode != TextProviderMode::Disabled),
        s.automation_api,
        s.engine_mode == config.engine.mode,
{
    CapabilitySummary {
        image_generation: true,
        video_generation: false,
        loras: true,
        svg_composition: true,
        text_design_generation: config.text_model.mode != TextProviderMode::Disabled,
        automation_api: true,
        engine_mode: config.engine.mode,
    }
}

/// Whether profile `i` is the first enabled profile with id `id`.
pub open spec fn first_enabled_with_id(models: Seq<ModelProfile>, id: Seq<char>, i: int) -> bool {
    &&& 0 <= i < models.len()
    &&& models[i].id@ == id
    &&& models[i].enabled
    &&& forall|k: int| 0 <= k < i ==> !(#[trigger] models[k].id@ == id && models[k].enabled)
}

/// Whether some profile is enabled and has id `id`.
pub open spec fn has_enabled_model(models: Seq<ModelProfile>, id: Seq<char>) -> bool {
    exists|i: int| 0 <= i < models.len() && #[trigger] models[i].id@ == id && models[i].enabled
}

/// The message for a model id that no enabled profile has.
pub open spec fn model_unavailable_message(id: Seq<char>) -> Seq<char> {
    "Model profile '"@ + id + "' is not available."@
}

/// The first enabled profile with id `id`, or the reason there is none.
pub fn find_enabled_model(models: &Vec<ModelProfile>, id: &str) -> (r: Result<ModelProfile, String>)
    ensures
        r is Ok <==> has_enabled_model(models@, id@),
        r is Ok ==> exists|i: int| first_enabled_with_id(models@, id@, i) && same_model_profile(
            r->Ok_0,
            #[trigger] models@[i],
        ),
        r is Err ==> r->Err_0@ == model_unavailable_message(id@),
{
    let mut i: usize = 0;
    while i < models.len()
        invariant
            i <= models.len(),
            forall|k: int| 0 <= k < i ==> !(#[trigger] models@[k].id@ == id@ && models@[k].enabled),
        decreases models.len() - i,
    {
        if models[i].enabled && crate::text::str_equal(models[i].id.as_str(), id) {
            let p = models[i].copy();
            assert(first_enabled_with_id(models@, id@, i as int));
            return Ok(p);
        }
        i = i + 1;
    }
    let mut message = owned("Model profile '");
    crate::text::append(&mut message, id);
    crate::text::append(&mut message, "' is not available.");
    Err(message)
}

/// The enabled profile named by the configuration's active model id.
pub fn active_model(config: &AppConfig) -> (r: Result<ModelProfile, String>)
    ensures
        r is Ok <==> has_enabled_model(config.engine.models@, config.engine.active_model_id@),
        r is Ok ==> exists|i: int|
            first_enabled_with_id(config.engine.models@, config.engine.active_model_id@, i)
                && same_model_profile(r->Ok_0, #[trigger] config.engine.models@[i]),
        r is Err ==> r->Err_0@ == model_unavailable_message(config.engine.active_model_id@),
{
    find_enabled_model(&config.engine.models, config.engine.active_model_id.as_str())
}

/// A configuration that validation accepts is usable: it has a model
/// profile with the active id, a non-zero automation port and a token of at
/// least 12 bytes once trimmed; and whenever the text model is not disabled
/// (the mock planner and an OpenAI-compatible model alike), its base URL and
/// model name are set, its temperature lies in 0..=2 and its token limit in
/// 64..=8192.
pub proof fn law_accepted_config_is_usable(c: AppConfig)
    requires
        config_error(c) is None,
    ensures
        c.engine.models.len() > 0,
        exists|i: int| 0 <= i < c.engine.models.len() && #[trigger] c.engine.models@[i].id@ == c.engine.active_model_id@,
        c.automation.port != 0,
        utf8_len(trim_spec(c.automation.token@)) >= 12,
        c.text_model.mode != TextProviderMode::Disabled ==> {
            &&& !is_blank_spec(c.text_model.base_url@)
            &&& !is_blank_spec(c.text_model.model@)
            &&& (c.text_model.temperature_bits <= 0x4000_0000 || c.text_model.temperature_bits == 0x8000_0000)
            &&& 64 <= c.text_model.max_tokens <= 8192
        },
{
}

/// Validation refuses a configuration whose enabled text model, mock or
/// OpenAI-compatible, lacks a base URL or a model name or has a
/// temperature outside 0..=2 or a token limit outside 64..=8192.
pub proof fn law_enabled_text_model_is_checked(c: AppConfig)
    requires
        c.text_model.mode == TextProviderMode::Mock || c.text_model.mode == TextProviderMode::OpenAiCompatible,
        is_blank_spec(c.text_model.base_url@) || is_blank_spec(c.text_model.model@) || !(c.text_model.temperature_bits
            <= 0x4000_0000 || c.text_model.temperature_bits == 0x8000_0000) || !(64 <= c.text_model.max_tokens
            <= 8192),
    ensures
        config_error(c) is Some,
{
}

} // verus!
