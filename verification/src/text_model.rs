//! The local creative planner: request checks, the prompts sent to an
//! OpenAI-compatible model, and the extraction and normalisation of the
//! plan it returns.

use vstd::prelude::*;
use crate::models::{
    CreativeBriefRequest, CreativePlan, TextModelConfig, TextModelProbe, TextProviderMode,
};
use crate::text::{
    append, chars_of, decimal, is_blank, is_blank_spec, owned, push_decimal, str_equal,
    string_from_range, take_chars, trim, trim_spec, truncate,
};

verus! {

/// The instructions given to the text model with every brief.
pub fn system_prompt() -> (prompt: String)
    ensures
        prompt@ == "You are the creative director inside a local marketing design application.\nTurn the user's brief into concise marketing copy and a separate image-generation prompt.\nThe generated image must not contain typography, logos, labels, UI, watermarks, or written words because crisp text will be added later as SVG.\nReturn only one valid JSON object with exactly these string fields:\ntemplate, eyebrow, title, subtitle, cta, image_prompt, negative_prompt.\nUse either feature-poster or web-hero for template.\nKeep eyebrow under 32 characters, title under 72 characters, subtitle under 180 characters, and CTA under 28 characters.\nThe image_prompt should describe composition, subject, environment, lighting, materials, perspective, color direction, and intentional negative space for overlaid copy.\nThe negative_prompt should discourage malformed subjects, illegible text, watermarks, logos, low detail, and unwanted clutter."@,
{
    owned(
        "You are the creative director inside a local marketing design application.\nTurn the user's brief into concise marketing copy and a separate image-generation prompt.\nThe generated image must not contain typography, logos, labels, UI, watermarks, or written words because crisp text will be added later as SVG.\nReturn only one valid JSON object with exactly these string fields:\ntemplate, eyebrow, title, subtitle, cta, image_prompt, negative_prompt.\nUse either feature-poster or web-hero for template.\nKeep eyebrow under 32 characters, title under 72 characters, subtitle under 180 characters, and CTA under 28 characters.\nThe image_prompt should describe composition, subject, environment, lighting, materials, perspective, color direction, and intentional negative space for overlaid copy.\nThe negative_prompt should discourage malformed subjects, illegible text, watermarks, logos, low detail, and unwanted clutter.",
    )
}

/// `s` without trailing slashes.
pub open spec fn trim_end_slashes(s: Seq<char>) -> Seq<char>
    decreases s.len(),
{
    if s.len() > 0 && s.last() == '/' {
        trim_end_slashes(s.drop_last())
    } else {
        s
    }
}

/// `s` trimmed and without trailing slashes.
pub fn trimmed_base_url(s: &str) -> (base: String)
    ensures
        base@ == trim_end_slashes(trim_spec(s@)),
{
    let t = trim(s);
    let chars = chars_of(t.as_str());
    let mut end = chars.len();
    assert(chars@.subrange(0, end as int) == chars@);
    while end > 0 && chars[end - 1] == '/'
        invariant
            end <= chars.len(),
            trim_end_slashes(chars@) == trim_end_slashes(chars@.subrange(0, end as int)),
        decreases end,
    {
        assert(chars@.subrange(0, end as int).drop_last() == chars@.subrange(0, end - 1));
        end = end - 1;
    }
    assert(chars@.subrange(0, chars.len() as int) == chars@);
    string_from_range(&chars, 0, end)
}

/// The URL of `path` under the text model's base URL, or why there is none.
pub open spec fn text_endpoint_spec(base_url: Seq<char>, path: Seq<char>) -> Result<Seq<char>, Seq<char>> {
    let base = trim_end_slashes(trim_spec(base_url));
    if base.len() == 0 {
        Err("Configure the local text model base URL first."@)
    } else {
        Ok(base + "/"@ + path)
    }
}

/// The URL of `path` under the text model's base URL: the base trimmed
/// and without trailing slashes, a slash, and the path.
pub fn endpoint(base_url: &str, path: &str) -> (r: Result<String, String>)
    ensures
        match text_endpoint_spec(base_url@, path@) {
            Ok(u) => r is Ok && r->Ok_0@ == u,
            Err(e) => r is Err && r->Err_0@ == e,
        },
{
    let mut base = trimmed_base_url(base_url);
    if base.as_str().is_empty() {
        return Err(owned("Configure the local text model base URL first."));
    }
    append(&mut base, "/");
    append(&mut base, path);
    Ok(base)
}

/// The bearer token sent to the text model: the trimmed API key, unless it
/// is blank.
pub fn bearer_token(api_key: &str) -> (token: Option<String>)
    ensures
        token is None <==> is_blank_spec(api_key@),
        token is Some ==> token->0@ == trim_spec(api_key@),
{
    let t = trim(api_key);
    if t.as_str().is_empty() {
        None
    } else {
        Some(t)
    }
}

/// The probe result while the text model is disabled.
pub fn disabled_probe(config: &TextModelConfig) -> (probe: TextModelProbe)
    ensures
        !probe.ready,
        probe.base_url@ == config.base_url@,
        probe.summary@ == "Local text and design generation is disabled."@,
        probe.output@.len() == 0,
{
    TextModelProbe {
        ready: false,
        base_url: config.base_url.clone(),
        summary: owned("Local text and design generation is disabled."),
        output: String::new(),
    }
}

/// The probe result once the model list has been requested: ready exactly
/// when the HTTP status was a success, with the first 8000 characters of
/// the response body.
pub fn probe_result(config: &TextModelConfig, success: bool, status_code: u16, body: &str) -> (probe: TextModelProbe)
    ensures
        probe.ready == success,
        probe.base_url@ == config.base_url@,
        probe.summary@ == (if success {
            "OpenAI-compatible local text endpoint is ready."@
        } else {
            "Local text endpoint returned HTTP "@ + decimal(status_code as nat) + "."@
        }),
        probe.output@ == take_chars(body@, 8000),
{
    let summary = if success {
        owned("OpenAI-compatible local text endpoint is ready.")
    } else {
        let mut s = owned("Local text endpoint returned HTTP ");
        push_decimal(&mut s, status_code as u64);
        append(&mut s, ".");
        s
    };
    TextModelProbe {
        ready: success,
        base_url: config.base_url.clone(),
        summary,
        output: truncate(body, 8000),
    }
}

/// Why a creative brief is not sent to the model, if it is not.
pub open spec fn plan_request_error(mode: TextProviderMode, brief: Seq<char>, width: u32, height: u32) -> Option<Seq<char>> {
    if mode == TextProviderMode::Disabled {
        Some("Enable the local text model in Engine settings first."@)
    } else if is_blank_spec(brief) {
        Some("Add a creative brief before generating a design plan."@)
    } else if !(320 <= width <= 4096) || !(320 <= height <= 4096) {
        Some("Creative plan dimensions must be between 320 and 4096 pixels."@)
    } else {
        None
    }
}

/// Accepts a brief when the text model is enabled, the brief is not blank
/// and both dimensions lie in 320..=4096; otherwise names the first
/// problem.
pub fn validate_plan_request(config: &TextModelConfig, request: &CreativeBriefRequest) -> (r: Result<(), String>)
    ensures
        r is Ok <==> plan_request_error(config.mode, request.brief@, request.width, request.height) is None,
        r is Err ==> Some(r->Err_0@) == plan_request_error(config.mode, request.brief@, request.width, request.height),
{
    if config.mode == TextProviderMode::Disabled {
        return Err(owned("Enable the local text model in Engine settings first."));
    }
    if is_blank(request.brief.as_str()) {
        return Err(owned("Add a creative brief before generating a design plan."));
    }
    if !(320 <= request.width && request.width <= 4096) || !(320 <= request.height && request.height
        <= 4096) {
        return Err(owned("Creative plan dimensions must be between 320 and 4096 pixels."));
    }
    Ok(())
}

/// The user message sent with a brief.
pub open spec fn user_prompt_spec(brief: Seq<char>, template: Seq<char>, width: u32, height: u32) -> Seq<char> {
    "Creative brief:\n"@ + trim_spec(brief) + "\n\nRequested template: "@ + template + "\nCanvas: "@
        + decimal(width as nat) + " x "@ + decimal(height as nat)
        + " pixels. Preserve useful negative space for SVG copy."@
}

/// The user message sent with a brief: the trimmed brief, the requested
/// template and the canvas size.
pub fn creative_user_prompt(request: &CreativeBriefRequest) -> (prompt: String)
    ensures
        prompt@ == user_prompt_spec(request.brief@, request.template@, request.width, request.height),
{
    let mut s = owned("Creative brief:\n");
    let brief = trim(request.brief.as_str());
    append(&mut s, brief.as_str());
    append(&mut s, "\n\nRequested template: ");
    append(&mut s, request.template.as_str());
    append(&mut s, "\nCanvas: ");
    push_decimal(&mut s, request.width as u64);
    append(&mut s, " x ");
    push_decimal(&mut s, request.height as u64);
    append(&mut s, " pixels. Preserve useful negative space for SVG copy.");
    s
}

/// The error for an unsuccessful HTTP status from the text model, with the
/// first 2000 characters of the response body.
pub fn http_error_message(status_code: u16, body: &str) -> (message: String)
    ensures
        message@ == "Local text model returned HTTP "@ + decimal(status_code as nat) + ": "@ + take_chars(body@, 2000),
{
    let mut s = owned("Local text model returned HTTP ");
    push_decimal(&mut s, status_code as u64);
    append(&mut s, ": ");
    let t = truncate(body, 2000);
    append(&mut s, t.as_str());
    s
}

/// The span from the first `{` to the last `}` of the model's reply, or why
/// there is none.
pub open spec fn json_object_span(content: Seq<char>) -> Result<Seq<char>, Seq<char>> {
    if !content.contains('{') {
        Err("Creative plan response did not contain a JSON object."@)
    } else if !content.contains('}') {
        Err("Creative plan response did not contain a complete JSON object."@)
    } else {
        let start = content.index_of_first('{')->0;
        let end = content.index_of_last('}')->0;
        if end <= start {
            Err("Creative plan response contained malformed JSON."@)
        } else {
            Ok(content.subrange(start, end + 1))
        }
    }
}

/// The JSON object in the model's reply: from the first `{` to the last
/// `}`, both included.
pub fn extract_json_object(content: &str) -> (r: Result<String, String>)
    ensures
        match json_object_span(content@) {
            Ok(o) => r is Ok && r->Ok_0@ == o,
            Err(e) => r is Err && r->Err_0@ == e,
        },
{
    let chars = chars_of(content);
    let mut start: usize = 0;
    while start < chars.len() && chars[start] != '{'
        invariant
            chars@ == content@,
            start <= chars.len(),
            forall|k: int| 0 <= k < start ==> chars@[k] != '{',
        decreases chars.len() - start,
    {
        start = start + 1;
    }
    if start == chars.len() {
        assert(!content@.contains('{'));
        return Err(owned("Creative plan response did not contain a JSON object."));
    }
    proof {
        content@.index_of_first_ensures('{');
    }
    let mut end: usize = chars.len();
    while end > 0 && chars[end - 1] != '}'
        invariant
            chars@ == content@,
            end <= chars.len(),
            forall|k: int| end <= k < chars.len() ==> chars@[k] != '}',
        decreases end,
    {
        end = end - 1;
    }
    if end == 0 {
        assert(!content@.contains('}'));
        return Err(owned("Creative plan response did not contain a complete JSON object."));
    }
    proof {
        content@.index_of_last_ensures('}');
        assert(content@.contains('{'));
        assert(content@.contains('}'));
        assert(content@.index_of_first('{')->0 == start);
        assert(content@.index_of_last('}')->0 == end - 1);
    }
    if end - 1 <= start {
        return Err(owned("Creative plan response contained malformed JSON."));
    }
    Ok(string_from_range(&chars, start, end))
}

/// The plan with its template checked and its copy trimmed and cut to
/// length, or why it is unusable.
pub open spec fn normalized_template(template: Seq<char>, requested: Seq<char>) -> Seq<char> {
    if template == "feature-poster"@ || template == "web-hero"@ {
        template
    } else {
        requested
    }
}

/// Cleans up a plan from the model: an unknown template becomes the
/// requested one; eyebrow, title, subtitle and call to action are trimmed
/// and cut to 32, 72, 180 and 28 characters; the prompts are trimmed.  A
/// plan left without a title or an image prompt is refused.
pub fn normalize_plan(plan: &mut CreativePlan, request: &CreativeBriefRequest) -> (r: Result<(), String>)
    ensures
        final(plan).template@ == normalized_template(old(plan).template@, request.template@),
        final(plan).eyebrow@ == take_chars(trim_spec(old(plan).eyebrow@), 32),
        final(plan).title@ == take_chars(trim_spec(old(plan).title@), 72),
        final(plan).subtitle@ == take_chars(trim_spec(old(plan).subtitle@), 180),
        final(plan).cta@ == take_chars(trim_spec(old(plan).cta@), 28),
        final(plan).image_prompt@ == trim_spec(old(plan).image_prompt@),
        final(plan).negative_prompt@ == trim_spec(old(plan).negative_prompt@),
        r is Ok <==> (final(plan).title@.len() > 0 && final(plan).image_prompt@.len() > 0),
        r is Err ==> r->Err_0@ == "Creative plan must include a headline and image prompt."@,
{
    let keep = str_equal(plan.template.as_str(), "feature-poster") || str_equal(
        plan.template.as_str(),
        "web-hero",
    );
    if !keep {
        plan.template = request.template.clone();
    }
    let e = trim(plan.eyebrow.as_str());
    plan.eyebrow = truncate(e.as_str(), 32);
    let t = trim(plan.title.as_str());
    plan.title = truncate(t.as_str(), 72);
    let s = trim(plan.subtitle.as_str());
    plan.subtitle = truncate(s.as_str(), 180);
    let c = trim(plan.cta.as_str());
    plan.cta = truncate(c.as_str(), 28);
    plan.image_prompt = trim(plan.image_prompt.as_str());
    plan.negative_prompt = trim(plan.negative_prompt.as_str());
    if plan.title.as_str().is_empty() || plan.image_prompt.as_str().is_empty() {
        return Err(owned("Creative plan must include a headline and image prompt."));
    }
    Ok(())
}

/// The message content of the model's chat reply `body`: the string at
/// `/choices/0/message/content`, or why there is none.
pub open spec fn message_content_spec(body: Seq<char>) -> Result<Seq<char>, Seq<char>> {
    crate::json::required_string(
        body,
        "/choices/0/message/content"@,
        "Local text model returned invalid JSON: "@,
        "Local text model response did not contain message content."@,
    )
}

/// Reads the message content out of the model's chat reply.
pub fn plan_message_content(body: &str) -> (r: Result<String, String>)
    ensures
        match message_content_spec(body@) {
            Ok(s) => r is Ok && r->Ok_0@ == s,
            Err(e) => r is Err && r->Err_0@ == e,
        },
{
    crate::json::required_string_at(
        body,
        "/choices/0/message/content",
        "Local text model returned invalid JSON: ",
        "Local text model response did not contain message content.",
    )
}

// ---------------------------------------------------------------------
// The mock creative planner

/// The template of a mock plan: the requested one when it is `web-hero`,
/// the feature poster otherwise.
pub open spec fn mock_plan_template(requested: Seq<char>) -> Seq<char> {
    if requested == "web-hero"@ {
        "web-hero"@
    } else {
        "feature-poster"@
    }
}

/// The image prompt of a mock plan for a trimmed brief.
pub open spec fn mock_image_prompt(brief: Seq<char>) -> Seq<char> {
    "Clean, text-free visual for: "@ + brief
        + ". Intentional negative space for overlaid copy, soft directional light, no typography, no logos."@
}

/// The plan that the mock creative planner drafts from a brief, with no
/// model: the brief, trimmed and cut to 72 characters, as the headline;
/// fixed eyebrow, supporting copy, call to action and negative prompt; an
/// image prompt built around the trimmed brief.
pub fn mock_creative_plan(request: &CreativeBriefRequest) -> (plan: CreativePlan)
    ensures
        plan.template@ == mock_plan_template(request.template@),
        plan.eyebrow@ == "Mock creative plan"@,
        plan.title@ == take_chars(trim_spec(request.brief@), 72),
        plan.subtitle@ == "Draft copy from the mock creative planner. Connect a local text model for production copy."@,
        plan.cta@ == "Get started"@,
        plan.image_prompt@ == mock_image_prompt(trim_spec(request.brief@)),
        plan.negative_prompt@ == "text, typography, watermark, logo, malformed subjects, low detail, clutter"@,
{
    let template = if str_equal(request.template.as_str(), "web-hero") {
        owned("web-hero")
    } else {
        owned("feature-poster")
    };
    let brief = trim(request.brief.as_str());
    let title = truncate(brief.as_str(), 72);
    let mut image_prompt = owned("Clean, text-free visual for: ");
    append(&mut image_prompt, brief.as_str());
    append(
        &mut image_prompt,
        ". Intentional negative space for overlaid copy, soft directional light, no typography, no logos.",
    );
    CreativePlan {
        template,
        eyebrow: owned("Mock creative plan"),
        title,
        subtitle: owned("Draft copy from the mock creative planner. Connect a local text model for production copy."),
        cta: owned("Get started"),
        image_prompt,
        negative_prompt: owned("text, typography, watermark, logo, malformed subjects, low detail, clutter"),
    }
}

/// The plan for a brief when no model needs to be asked: a refused brief
/// gives its error (see [`validate_plan_request`]); the mock planner gives
/// its plan (see [`mock_creative_plan`]); with an OpenAI-compatible model
/// there is no plan yet (`None`) and the model is to be asked.
pub fn offline_plan(config: &TextModelConfig, request: &CreativeBriefRequest) -> (r: Result<Option<CreativePlan>, String>)
    ensures
        plan_request_error(config.mode, request.brief@, request.width, request.height) matches Some(e) ==> r is Err
            && r->Err_0@ == e,
        plan_request_error(config.mode, request.brief@, request.width, request.height) is None ==> r is Ok,
        r matches Ok(p) ==> (p is Some <==> config.mode == TextProviderMode::Mock),
        r matches Ok(Some(plan)) ==> ({
            &&& plan.template@ == mock_plan_template(request.template@)
            &&& plan.eyebrow@ == "Mock creative plan"@
            &&& plan.title@ == take_chars(trim_spec(request.brief@), 72)
            &&& plan.subtitle@
                == "Draft copy from the mock creative planner. Connect a local text model for production copy."@
            &&& plan.cta@ == "Get started"@
            &&& plan.image_prompt@ == mock_image_prompt(trim_spec(request.brief@))
            &&& plan.negative_prompt@ == "text, typography, watermark, logo, malformed subjects, low detail, clutter"@
        }),
{
    match validate_plan_request(config, request) {
        Err(e) => Err(e),
        Ok(()) => {
            if config.mode == TextProviderMode::Mock {
                Ok(Some(mock_creative_plan(request)))
            } else {
                Ok(None)
            }
        },
    }
}

/// A mock plan always has a headline and an image prompt, and a template
/// that the renderer knows.
pub proof fn law_mock_plan_is_usable(brief: Seq<char>, template: Seq<char>)
    requires
        !is_blank_spec(brief),
    ensures
        take_chars(trim_spec(brief), 72).len() > 0,
        mock_image_prompt(trim_spec(brief)).len() > 0,
        mock_plan_template(template) == "feature-poster"@ || mock_plan_template(template) == "web-hero"@,
{
}

/// Normalising keeps a template that the renderer knows, `feature-poster`
/// or `web-hero`, whatever was requested, and replaces any other template by
/// the requested one.
pub proof fn law_known_template_is_kept(plan_template: Seq<char>, requested: Seq<char>)
    ensures
        plan_template == "feature-poster"@ ==> normalized_template(plan_template, requested) == "feature-poster"@,
        plan_template == "web-hero"@ ==> normalized_template(plan_template, requested) == "web-hero"@,
        plan_template != "feature-poster"@ && plan_template != "web-hero"@ ==> normalized_template(
            plan_template,
            requested,
        ) == requested,
{
}

} // verus!
