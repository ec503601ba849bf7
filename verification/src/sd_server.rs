//! The stable-diffusion.cpp server adapter: endpoints, probe results, the
//! plan of a generation request, job polling, and progress read from the
//! server's log.

use vstd::prelude::*;
use crate::engine_args::{
    LoraPayloadEntry, build_lora_payload, entries_view, lora_entries_from, prompt_with_lora_triggers,
    selections_view, trigger_prompt_from,
};
use crate::ids;
use crate::json::{json_pointer_str, json_string_at};
use crate::models::{
    AssetKind, EngineConfig, EngineMode, EngineProbe, GeneratedAsset, GenerationRequest,
    ModelProfile, strings_view,
};
use crate::parsing::{
    first_slash, parse_u32, parse_u32_spec, split_whitespace, split_ws, trim_non_digit_bounds,
    trim_non_digits,
};
use crate::paths::{join_path, join_path_spec};
use crate::text::{
    append, chars_of, contains, contains_spec, decimal, owned, push_char, push_decimal, take_chars,
    trim_spec, truncate,
};
use crate::text_model::{trim_end_slashes, trimmed_base_url};

verus! {

// ---------------------------------------------------------------------
// Endpoints and probes

/// The URL of `path` on the image server, or why there is none.
pub open spec fn server_endpoint_spec(base_url: Seq<char>, path: Seq<char>) -> Result<Seq<char>, Seq<char>> {
    let base = trim_end_slashes(trim_spec(base_url));
    if base.len() == 0 {
        Err("Configure the stable-diffusion.cpp server URL first."@)
    } else {
        Ok(base + path)
    }
}

/// The URL of `path` (which starts with `/`) on the image server: the base
/// URL trimmed and without trailing slashes, followed by the path.
pub fn endpoint(base_url: &str, path: &str) -> (r: Result<String, String>)
    ensures
        match server_endpoint_spec(base_url@, path@) {
            Ok(u) => r is Ok && r->Ok_0@ == u,
            Err(e) => r is Err && r->Err_0@ == e,
        },
{
    let mut base = trimmed_base_url(base_url);
    if base.as_str().is_empty() {
        return Err(owned("Configure the stable-diffusion.cpp server URL first."));
    }
    append(&mut base, path);
    Ok(base)
}

/// The probe result once the server's capabilities were requested: ready
/// exactly when the HTTP status was a success, with the first 8000
/// characters of the response body.
pub fn probe_result(config: &EngineConfig, success: bool, status_code: u16, body: &str) -> (probe: EngineProbe)
    ensures
        probe.ready == success,
        probe.mode == EngineMode::StableDiffusionCppServer,
        probe.binary_path@ == config.server_url@,
        probe.summary@ == (if success {
            "stable-diffusion.cpp server is ready."@
        } else {
            "stable-diffusion.cpp server returned HTTP "@ + decimal(status_code as nat) + "."@
        }),
        probe.output@ == take_chars(body@, 8000),
{
    let summary = if success {
        owned("stable-diffusion.cpp server is ready.")
    } else {
        let mut s = owned("stable-diffusion.cpp server returned HTTP ");
        push_decimal(&mut s, status_code as u64);
        append(&mut s, ".");
        s
    };
    EngineProbe {
        ready: success,
        mode: EngineMode::StableDiffusionCppServer,
        binary_path: config.server_url.clone(),
        summary,
        output: truncate(body, 8000),
    }
}

/// An error for an unsuccessful HTTP status from the server: `prefix`,
/// `HTTP <status>: ` and the first 2000 characters of the body.
pub fn http_error_message(prefix: &str, status_code: u16, body: &str) -> (message: String)
    ensures
        message@ == prefix@ + "HTTP "@ + decimal(status_code as nat) + ": "@ + take_chars(body@, 2000),
{
    let mut s = owned(prefix);
    append(&mut s, "HTTP ");
    push_decimal(&mut s, status_code as u64);
    append(&mut s, ": ");
    let t = truncate(body, 2000);
    append(&mut s, t.as_str());
    s
}

// ---------------------------------------------------------------------
// Generation requests

/// What a server generation sends and where its output goes.
#[derive(Debug)]
pub struct ServerPlan {
    pub asset_id: String,
    pub output_path: String,
    pub prompt: String,
    pub loras: Vec<LoraPayloadEntry>,
    pub submit_url: String,
    pub seed: i64,
    pub sample_steps: u32,
}

/// The seed sent to the server: the request's seed as a signed 64-bit
/// number, or -1 (a random seed) when the request has none.
pub open spec fn server_seed(seed: Option<u64>) -> i64 {
    match seed {
        Some(s) => s as i64,
        None => -1i64,
    }
}

/// Prepares one server generation: a fresh random asset id and the output
/// file `<outputs>/<asset id>.png`, the prompt with LoRA trigger words, the
/// LoRA entries, the submission URL, the seed (see [`server_seed`]) and the
/// requested number of sampling steps; fails on the first LoRA problem or
/// an unset server URL.
pub fn plan_server_generation(
    request: &GenerationRequest,
    engine: &EngineConfig,
    model: &ModelProfile,
    outputs_dir: &str,
) -> (r: Result<ServerPlan, String>)
    ensures
        match trigger_prompt_from(trim_spec(request.prompt@), selections_view(request.loras@), engine.loras@, model.family@) {
            Err(e) => r is Err && r->Err_0@ == e,
            Ok(prompt) => match lora_entries_from(selections_view(request.loras@), engine.loras@, model.family@) {
                Err(e) => r is Err && r->Err_0@ == e,
                Ok(entries) => match server_endpoint_spec(engine.server_url@, "/sdcpp/v1/img_gen"@) {
                    Err(e) => r is Err && r->Err_0@ == e,
                    Ok(url) => r is Ok && ({
                        let plan = r->Ok_0;
                        &&& ids::is_uuid_v4_text(plan.asset_id@)
                        &&& plan.output_path@ == join_path_spec(outputs_dir@, plan.asset_id@ + ".png"@)
                        &&& plan.prompt@ == prompt
                        &&& entries_view(plan.loras@) == entries
                        &&& plan.submit_url@ == url
                        &&& plan.seed == server_seed(request.seed)
                        &&& plan.sample_steps == request.steps
                    }),
                },
            },
        },
{
    let asset_id = ids::new_uuid_text();
    let mut file_name = asset_id.clone();
    append(&mut file_name, ".png");
    let output_path = join_path(outputs_dir, file_name.as_str());
    let prompt = match prompt_with_lora_triggers(request.prompt.as_str(), &request.loras, &engine.loras, model) {
        Err(e) => {
            return Err(e);
        },
        Ok(p) => p,
    };
    let loras = match build_lora_payload(&request.loras, &engine.loras, model) {
        Err(e) => {
            return Err(e);
        },
        Ok(l) => l,
    };
    let submit_url = match endpoint(engine.server_url.as_str(), "/sdcpp/v1/img_gen") {
        Err(e) => {
            return Err(e);
        },
        Ok(u) => u,
    };
    let seed: i64 = match request.seed {
        Some(s) => s as i64,
        None => -1,
    };
    Ok(ServerPlan { asset_id, output_path, prompt, loras, submit_url, seed, sample_steps: request.steps })
}

/// The URL at which server job `job_id` is polled.
pub fn poll_url(base_url: &str, job_id: &str) -> (r: Result<String, String>)
    ensures
        match server_endpoint_spec(base_url@, "/sdcpp/v1/jobs/"@ + job_id@) {
            Ok(u) => r is Ok && r->Ok_0@ == u,
            Err(e) => r is Err && r->Err_0@ == e,
        },
{
    let mut path = owned("/sdcpp/v1/jobs/");
    append(&mut path, job_id);
    endpoint(base_url, path.as_str())
}

/// What one poll of a server job found.
#[derive(Debug)]
pub enum PollOutcome {
    Completed,
    Failed(String),
    Pending,
}

/// What a poll finds for a job whose `status` field reads `status` (absent
/// counts as empty) and whose error message, if any, reads `error`.
pub open spec fn poll_outcome_spec(status: Option<Seq<char>>, error: Option<Seq<char>>) -> Option<Result<(), Seq<char>>> {
    let s = match status {
        Some(x) => x,
        None => ""@,
    };
    if s == "completed"@ {
        Some(Ok(()))
    } else if s == "failed"@ || s == "cancelled"@ {
        Some(
            Err(
                "stable-diffusion.cpp server job failed: "@ + match error {
                    Some(m) => m,
                    None => "server job did not complete"@,
                },
            ),
        )
    } else {
        None
    }
}

/// Classifies one poll of a server job: `completed`, `failed` or
/// `cancelled` (with the server's message or a default), or still pending.
pub fn classify_poll(status: Option<&str>, error: Option<&str>) -> (outcome: PollOutcome)
    ensures
        match poll_outcome_spec(
            match status {
                Some(s) => Some(s@),
                None => None,
            },
            match error {
                Some(e) => Some(e@),
                None => None,
            },
        ) {
            Some(Ok(())) => outcome is Completed,
            Some(Err(m)) => outcome is Failed && outcome->Failed_0@ == m,
            None => outcome is Pending,
        },
{
    let s = match status {
        Some(x) => x,
        None => "",
    };
    if crate::text::str_equal(s, "completed") {
        return PollOutcome::Completed;
    }
    if crate::text::str_equal(s, "failed") || crate::text::str_equal(s, "cancelled") {
        let mut message = owned("stable-diffusion.cpp server job failed: ");
        match error {
            Some(m) => append(&mut message, m),
            None => append(&mut message, "server job did not complete"),
        }
        return PollOutcome::Failed(message);
    }
    PollOutcome::Pending
}

// ---------------------------------------------------------------------
// Output

/// The bytes that base64 text decodes to with `base64`'s `STANDARD`
/// engine, or the text of the decoding error.
pub uninterp spec fn base64_standard_decoding(text: Seq<char>) -> Result<Seq<u8>, Seq<char>>;

/// `base64::engine::general_purpose::STANDARD.decode(text)`, with the error
/// rendered by `to_string()`.  Which bytes or which error come out is
/// named, not stated.
#[verifier::external_body]
fn decode_base64(text: &str) -> (r: Result<Vec<u8>, String>)
    ensures
        match base64_standard_decoding(text@) {
            Ok(b) => r is Ok && r->Ok_0@ == b,
            Err(e) => r is Err && r->Err_0@ == e,
        },
{
    match base64::Engine::decode(&base64::engine::general_purpose::STANDARD, text) {
        Ok(bytes) => Ok(bytes),
        Err(error) => Err(error.to_string()),
    }
}

/// Decodes the base64 image returned by the server, trimmed first.
pub fn decode_server_image(encoded: &str) -> (r: Result<Vec<u8>, String>)
    ensures
        match base64_standard_decoding(trim_spec(encoded@)) {
            Ok(b) => r is Ok && r->Ok_0@ == b,
            Err(e) => r is Err && r->Err_0@ == "stable-diffusion.cpp server returned invalid image data: "@ + e,
        },
{
    let t = crate::text::trim(encoded);
    match decode_base64(t.as_str()) {
        Ok(bytes) => Ok(bytes),
        Err(e) => {
            let mut message = owned("stable-diffusion.cpp server returned invalid image data: ");
            append(&mut message, e.as_str());
            Err(message)
        },
    }
}

/// The asset and log lines of a finished server generation.
pub fn finish_server_generation(plan: &ServerPlan, request: &GenerationRequest, job_id: &str) -> (r: (GeneratedAsset, Vec<String>))
    ensures
        r.0.id@ == plan.asset_id@,
        r.0.path@ == plan.output_path@,
        r.0.mime_type@ == "image/png"@,
        r.0.width == request.width,
        r.0.height == request.height,
        r.0.kind == AssetKind::Image,
        strings_view(r.1@) == seq![
            "POST "@ + plan.submit_url@,
            "stable-diffusion.cpp server job id: "@ + job_id@,
            "Wrote server output to "@ + plan.output_path@,
        ],
{
    let mut logs: Vec<String> = Vec::new();
    let mut a = owned("POST ");
    append(&mut a, plan.submit_url.as_str());
    logs.push(a);
    let mut b = owned("stable-diffusion.cpp server job id: ");
    append(&mut b, job_id);
    logs.push(b);
    let mut c = owned("Wrote server output to ");
    append(&mut c, plan.output_path.as_str());
    logs.push(c);
    let asset = GeneratedAsset {
        id: plan.asset_id.clone(),
        path: plan.output_path.clone(),
        mime_type: owned("image/png"),
        width: request.width,
        height: request.height,
        kind: AssetKind::Image,
    };
    let ghost lv = strings_view(logs@);
    assert(lv =~= seq![lv[0], lv[1], lv[2]]);
    (asset, logs)
}

// ---------------------------------------------------------------------
// Progress from the server log

/// What one word decides in the search for a fraction: `None` to go on
/// to the next word, `Some(r)` to stop with result `r`.  A word without a
/// `/` goes on; a word whose parts around the first `/` do not read as
/// numbers stops with nothing; a matching fraction stops with it.
#[verifier::opaque]
pub open spec fn word_verdict(w: Seq<char>, expected: u32) -> Option<Option<(u32, u32)>> {
    match first_slash(w) {
        None => None,
        Some(p) => match parse_u32_spec(w.take(p)) {
            None => Some(None),
            Some(current) => match parse_u32_spec(trim_non_digits(w.skip(p + 1))) {
                None => Some(None),
                Some(total) => if total == expected && current <= total {
                    Some(Some((current, total)))
                } else {
                    None
                },
            },
        },
    }
}

/// The first `current/total` fraction among `words` whose total is
/// `expected` and whose current part does not exceed it (see
/// [`word_verdict`]).
pub open spec fn fraction_in(words: Seq<Seq<char>>, expected: u32) -> Option<(u32, u32)>
    decreases words.len(),
{
    if words.len() == 0 {
        None
    } else {
        match word_verdict(words[0], expected) {
            None => fraction_in(words.drop_first(), expected),
            Some(r) => r,
        }
    }
}

/// The progress fraction written in a log line (see [`fraction_in`]).
pub open spec fn parse_fraction_spec(line: Seq<char>, expected_total: u32) -> Option<(u32, u32)> {
    fraction_in(split_ws(line), expected_total)
}

proof fn lemma_fraction_in_within_total(words: Seq<Seq<char>>, expected: u32)
    ensures
        fraction_in(words, expected) matches Some((current, total)) ==> total == expected && current <= total,
    decreases words.len(),
{
    reveal(word_verdict);
    if words.len() > 0 {
        lemma_fraction_in_within_total(words.drop_first(), expected);
    }
}

/// A fraction read from a log line always has the expected total, and its
/// current part never exceeds that total.
pub proof fn law_fraction_within_total(line: Seq<char>, expected_total: u32)
    ensures
        parse_fraction_spec(line, expected_total) matches Some((current, total)) ==> total == expected_total
            && current <= total,
{
    lemma_fraction_in_within_total(split_ws(line), expected_total);
}

fn find_slash(w: &Vec<char>) -> (r: Option<usize>)
    ensures
        r is Some ==> r->0 < w.len(),
        r is Some <==> first_slash(w@) is Some,
        r is Some ==> first_slash(w@) == Some(r->0 as int),
{
    let mut i: usize = 0;
    while i < w.len()
        invariant
            i <= w.len(),
            forall|k: int| 0 <= k < i ==> w@[k] != '/',
        decreases w.len() - i,
    {
        if w[i] == '/' {
            proof {
                w@.index_of_first_ensures('/');
            }
            return Some(i);
        }
        i = i + 1;
    }
    None
}

fn verdict(w: &Vec<char>, expected_total: u32) -> (r: Option<Option<(u32, u32)>>)
    ensures
        r == word_verdict(w@, expected_total),
{
    reveal(word_verdict);
    match find_slash(w) {
        None => None,
        Some(p) => {
            assert(w@.subrange(0, p as int) == w@.take(p as int));
            match parse_u32(w, 0, p) {
                None => Some(None),
                Some(c) => {
                    let (a, b) = trim_non_digit_bounds(w, p + 1, w.len());
                    assert(w@.subrange(p + 1, w.len() as int) == w@.skip(p + 1));
                    match parse_u32(w, a, b) {
                        None => Some(None),
                        Some(t) => {
                            if t == expected_total && c <= t {
                                Some(Some((c, t)))
                            } else {
                                None
                            }
                        },
                    }
                },
            }
        },
    }
}

/// Reads a `current/total` progress fraction from a log line: the first
/// white-space separated word with a `/` whose left part reads as a number
/// and whose right part, without non-digits at either end, reads as a
/// number equal to `expected_total`, with `current <= total`.  A word with
/// a `/` whose parts do not read as numbers ends the search.
pub fn parse_fraction(line: &str, expected_total: u32) -> (r: Option<(u32, u32)>)
    ensures
        r == parse_fraction_spec(line@, expected_total),
{
    let words = split_whitespace(line);
    let ghost ws = words@.map_values(|w: Vec<char>| w@);
    let mut i: usize = 0;
    assert(ws.skip(0) == ws);
    while i < words.len()
        invariant
            i <= words.len(),
            ws == words@.map_values(|w: Vec<char>| w@),
            ws == split_ws(line@),
            fraction_in(ws, expected_total) == fraction_in(ws.skip(i as int), expected_total),
        decreases words.len() - i,
    {
        let ghost rest = ws.skip(i as int);
        assert(rest[0] == words@[i as int]@);
        assert(rest.drop_first() == ws.skip(i + 1));
        match verdict(&words[i], expected_total) {
            None => {},
            Some(r) => {
                return r;
            },
        }
        i = i + 1;
    }
    assert(ws.skip(words.len() as int) =~= Seq::<Seq<char>>::empty());
    None
}

/// Lines joined with newlines.
pub open spec fn join_lines(lines: Seq<Seq<char>>) -> Seq<char>
    decreases lines.len(),
{
    if lines.len() == 0 {
        seq![]
    } else if lines.len() == 1 {
        lines[0]
    } else {
        join_lines(lines.drop_last()) + "\n"@ + lines.last()
    }
}

/// The last `n` log lines, newest first, joined with newlines.
pub open spec fn recent_text(logs: Seq<Seq<char>>, n: nat) -> Seq<char> {
    let start = if logs.len() > n { logs.len() - n } else { 0 };
    join_lines(logs.subrange(start as int, logs.len() as int).reverse())
}

/// The last `n` log lines, newest first, joined with newlines.
pub fn recent_log_text(logs: &Vec<String>, n: usize) -> (text: String)
    ensures
        text@ == recent_text(strings_view(logs@), n as nat),
{
    let ghost lv = strings_view(logs@);
    let start: usize = if logs.len() > n { logs.len() - n } else { 0 };
    let ghost lines = lv.subrange(start as int, lv.len() as int).reverse();
    let mut text = String::new();
    let mut k: usize = 0;
    let count = logs.len() - start;
    while k < count
        invariant
            lv == strings_view(logs@),
            count == logs.len() - start,
            lines == lv.subrange(start as int, lv.len() as int).reverse(),
            lines.len() == count,
            k <= count,
            text@ == join_lines(lines.take(k as int)),
        decreases count - k,
    {
        let line = &logs[logs.len() - 1 - k];
        assert(lines[k as int] == line@);
        assert(lines.take(k + 1).drop_last() == lines.take(k as int));
        if k > 0 {
            append(&mut text, "\n");
        }
        append(&mut text, line.as_str());
        if k == 0 {
            assert(text@ =~= lines.take(1)[0]);
        }
        k = k + 1;
    }
    assert(lines.take(count as int) == lines);
    text
}

/// The first fraction, searching the log from its newest line back to the
/// newest line that contains `marker`.
pub open spec fn fraction_before(logs: Seq<Seq<char>>, marker: Seq<char>, expected: u32) -> Option<(u32, u32)>
    decreases logs.len(),
{
    if logs.len() == 0 {
        None
    } else if contains_spec(logs.last(), marker) {
        None
    } else {
        match parse_fraction_spec(logs.last(), expected) {
            Some(f) => Some(f),
            None => fraction_before(logs.drop_last(), marker, expected),
        }
    }
}

/// The first progress fraction found going back from the newest log line,
/// stopping at the newest line that contains `marker`.
pub fn fraction_since_marker(logs: &Vec<String>, marker: &str, expected: u32) -> (r: Option<(u32, u32)>)
    ensures
        r == fraction_before(strings_view(logs@), marker@, expected),
{
    let ghost lv = strings_view(logs@);
    let mut k: usize = logs.len();
    assert(lv.subrange(0, k as int) == lv);
    while k > 0
        invariant
            lv == strings_view(logs@),
            k <= logs.len(),
            fraction_before(lv, marker@, expected) == fraction_before(lv.subrange(0, k as int), marker@, expected),
        decreases k,
    {
        let line = &logs[k - 1];
        let ghost prefix = lv.subrange(0, k as int);
        assert(prefix.last() == line@);
        assert(prefix.drop_last() == lv.subrange(0, k - 1));
        if contains(line.as_str(), marker) {
            return None;
        }
        match parse_fraction(line.as_str(), expected) {
            Some(f) => {
                return Some(f);
            },
            None => {},
        }
        k = k - 1;
    }
    None
}

/// How far a server generation has got, as read from the server's log.
#[derive(Debug)]
pub enum ProgressStage {
    Decoded,
    Decoding(Option<(u32, u32)>),
    SamplingComplete,
    Sampling(Option<(u32, u32)>),
    PromptEncoded,
    EncodingPrompt,
    Listening,
    Submitted,
}

/// The number of decoding steps the server reports.
pub open spec fn decode_total() -> u32 {
    138
}

/// Which stage the last 80 log lines show, checked from the latest stage
/// back; while decoding or sampling, the step fraction found since the
/// stage began.
pub open spec fn progress_stage_spec(logs: Seq<Seq<char>>, steps: u32) -> ProgressStage {
    let recent = recent_text(logs, 80);
    if contains_spec(recent, "decode_first_stage completed"@) || contains_spec(recent, "latent 1 decoded"@)
        || contains_spec(recent, "generating 1 latent images completed"@) {
        ProgressStage::Decoded
    } else if contains_spec(recent, "decoding 1 latents"@) {
        ProgressStage::Decoding(fraction_before(logs, "decoding 1 latents"@, decode_total()))
    } else if contains_spec(recent, "sampling completed"@) {
        ProgressStage::SamplingComplete
    } else if contains_spec(recent, "generating image:"@) {
        ProgressStage::Sampling(fraction_before(logs, "generating image:"@, steps))
    } else if contains_spec(recent, "get_learned_condition completed"@) {
        ProgressStage::PromptEncoded
    } else if contains_spec(recent, "generate_image"@) {
        ProgressStage::EncodingPrompt
    } else if contains_spec(recent, "listening on:"@) {
        ProgressStage::Listening
    } else {
        ProgressStage::Submitted
    }
}

/// Reads the stage of a server generation from the server's log (see
/// [`progress_stage_spec`]).
pub fn progress_stage(logs: &Vec<String>, steps: u32) -> (stage: ProgressStage)
    ensures
        stage == progress_stage_spec(strings_view(logs@), steps),
{
    let recent = recent_log_text(logs, 80);
    let r = recent.as_str();
    if contains(r, "decode_first_stage completed") || contains(r, "latent 1 decoded") || contains(
        r,
        "generating 1 latent images completed",
    ) {
        return ProgressStage::Decoded;
    }
    if contains(r, "decoding 1 latents") {
        return ProgressStage::Decoding(fraction_since_marker(logs, "decoding 1 latents", 138));
    }
    if contains(r, "sampling completed") {
        return ProgressStage::SamplingComplete;
    }
    if contains(r, "generating image:") {
        return ProgressStage::Sampling(fraction_since_marker(logs, "generating image:", steps));
    }
    if contains(r, "get_learned_condition completed") {
        return ProgressStage::PromptEncoded;
    }
    if contains(r, "generate_image") {
        return ProgressStage::EncodingPrompt;
    }
    if contains(r, "listening on:") {
        return ProgressStage::Listening;
    }
    ProgressStage::Submitted
}

/// The progress and phase that a stage reports; while decoding or
/// sampling this is where the stage starts, before its step fraction is
/// counted in.
pub open spec fn stage_base(stage: ProgressStage) -> (u8, Seq<char>) {
    match stage {
        ProgressStage::Decoded => (96, "Decoding image"@),
        ProgressStage::Decoding(_) => (88, "Decoding image"@),
        ProgressStage::SamplingComplete => (86, "Sampling complete"@),
        ProgressStage::Sampling(_) => (30, "Sampling"@),
        ProgressStage::PromptEncoded => (28, "Prompt encoded"@),
        ProgressStage::EncodingPrompt => (22, "Encoding prompt"@),
        ProgressStage::Listening => (16, "Queued on sd-server"@),
        ProgressStage::Submitted => (12, "Submitted to sd-server"@),
    }
}

/// The progress and phase of a stage (see [`stage_base`]).
pub fn stage_progress(stage: &ProgressStage) -> (r: (u8, String))
    ensures
        (r.0, r.1@) == stage_base(*stage),
{
    match stage {
        ProgressStage::Decoded => (96, owned("Decoding image")),
        ProgressStage::Decoding(_) => (88, owned("Decoding image")),
        ProgressStage::SamplingComplete => (86, owned("Sampling complete")),
        ProgressStage::Sampling(_) => (30, owned("Sampling")),
        ProgressStage::PromptEncoded => (28, owned("Prompt encoded")),
        ProgressStage::EncodingPrompt => (22, owned("Encoding prompt")),
        ProgressStage::Listening => (16, owned("Queued on sd-server")),
        ProgressStage::Submitted => (12, owned("Submitted to sd-server")),
    }
}

// ---------------------------------------------------------------------
// Server replies

/// The job id in the server's reply to a submission, or why there is none.
pub open spec fn submitted_job_id_spec(body: Seq<char>) -> Result<Seq<char>, Seq<char>> {
    crate::json::required_string(
        body,
        "/id"@,
        "stable-diffusion.cpp server returned invalid JSON: "@,
        "stable-diffusion.cpp server response did not include a job id."@,
    )
}

/// Reads the job id out of the server's reply to a submission.
pub fn submitted_job_id(body: &str) -> (r: Result<String, String>)
    ensures
        match submitted_job_id_spec(body@) {
            Ok(s) => r is Ok && r->Ok_0@ == s,
            Err(e) => r is Err && r->Err_0@ == e,
        },
{
    crate::json::required_string_at(
        body,
        "/id",
        "stable-diffusion.cpp server returned invalid JSON: ",
        "stable-diffusion.cpp server response did not include a job id.",
    )
}

/// The message for a poll reply that is not JSON.
pub open spec fn poll_invalid_json(error: Seq<char>) -> Seq<char> {
    "stable-diffusion.cpp server job poll returned invalid JSON: "@ + error
}

/// The view of an optional string.
pub open spec fn optional_view(s: Option<String>) -> Option<Seq<char>> {
    match s {
        Some(x) => Some(x@),
        None => None,
    }
}

/// Reads a poll reply: its `status` and its `/error/message`, each when it
/// is a string; a reply that is not JSON is an error.  The two fields are
/// what [`classify_poll`] decides on.
pub fn poll_fields(body: &str) -> (r: Result<(Option<String>, Option<String>), String>)
    ensures
        match json_string_at(body@, "/status"@) {
            Err(e) => r is Err && r->Err_0@ == poll_invalid_json(e),
            Ok(status) => match json_string_at(body@, "/error/message"@) {
                Err(e) => r is Err && r->Err_0@ == poll_invalid_json(e),
                Ok(error) => r is Ok && optional_view(r->Ok_0.0) == status && optional_view(r->Ok_0.1)
                    == error,
            },
        },
{
    let status = match json_pointer_str(body, "/status") {
        Err(e) => {
            let mut message = owned("stable-diffusion.cpp server job poll returned invalid JSON: ");
            append(&mut message, e.as_str());
            return Err(message);
        },
        Ok(s) => s,
    };
    let error = match json_pointer_str(body, "/error/message") {
        Err(e) => {
            let mut message = owned("stable-diffusion.cpp server job poll returned invalid JSON: ");
            append(&mut message, e.as_str());
            return Err(message);
        },
        Ok(m) => m,
    };
    Ok((status, error))
}

/// The base64 image in the reply of a completed job, or why there is none.
pub open spec fn completed_image_spec(body: Seq<char>) -> Result<Seq<char>, Seq<char>> {
    crate::json::required_string(
        body,
        "/result/images/0/b64_json"@,
        "stable-diffusion.cpp server job poll returned invalid JSON: "@,
        "stable-diffusion.cpp server completed without an image."@,
    )
}

/// Reads the base64 image (`/result/images/0/b64_json`) out of the reply
/// of a completed job.
pub fn completed_image_b64(body: &str) -> (r: Result<String, String>)
    ensures
        match completed_image_spec(body@) {
            Ok(s) => r is Ok && r->Ok_0@ == s,
            Err(e) => r is Err && r->Err_0@ == e,
        },
{
    crate::json::required_string_at(
        body,
        "/result/images/0/b64_json",
        "stable-diffusion.cpp server job poll returned invalid JSON: ",
        "stable-diffusion.cpp server completed without an image.",
    )
}

/// How far along a stage is: the later the stage, the higher its rank.
pub open spec fn stage_rank(stage: ProgressStage) -> nat {
    match stage {
        ProgressStage::Submitted => 0,
        ProgressStage::Listening => 1,
        ProgressStage::EncodingPrompt => 2,
        ProgressStage::PromptEncoded => 3,
        ProgressStage::Sampling(_) => 4,
        ProgressStage::SamplingComplete => 5,
        ProgressStage::Decoding(_) => 6,
        ProgressStage::Decoded => 7,
    }
}

/// Whether the log text `recent` shows that the stage of rank `rank` was
/// reached: the server's own marker lines for each stage.
pub open spec fn stage_reached(recent: Seq<char>, rank: nat) -> bool {
    if rank == 0 {
        true
    } else if rank == 1 {
        contains_spec(recent, "listening on:"@)
    } else if rank == 2 {
        contains_spec(recent, "generate_image"@)
    } else if rank == 3 {
        contains_spec(recent, "get_learned_condition completed"@)
    } else if rank == 4 {
        contains_spec(recent, "generating image:"@)
    } else if rank == 5 {
        contains_spec(recent, "sampling completed"@)
    } else if rank == 6 {
        contains_spec(recent, "decoding 1 latents"@)
    } else if rank == 7 {
        contains_spec(recent, "decode_first_stage completed"@) || contains_spec(recent, "latent 1 decoded"@)
            || contains_spec(recent, "generating 1 latent images completed"@)
    } else {
        false
    }
}

/// The stage read from the log is the latest stage that the last 80 log
/// lines show: its own marker is there, and no later stage's marker is.
/// So once sampling has completed, the job no longer shows as sampling,
/// even while the line that started sampling is still among the recent
/// ones.
pub proof fn law_latest_stage_wins(logs: Seq<Seq<char>>, steps: u32)
    ensures
        stage_reached(recent_text(logs, 80), stage_rank(progress_stage_spec(logs, steps))),
        forall|rank: nat|
            rank <= 7 && #[trigger] stage_reached(recent_text(logs, 80), rank) ==> rank <= stage_rank(
                progress_stage_spec(logs, steps),
            ),
{
}

} // verus!
