//! The managed `sd-server` process: its launch arguments, the address it
//! listens on, the lines of its log and the phase that the log shows.

use vstd::prelude::*;
use crate::engine_args::{model_args_spec, model_paths_error, validate_model_paths};
use crate::models::{
    BackendPreference, EngineConfig, ManagedImageServerStatus, ModelProfile, strings_view,
};
use crate::sd_server::{recent_log_text, recent_text};
use crate::text::{append, contains, contains_spec, decimal, decimal_string, owned, trim, trim_spec};

verus! {

// ---------------------------------------------------------------------
// Launch arguments

/// The backend arguments given to `sd-server` for a backend preference.
/// On Vulkan only the diffusion model goes to the GPU, its parameters stay
/// on the CPU, and layers are streamed under a 1.5 GB VRAM budget.
pub open spec fn server_backend_args(p: BackendPreference) -> Seq<Seq<char>> {
    match p {
        BackendPreference::Auto => seq![],
        BackendPreference::Vulkan => seq![
            "--backend"@,
            "diffusion=vulkan0,te=cpu,vae=cpu"@,
            "--params-backend"@,
            "diffusion=cpu,te=cpu,vae=cpu"@,
            "--offload-to-cpu"@,
            "--max-vram"@,
            "vulkan0=1.5"@,
            "--stream-layers"@,
        ],
        BackendPreference::Metal => seq![
            "--backend"@,
            "diffusion=MTL0,te=cpu,vae=cpu"@,
            "--params-backend"@,
            "diffusion=MTL0,te=cpu,vae=cpu"@,
        ],
        BackendPreference::Cpu => seq![
            "--backend"@,
            "all=cpu"@,
            "--params-backend"@,
            "all=cpu"@,
            "--offload-to-cpu"@,
        ],
    }
}

fn push_owned(args: &mut Vec<String>, a: String)
    ensures
        strings_view(final(args)@) == strings_view(old(args)@).push(a@),
{
    args.push(a);
    assert(strings_view(args@) =~= strings_view(old(args)@).push(a@));
}

fn push_arg(args: &mut Vec<String>, a: &str)
    ensures
        strings_view(final(args)@) == strings_view(old(args)@).push(a@),
{
    push_owned(args, owned(a));
}

/// The backend arguments for `sd-server` (see [`server_backend_args`]).
pub fn build_backend_args(preference: &BackendPreference) -> (args: Vec<String>)
    ensures
        strings_view(args@) == server_backend_args(*preference),
{
    let mut args: Vec<String> = Vec::new();
    match preference {
        BackendPreference::Auto => {},
        BackendPreference::Vulkan => {
            push_arg(&mut args, "--backend");
            push_arg(&mut args, "diffusion=vulkan0,te=cpu,vae=cpu");
            push_arg(&mut args, "--params-backend");
            push_arg(&mut args, "diffusion=cpu,te=cpu,vae=cpu");
            push_arg(&mut args, "--offload-to-cpu");
            push_arg(&mut args, "--max-vram");
            push_arg(&mut args, "vulkan0=1.5");
            push_arg(&mut args, "--stream-layers");
        },
        BackendPreference::Metal => {
            push_arg(&mut args, "--backend");
            push_arg(&mut args, "diffusion=MTL0,te=cpu,vae=cpu");
            push_arg(&mut args, "--params-backend");
            push_arg(&mut args, "diffusion=MTL0,te=cpu,vae=cpu");
        },
        BackendPreference::Cpu => {
            push_arg(&mut args, "--backend");
            push_arg(&mut args, "all=cpu");
            push_arg(&mut args, "--params-backend");
            push_arg(&mut args, "all=cpu");
            push_arg(&mut args, "--offload-to-cpu");
        },
    }
    assert(strings_view(args@) =~= server_backend_args(*preference));
    args
}

/// The arguments that name the model files of `model`, as `sd-cli` takes
/// them too; blank paths are left out.
pub fn build_model_args(model: &ModelProfile) -> (args: Vec<String>)
    ensures
        strings_view(args@) == model_args_spec(*model),
{
    crate::engine_args::build_model_args(model)
}

// ---------------------------------------------------------------------
// The listening address

/// What `url::Url::parse` makes of a text: the URL's host and its port (or
/// the known default port of its scheme), or the text of the parse error.
pub uninterp spec fn url_host_port(text: Seq<char>) -> Result<(Option<Seq<char>>, Option<u16>), Seq<char>>;

/// Parses `text` as a URL with `reqwest::Url::parse` (the `url` crate's
/// `Url::parse`), and reads `host_str` and `port_or_known_default` of the
/// result; on failure, the `Display` text of the parse error.  Trusted:
/// the result is the value [`url_host_port`] names for `text`.
#[verifier::external_body]
fn parse_url_host_port(text: &str) -> (r: Result<(Option<String>, Option<u16>), String>)
    ensures
        match r {
            Ok((host, port)) => url_host_port(text@) == Ok::<(Option<Seq<char>>, Option<u16>), Seq<char>>((
                match host {
                    Some(h) => Some(h@),
                    None => None,
                },
                port,
            )),
            Err(e) => url_host_port(text@) == Err::<(Option<Seq<char>>, Option<u16>), Seq<char>>(e@),
        },
{
    match reqwest::Url::parse(text) {
        Ok(url) => Ok((url.host_str().map(str::to_string), url.port_or_known_default())),
        Err(error) => Err(error.to_string()),
    }
}

/// The host and port that a parsed server URL gives, or why it gives none.
pub open spec fn server_address_spec(parsed: Result<(Option<Seq<char>>, Option<u16>), Seq<char>>) -> Result<
    (Seq<char>, u16),
    Seq<char>,
> {
    match parsed {
        Err(e) => Err("stable-diffusion.cpp server URL is invalid: "@ + e),
        Ok((None, _)) => Err("stable-diffusion.cpp server URL must include a host."@),
        Ok((Some(_), None)) => Err("stable-diffusion.cpp server URL must include a port."@),
        Ok((Some(host), Some(port))) => Ok((host, port)),
    }
}

/// The view of a host-and-port result.
pub open spec fn address_view(r: Result<(String, u16), String>) -> Result<(Seq<char>, u16), Seq<char>> {
    match r {
        Ok((host, port)) => Ok((host@, port)),
        Err(e) => Err(e@),
    }
}

/// The host and port of a parsed server URL (see [`server_address_spec`]).
pub fn server_address_from(parsed: Result<(Option<String>, Option<u16>), String>) -> (r: Result<(String, u16), String>)
    ensures
        address_view(r) == server_address_spec(match parsed {
            Ok((host, port)) => Ok((
                match host {
                    Some(h) => Some(h@),
                    None => None,
                },
                port,
            )),
            Err(e) => Err(e@),
        }),
{
    match parsed {
        Err(e) => {
            let mut message = owned("stable-diffusion.cpp server URL is invalid: ");
            append(&mut message, e.as_str());
            Err(message)
        },
        Ok((None, _)) => Err(owned("stable-diffusion.cpp server URL must include a host.")),
        Ok((Some(_), None)) => Err(owned("stable-diffusion.cpp server URL must include a port.")),
        Ok((Some(host), Some(port))) => Ok((host, port)),
    }
}

/// The host and port that `sd-server` should listen on, read from the
/// trimmed server URL.
pub fn parse_server_address(server_url: &str) -> (r: Result<(String, u16), String>)
    ensures
        address_view(r) == server_address_spec(url_host_port(trim_spec(server_url@))),
{
    let trimmed = trim(server_url);
    let parsed = parse_url_host_port(trimmed.as_str());
    server_address_from(parsed)
}

/// The `sd-server` arguments for a listening address and a model.
pub open spec fn server_args_spec(
    host: Seq<char>,
    port: u16,
    backend: BackendPreference,
    model: ModelProfile,
) -> Seq<Seq<char>> {
    seq!["--listen-ip"@, host, "--listen-port"@, decimal(port as nat)] + model_args_spec(model)
        + server_backend_args(backend) + strings_view(model.extra_args@)
}

fn extend_args(args: &mut Vec<String>, more: &Vec<String>)
    ensures
        strings_view(final(args)@) == strings_view(old(args)@) + strings_view(more@),
{
    let mut i: usize = 0;
    while i < more.len()
        invariant
            i <= more.len(),
            strings_view(args@) == strings_view(old(args)@) + strings_view(more@.take(i as int)),
        decreases more.len() - i,
    {
        push_owned(args, more[i].clone());
        assert(strings_view(more@.take(i + 1)) =~= strings_view(more@.take(i as int)).push(
            more@[i as int]@,
        ));
        i = i + 1;
    }
    assert(more@.take(more.len() as int) == more@);
}

/// The full `sd-server` argument list: the listening address read from
/// the configured server URL, then the model files, the backend and the
/// model's extra arguments.  Fails as [`parse_server_address`] does.
pub fn build_server_args(engine: &EngineConfig, model: &ModelProfile) -> (r: Result<Vec<String>, String>)
    ensures
        match server_address_spec(url_host_port(trim_spec(engine.server_url@))) {
            Err(e) => r is Err && r->Err_0@ == e,
            Ok((host, port)) => r is Ok && strings_view(r->Ok_0@) == server_args_spec(
                host,
                port,
                engine.backend,
                *model,
            ),
        },
{
    let (host, port) = match parse_server_address(engine.server_url.as_str()) {
        Err(e) => {
            return Err(e);
        },
        Ok(address) => address,
    };
    let ghost host_view = host@;
    let mut args: Vec<String> = Vec::new();
    push_arg(&mut args, "--listen-ip");
    push_owned(&mut args, host);
    push_arg(&mut args, "--listen-port");
    push_owned(&mut args, decimal_string(port as u64));
    assert(strings_view(args@) =~= seq!["--listen-ip"@, host_view, "--listen-port"@, decimal(port as nat)]);
    let model_args = build_model_args(model);
    extend_args(&mut args, &model_args);
    let backend_args = build_backend_args(&engine.backend);
    extend_args(&mut args, &backend_args);
    extend_args(&mut args, &model.extra_args);
    Ok(args)
}

/// What the managed `sd-server` child is doing when a start is asked for.
#[derive(Debug, Clone, Copy, PartialEq, Eq, Structural)]
pub enum ChildState {
    /// No child has been launched, or it was stopped.
    Absent,
    /// The child has exited on its own.
    Exited,
    /// The child is still running.
    Running,
}

/// Whether a start request launches a new `sd-server`: only when there is
/// no running child.  A start while the child runs launches nothing and
/// leaves the server log as it is; it only reports the status.
pub fn start_launches(child: ChildState) -> (launch: bool)
    ensures
        launch <==> child != ChildState::Running,
{
    child != ChildState::Running
}

/// The message for an unusable `sd-server` path.
pub open spec fn invalid_server_binary_message() -> Seq<char> {
    "The stable-diffusion.cpp server binary path is not valid."@
}

/// Checks, before the managed `sd-server` is launched for the active
/// `model`, that the model files pass [`validate_model_paths`] with
/// `model_files_exist`, and then that the trimmed server executable path
/// is set and, as `binary_is_file` tells, is a file; returns that path.
/// The arguments follow from [`build_server_args`].
pub fn check_server_launch(
    engine: &EngineConfig,
    model: &ModelProfile,
    model_files_exist: &Vec<bool>,
    binary_is_file: bool,
) -> (r: Result<String, String>)
    requires
        model_files_exist.len() == 6,
    ensures
        model_paths_error(*model, model_files_exist@) is Some ==> r is Err && Some(r->Err_0@)
            == model_paths_error(*model, model_files_exist@),
        model_paths_error(*model, model_files_exist@) is None && !(trim_spec(engine.server_binary_path@).len()
            > 0 && binary_is_file) ==> r is Err && r->Err_0@ == invalid_server_binary_message(),
        model_paths_error(*model, model_files_exist@) is None && trim_spec(engine.server_binary_path@).len()
            > 0 && binary_is_file ==> r is Ok && r->Ok_0@ == trim_spec(engine.server_binary_path@),
{
    match validate_model_paths(model, model_files_exist) {
        Err(e) => {
            return Err(e);
        },
        Ok(()) => {},
    }
    let binary = trim(engine.server_binary_path.as_str());
    if binary.as_str().is_empty() || !binary_is_file {
        return Err(owned("The stable-diffusion.cpp server binary path is not valid."));
    }
    Ok(binary)
}

// ---------------------------------------------------------------------
// Log lines

/// What `String::from_utf8_lossy` makes of a byte string.
pub uninterp spec fn utf8_lossy(bytes: Seq<u8>) -> Seq<char>;

/// Decodes bytes as UTF-8 with `String::from_utf8_lossy`, which puts
/// U+FFFD in place of each invalid sequence.  Trusted: the result is the
/// value [`utf8_lossy`] names for `bytes`, and valid UTF-8 comes out as the
/// characters it encodes.
#[verifier::external_body]
fn decode_utf8_lossy(bytes: &[u8]) -> (s: String)
    ensures
        s@ == utf8_lossy(bytes@),
        vstd::utf8::valid_utf8(bytes@) ==> s@ == vstd::utf8::decode_utf8(bytes@),
{
    String::from_utf8_lossy(bytes).into_owned()
}

/// The log line that a finished fragment of output on `stream` gives: the
/// trimmed text of the fragment, tagged with the stream's name, unless it
/// is blank.
pub open spec fn fragment_line(stream: Seq<char>, fragment: Seq<u8>) -> Option<Seq<char>> {
    if fragment.len() == 0 {
        None
    } else {
        let line = trim_spec(utf8_lossy(fragment));
        if line.len() == 0 {
            None
        } else {
            Some("["@ + stream + "] "@ + line)
        }
    }
}

/// No line or one line.
pub open spec fn optional_line(line: Option<Seq<char>>) -> Seq<Seq<char>> {
    match line {
        Some(l) => seq![l],
        None => seq![],
    }
}

/// Ends the pending fragment of output on `stream`: the fragment is
/// emptied, and its log line, if it gives one, is returned.
pub fn flush_log_fragment(stream: &str, pending: &mut Vec<u8>) -> (line: Option<String>)
    ensures
        final(pending)@ == Seq::<u8>::empty(),
        match line {
            Some(l) => fragment_line(stream@, old(pending)@) == Some(l@),
            None => fragment_line(stream@, old(pending)@) is None,
        },
{
    if pending.len() == 0 {
        return None;
    }
    let decoded = decode_utf8_lossy(pending.as_slice());
    let text = trim(decoded.as_str());
    pending.clear();
    if text.as_str().is_empty() {
        return None;
    }
    let mut line = owned("[");
    append(&mut line, stream);
    append(&mut line, "] ");
    append(&mut line, text.as_str());
    Some(line)
}

/// Whether a byte ends a line of output (`\n` or `\r`).
pub open spec fn is_line_break(b: u8) -> bool {
    b == 10 || b == 13
}

/// The pending fragment and the log lines after `chunk` has been read on
/// `stream` with `pending` unfinished: every line break ends the pending
/// fragment, every other byte is added to it.
pub open spec fn split_log_spec(stream: Seq<char>, pending: Seq<u8>, chunk: Seq<u8>) -> (Seq<u8>, Seq<Seq<char>>)
    decreases chunk.len(),
{
    if chunk.len() == 0 {
        (pending, seq![])
    } else {
        let (rest, lines) = split_log_spec(stream, pending, chunk.drop_last());
        if is_line_break(chunk.last()) {
            (seq![], lines + optional_line(fragment_line(stream, rest)))
        } else {
            (rest.push(chunk.last()), lines)
        }
    }
}

/// Reads a chunk of output on `stream`: returns the log lines that its line
/// breaks finish, and leaves the unfinished rest in `pending`.
pub fn split_log_chunk(stream: &str, pending: &mut Vec<u8>, chunk: &[u8]) -> (lines: Vec<String>)
    ensures
        (final(pending)@, strings_view(lines@)) == split_log_spec(stream@, old(pending)@, chunk@),
{
    let mut lines: Vec<String> = Vec::new();
    let mut i: usize = 0;
    while i < chunk.len()
        invariant
            i <= chunk.len(),
            (pending@, strings_view(lines@)) == split_log_spec(stream@, old(pending)@, chunk@.take(i as int)),
        decreases chunk.len() - i,
    {
        let b = chunk[i];
        assert(chunk@.take(i + 1).drop_last() == chunk@.take(i as int));
        if b == 10 || b == 13 {
            let ghost before = strings_view(lines@);
            match flush_log_fragment(stream, pending) {
                Some(line) => {
                    push_owned(&mut lines, line);
                },
                None => {},
            }
            assert(strings_view(lines@) =~= before + optional_line(fragment_line(stream@, split_log_spec(stream@, old(pending)@, chunk@.take(i as int)).0)));
        } else {
            pending.push(b);
        }
        i = i + 1;
    }
    assert(chunk@.take(chunk@.len() as int) == chunk@);
    lines
}

/// Reading output in two chunks gives the same lines, and leaves the same
/// fragment pending, as reading it in one: how the output is cut into
/// reads does not matter.
pub proof fn law_log_split_ignores_chunking(stream: Seq<char>, pending: Seq<u8>, first: Seq<u8>, second: Seq<u8>)
    ensures
        ({
            let (p1, l1) = split_log_spec(stream, pending, first);
            let (p2, l2) = split_log_spec(stream, p1, second);
            split_log_spec(stream, pending, first + second) == (p2, l1 + l2)
        }),
    decreases second.len(),
{
    if second.len() == 0 {
        assert(first + second =~= first);
        let (p1, l1) = split_log_spec(stream, pending, first);
        assert(l1 + Seq::<Seq<char>>::empty() =~= l1);
    } else {
        law_log_split_ignores_chunking(stream, pending, first, second.drop_last());
        assert((first + second).drop_last() =~= first + second.drop_last());
        assert((first + second).last() == second.last());
        let (p1, l1) = split_log_spec(stream, pending, first);
        let (q, m) = split_log_spec(stream, p1, second.drop_last());
        assert(l1 + (m + optional_line(fragment_line(stream, q))) =~= (l1 + m) + optional_line(
            fragment_line(stream, q),
        ));
    }
}

// ---------------------------------------------------------------------
// The phase that the log shows

/// The phase of the managed server that its log shows: `Starting` or
/// `Stopped` with no log yet; otherwise the first stage whose marker occurs
/// in the last 20 lines; otherwise `Running` while it runs, or the last
/// line once it has stopped.
pub open spec fn phase_spec(logs: Seq<Seq<char>>, running: bool) -> Seq<char> {
    if logs.len() == 0 {
        if running {
            "Starting"@
        } else {
            "Stopped"@
        }
    } else {
        let recent = recent_text(logs, 20);
        if contains_spec(recent, "listening on:"@) {
            "Ready"@
        } else if contains_spec(recent, "decoding"@) || contains_spec(recent, "decoded"@) {
            "Decoding image"@
        } else if contains_spec(recent, "sampling"@) || contains_spec(recent, "generating image"@) {
            "Sampling"@
        } else if contains_spec(recent, "get_learned_condition"@) {
            "Encoding prompt"@
        } else if contains_spec(recent, "loading"@) {
            "Loading model"@
        } else if running {
            "Running"@
        } else {
            logs.last()
        }
    }
}

/// The phase of the managed server (see [`phase_spec`]).
pub fn infer_phase(logs: &Vec<String>, running: bool) -> (phase: String)
    ensures
        phase@ == phase_spec(strings_view(logs@), running),
{
    if logs.len() == 0 {
        return if running {
            owned("Starting")
        } else {
            owned("Stopped")
        };
    }
    let recent = recent_log_text(logs, 20);
    let r = recent.as_str();
    if contains(r, "listening on:") {
        owned("Ready")
    } else if contains(r, "decoding") || contains(r, "decoded") {
        owned("Decoding image")
    } else if contains(r, "sampling") || contains(r, "generating image") {
        owned("Sampling")
    } else if contains(r, "get_learned_condition") {
        owned("Encoding prompt")
    } else if contains(r, "loading") {
        owned("Loading model")
    } else if running {
        owned("Running")
    } else {
        logs[logs.len() - 1].clone()
    }
}

/// The status report of the managed server: whether it runs, its process
/// id, its address, its log and the phase that the log shows.
pub fn server_status(running: bool, pid: Option<u32>, address: String, logs: Vec<String>) -> (s: ManagedImageServerStatus)
    ensures
        s.running == running,
        s.pid == pid,
        s.address@ == address@,
        s.logs@ == logs@,
        s.phase@ == phase_spec(strings_view(logs@), running),
{
    let phase = infer_phase(&logs, running);
    ManagedImageServerStatus { running, pid, address, phase, logs }
}

/// Each backend preference sends `sd-server` to its own device: Metal
/// puts the diffusion model and its parameters on `MTL0`, exactly as
/// `sd-cli` does; Vulkan puts the diffusion model on `vulkan0` and keeps
/// its parameters on the CPU; the CPU preference runs everything on the
/// CPU; automatic selection passes no backend argument.
pub proof fn law_backend_args_name_their_device()
    ensures
        server_backend_args(BackendPreference::Metal).len() == 4,
        server_backend_args(BackendPreference::Metal)[0] == "--backend"@,
        server_backend_args(BackendPreference::Metal)[1].take(14) == "diffusion=MTL0"@,
        server_backend_args(BackendPreference::Metal)[2] == "--params-backend"@,
        server_backend_args(BackendPreference::Metal)[3].take(14) == "diffusion=MTL0"@,
        server_backend_args(BackendPreference::Metal) == crate::sd_cpp::cli_backend_args(BackendPreference::Metal),
        server_backend_args(BackendPreference::Vulkan)[0] == "--backend"@,
        server_backend_args(BackendPreference::Vulkan)[1].take(17) == "diffusion=vulkan0"@,
        server_backend_args(BackendPreference::Vulkan)[2] == "--params-backend"@,
        server_backend_args(BackendPreference::Vulkan)[3].take(13) == "diffusion=cpu"@,
        server_backend_args(BackendPreference::Cpu)[1] == "all=cpu"@,
        server_backend_args(BackendPreference::Cpu)[3] == "all=cpu"@,
        server_backend_args(BackendPreference::Auto).len() == 0,
{
    reveal_strlit("diffusion=MTL0,te=cpu,vae=cpu");
    reveal_strlit("diffusion=MTL0");
    reveal_strlit("diffusion=vulkan0,te=cpu,vae=cpu");
    reveal_strlit("diffusion=vulkan0");
    reveal_strlit("diffusion=cpu,te=cpu,vae=cpu");
    reveal_strlit("diffusion=cpu");
    assert(("diffusion=MTL0,te=cpu,vae=cpu"@).take(14) =~= "diffusion=MTL0"@);
    assert(("diffusion=vulkan0,te=cpu,vae=cpu"@).take(17) =~= "diffusion=vulkan0"@);
    assert(("diffusion=cpu,te=cpu,vae=cpu"@).take(13) =~= "diffusion=cpu"@);
}

} // verus!
