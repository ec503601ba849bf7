//! The mock image engine: a deterministic SVG that shows the request, so
//! the whole workflow can be exercised without a model.

use vstd::prelude::*;
use crate::clock;
use crate::escape::{xml_escape, xml_escape_spec};
use crate::ids;
use crate::models::{AssetKind, EngineMode, EngineProbe, GeneratedAsset, GenerationRequest};
use crate::paths::{join_path, join_path_spec};
use crate::text::{append, decimal, owned, push_decimal};

verus! {

/// `x`, or `u32::MAX` when it is larger (`u32::saturating_mul`).
pub open spec fn saturated(x: nat) -> nat {
    if x > u32::MAX {
        u32::MAX as nat
    } else {
        x
    }
}

/// `a * k`, saturating at `u32::MAX`.
pub fn saturating_mul(a: u32, k: u32) -> (r: u32)
    ensures
        r == saturated((a * k) as nat),
{
    assert((a as u64) * (k as u64) <= 0xFFFF_FFFFu64 * 0xFFFF_FFFFu64) by (nonlinear_arith);
    let p: u64 = (a as u64) * (k as u64);
    if p > 0xFFFF_FFFF {
        u32::MAX
    } else {
        p as u32
    }
}

/// The mock output SVG for a `width` by `height` image: an orb coloured by
/// the seed, the escaped prompt and negative prompt, the steps and seed,
/// and the time of generation.
#[verifier::opaque]
pub open spec fn mock_svg_spec(
    width: u32,
    height: u32,
    steps: u32,
    seed: u64,
    prompt: Seq<char>,
    negative: Seq<char>,
    timestamp: Seq<char>,
) -> Seq<char> {
    let w = width as nat;
    let h = height as nat;
    let m = if w <= h { w } else { h };
    let accent = (seed % 360) as nat;
    let width = w;
    let height = h;
    let steps = steps as nat;
    let seed = seed as nat;
    let circle_x = (saturated(w * 78) / 100) as nat;
    let circle_y = (saturated(h * 28) / 100) as nat;
    let circle_r = (saturated(m * 22) / 100) as nat;
    let pad = (saturated(m * 5) / 100) as nat;
    let inner_w = (saturated(w * 90) / 100) as nat;
    let inner_h = (saturated(h * 90) / 100) as nat;
    let radius = (saturated(m * 4) / 100) as nat;
    let text_x = (saturated(w * 9) / 100) as nat;
    let title_y = (saturated(h * 15) / 100) as nat;
    let title_size = (saturated(m * 4) / 100) as nat;
    let meta_y = (saturated(h * 21) / 100) as nat;
    let meta_size = (saturated(m * 2) / 100) as nat;
    let prompt_y = (saturated(h * 29) / 100) as nat;
    let text_w = (saturated(w * 72) / 100) as nat;
    let prompt_h = (saturated(h * 36) / 100) as nat;
    let prompt_size = (saturated(m * 7) / 100) as nat;
    let negative_y = (saturated(h * 69) / 100) as nat;
    let negative_h = (saturated(h * 12) / 100) as nat;
    let negative_size = (saturated(m * 2) / 100) as nat;
    let footer_y = (saturated(h * 90) / 100) as nat;
    let footer_size = (saturated(m * 2) / 100) as nat;
    "<svg xmlns=\"http://www.w3.org/2000/svg\" width=\""@
        + decimal(width)
        + "\" height=\""@
        + decimal(height)
        + "\" viewBox=\"0 0 "@
        + decimal(width)
        + " "@
        + decimal(height)
        + "\">\n  <defs>\n    <radialGradient id=\"orb\" cx=\"72%\" cy=\"22%\" r=\"62%\">\n      <stop offset=\"0%\" stop-color=\"hsl("@
        + decimal(accent)
        + " 82% 68%)\"/>\n      <stop offset=\"42%\" stop-color=\"hsl("@
        + decimal(accent)
        + " 52% 31%)\"/>\n      <stop offset=\"100%\" stop-color=\"#080b12\"/>\n    </radialGradient>\n    <linearGradient id=\"glass\" x1=\"0\" y1=\"0\" x2=\"1\" y2=\"1\">\n      <stop offset=\"0%\" stop-color=\"#ffffff\" stop-opacity=\".18\"/>\n      <stop offset=\"100%\" stop-color=\"#ffffff\" stop-opacity=\".025\"/>\n    </linearGradient>\n    <filter id=\"blur\"><feGaussianBlur stdDeviation=\"38\"/></filter>\n  </defs>\n  <rect width=\"100%\" height=\"100%\" fill=\"#080b12\"/>\n  <rect width=\"100%\" height=\"100%\" fill=\"url(#orb)\"/>\n  <circle cx=\""@
        + decimal(circle_x)
        + "\" cy=\""@
        + decimal(circle_y)
        + "\" r=\""@
        + decimal(circle_r)
        + "\" fill=\"hsl("@
        + decimal(accent)
        + " 90% 72%)\" opacity=\".24\" filter=\"url(#blur)\"/>\n  <rect x=\""@
        + decimal(pad)
        + "\" y=\""@
        + decimal(pad)
        + "\" width=\""@
        + decimal(inner_w)
        + "\" height=\""@
        + decimal(inner_h)
        + "\" rx=\""@
        + decimal(radius)
        + "\" fill=\"url(#glass)\" stroke=\"#ffffff\" stroke-opacity=\".16\"/>\n  <text x=\""@
        + decimal(text_x)
        + "\" y=\""@
        + decimal(title_y)
        + "\" fill=\"#ffffff\" font-family=\"Arial, Helvetica, sans-serif\" font-size=\""@
        + decimal(title_size)
        + "\" font-weight=\"800\">MOCK GENERATION</text>\n  <text x=\""@
        + decimal(text_x)
        + "\" y=\""@
        + decimal(meta_y)
        + "\" fill=\"#c7ff70\" font-family=\"Arial, Helvetica, sans-serif\" font-size=\""@
        + decimal(meta_size)
        + "\" font-weight=\"700\">"@
        + decimal(width)
        + " \u{D7} "@
        + decimal(height)
        + " \u{B7} "@
        + decimal(steps)
        + " steps \u{B7} seed "@
        + decimal(seed)
        + "</text>\n  <foreignObject x=\""@
        + decimal(text_x)
        + "\" y=\""@
        + decimal(prompt_y)
        + "\" width=\""@
        + decimal(text_w)
        + "\" height=\""@
        + decimal(prompt_h)
        + "\">\n    <div xmlns=\"http://www.w3.org/1999/xhtml\" style=\"font-family:Arial,Helvetica,sans-serif;color:white;font-size:"@
        + decimal(prompt_size)
        + "px;font-weight:700;line-height:1.12;letter-spacing:-0.035em;overflow:hidden;\">"@
        + prompt
        + "</div>\n  </foreignObject>\n  <foreignObject x=\""@
        + decimal(text_x)
        + "\" y=\""@
        + decimal(negative_y)
        + "\" width=\""@
        + decimal(text_w)
        + "\" height=\""@
        + decimal(negative_h)
        + "\">\n    <div xmlns=\"http://www.w3.org/1999/xhtml\" style=\"font-family:Arial,Helvetica,sans-serif;color:rgba(255,255,255,.54);font-size:"@
        + decimal(negative_size)
        + "px;line-height:1.35;overflow:hidden;\">Negative: "@
        + negative
        + "</div>\n  </foreignObject>\n  <text x=\""@
        + decimal(text_x)
        + "\" y=\""@
        + decimal(footer_y)
        + "\" fill=\"#ffffff\" fill-opacity=\".45\" font-family=\"Arial, Helvetica, sans-serif\" font-size=\""@
        + decimal(footer_size)
        + "\">Imgen Pro viability output \u{B7} "@
        + timestamp
        + "</text>\n</svg>"@
}

/// The mock output SVG (see [`mock_svg_spec`]); `prompt` and `negative`
/// are already escaped.
pub fn mock_svg(
    width: u32,
    height: u32,
    steps: u32,
    seed: u64,
    prompt: &str,
    negative: &str,
    timestamp: &str,
) -> (markup: String)
    ensures
        markup@ == mock_svg_spec(width, height, steps, seed, prompt@, negative@, timestamp@),
{
    reveal(mock_svg_spec);
    let w: u32 = width;
    let h: u32 = height;
    let m: u32 = if w <= h { w } else { h };
    let accent: u64 = seed % 360;
    let circle_x: u32 = saturating_mul(w, 78) / 100;
    let circle_y: u32 = saturating_mul(h, 28) / 100;
    let circle_r: u32 = saturating_mul(m, 22) / 100;
    let pad: u32 = saturating_mul(m, 5) / 100;
    let inner_w: u32 = saturating_mul(w, 90) / 100;
    let inner_h: u32 = saturating_mul(h, 90) / 100;
    let radius: u32 = saturating_mul(m, 4) / 100;
    let text_x: u32 = saturating_mul(w, 9) / 100;
    let title_y: u32 = saturating_mul(h, 15) / 100;
    let title_size: u32 = saturating_mul(m, 4) / 100;
    let meta_y: u32 = saturating_mul(h, 21) / 100;
    let meta_size: u32 = saturating_mul(m, 2) / 100;
    let prompt_y: u32 = saturating_mul(h, 29) / 100;
    let text_w: u32 = saturating_mul(w, 72) / 100;
    let prompt_h: u32 = saturating_mul(h, 36) / 100;
    let prompt_size: u32 = saturating_mul(m, 7) / 100;
    let negative_y: u32 = saturating_mul(h, 69) / 100;
    let negative_h: u32 = saturating_mul(h, 12) / 100;
    let negative_size: u32 = saturating_mul(m, 2) / 100;
    let footer_y: u32 = saturating_mul(h, 90) / 100;
    let footer_size: u32 = saturating_mul(m, 2) / 100;
    let mut s = owned("<svg xmlns=\"http://www.w3.org/2000/svg\" width=\"");
    push_decimal(&mut s, width as u64);
    append(&mut s, "\" height=\"");
    push_decimal(&mut s, height as u64);
    append(&mut s, "\" viewBox=\"0 0 ");
    push_decimal(&mut s, width as u64);
    append(&mut s, " ");
    push_decimal(&mut s, height as u64);
    append(&mut s, "\">\n  <defs>\n    <radialGradient id=\"orb\" cx=\"72%\" cy=\"22%\" r=\"62%\">\n      <stop offset=\"0%\" stop-color=\"hsl(");
    push_decimal(&mut s, accent as u64);
    append(&mut s, " 82% 68%)\"/>\n      <stop offset=\"42%\" stop-color=\"hsl(");
    push_decimal(&mut s, accent as u64);
    append(&mut s, " 52% 31%)\"/>\n      <stop offset=\"100%\" stop-color=\"#080b12\"/>\n    </radialGradient>\n    <linearGradient id=\"glass\" x1=\"0\" y1=\"0\" x2=\"1\" y2=\"1\">\n      <stop offset=\"0%\" stop-color=\"#ffffff\" stop-opacity=\".18\"/>\n      <stop offset=\"100%\" stop-color=\"#ffffff\" stop-opacity=\".025\"/>\n    </linearGradient>\n    <filter id=\"blur\"><feGaussianBlur stdDeviation=\"38\"/></filter>\n  </defs>\n  <rect width=\"100%\" height=\"100%\" fill=\"#080b12\"/>\n  <rect width=\"100%\" height=\"100%\" fill=\"url(#orb)\"/>\n  <circle cx=\"");
    push_decimal(&mut s, circle_x as u64);
    append(&mut s, "\" cy=\"");
    push_decimal(&mut s, circle_y as u64);
    append(&mut s, "\" r=\"");
    push_decimal(&mut s, circle_r as u64);
    append(&mut s, "\" fill=\"hsl(");
    push_decimal(&mut s, accent as u64);
    append(&mut s, " 90% 72%)\" opacity=\".24\" filter=\"url(#blur)\"/>\n  <rect x=\"");
    push_decimal(&mut s, pad as u64);
    append(&mut s, "\" y=\"");
    push_decimal(&mut s, pad as u64);
    append(&mut s, "\" width=\"");
    push_decimal(&mut s, inner_w as u64);
    append(&mut s, "\" height=\"");
    push_decimal(&mut s, inner_h as u64);
    append(&mut s, "\" rx=\"");
    push_decimal(&mut s, radius as u64);
    append(&mut s, "\" fill=\"url(#glass)\" stroke=\"#ffffff\" stroke-opacity=\".16\"/>\n  <text x=\"");
    push_decimal(&mut s, text_x as u64);
    append(&mut s, "\" y=\"");
    push_decimal(&mut s, title_y as u64);
    append(&mut s, "\" fill=\"#ffffff\" font-family=\"Arial, Helvetica, sans-serif\" font-size=\"");
    push_decimal(&mut s, title_size as u64);
    append(&mut s, "\" font-weight=\"800\">MOCK GENERATION</text>\n  <text x=\"");
    push_decimal(&mut s, text_x as u64);
    append(&mut s, "\" y=\"");
    push_decimal(&mut s, meta_y as u64);
    append(&mut s, "\" fill=\"#c7ff70\" font-family=\"Arial, Helvetica, sans-serif\" font-size=\"");
    push_decimal(&mut s, meta_size as u64);
    append(&mut s, "\" font-weight=\"700\">");
    push_decimal(&mut s, width as u64);
    append(&mut s, " \u{D7} ");
    push_decimal(&mut s, height as u64);
    append(&mut s, " \u{B7} ");
    push_decimal(&mut s, steps as u64);
    append(&mut s, " steps \u{B7} seed ");
    push_decimal(&mut s, seed as u64);
    append(&mut s, "</text>\n  <foreignObject x=\"");
    push_decimal(&mut s, text_x as u64);
    append(&mut s, "\" y=\"");
    push_decimal(&mut s, prompt_y as u64);
    append(&mut s, "\" width=\"");
    push_decimal(&mut s, text_w as u64);
    append(&mut s, "\" height=\"");
    push_decimal(&mut s, prompt_h as u64);
    append(&mut s, "\">\n    <div xmlns=\"http://www.w3.org/1999/xhtml\" style=\"font-family:Arial,Helvetica,sans-serif;color:white;font-size:");
    push_decimal(&mut s, prompt_size as u64);
    append(&mut s, "px;font-weight:700;line-height:1.12;letter-spacing:-0.035em;overflow:hidden;\">");
    append(&mut s, prompt);
    append(&mut s, "</div>\n  </foreignObject>\n  <foreignObject x=\"");
    push_decimal(&mut s, text_x as u64);
    append(&mut s, "\" y=\"");
    push_decimal(&mut s, negative_y as u64);
    append(&mut s, "\" width=\"");
    push_decimal(&mut s, text_w as u64);
    append(&mut s, "\" height=\"");
    push_decimal(&mut s, negative_h as u64);
    append(&mut s, "\">\n    <div xmlns=\"http://www.w3.org/1999/xhtml\" style=\"font-family:Arial,Helvetica,sans-serif;color:rgba(255,255,255,.54);font-size:");
    push_decimal(&mut s, negative_size as u64);
    append(&mut s, "px;line-height:1.35;overflow:hidden;\">Negative: ");
    append(&mut s, negative);
    append(&mut s, "</div>\n  </foreignObject>\n  <text x=\"");
    push_decimal(&mut s, text_x as u64);
    append(&mut s, "\" y=\"");
    push_decimal(&mut s, footer_y as u64);
    append(&mut s, "\" fill=\"#ffffff\" fill-opacity=\".45\" font-family=\"Arial, Helvetica, sans-serif\" font-size=\"");
    push_decimal(&mut s, footer_size as u64);
    append(&mut s, "\">Imgen Pro viability output \u{B7} ");
    append(&mut s, timestamp);
    append(&mut s, "</text>\n</svg>");
    s
}

/// What the mock engine produces for one job: the file to write, its
/// contents, the asset record and the log lines.
#[derive(Debug)]
pub struct MockOutput {
    pub output_path: String,
    pub svg: String,
    pub asset: GeneratedAsset,
    pub logs: Vec<String>,
}

/// The size the mock engine renders: each dimension is at least 256.
pub open spec fn mock_dimension(d: u32) -> u32 {
    if d < 256 {
        256
    } else {
        d
    }
}

/// The mock engine's output for job `job_id`: an SVG written to
/// `<outputs>/<job_id>.svg`, seeded by the request's seed or, without one,
/// by a random seed, and stamped with the current time in RFC 3339 form.
pub fn render_mock_output(outputs_dir: &str, job_id: &str, request: &GenerationRequest) -> (out: MockOutput)
    ensures
        out.output_path@ == join_path_spec(outputs_dir@, job_id@ + ".svg"@),
        exists|seed: u64, seconds: i64, nanos: u32|
            (request.seed is Some ==> seed == request.seed->0) && nanos < 2_000_000_000 && #[trigger] mock_svg_spec(
                mock_dimension(request.width),
                mock_dimension(request.height),
                request.steps,
                seed,
                xml_escape_spec(request.prompt@),
                xml_escape_spec(request.negative_prompt@),
                clock::rfc3339_utc(seconds, nanos),
            ) == out.svg@,
        ids::is_uuid_v4_text(out.asset.id@),
        out.asset.path@ == out.output_path@,
        out.asset.mime_type@ == "image/svg+xml"@,
        out.asset.width == mock_dimension(request.width),
        out.asset.height == mock_dimension(request.height),
        out.asset.kind == AssetKind::Image,
        out.logs@.len() == 2,
        out.logs@[0]@ == "Mock engine selected."@,
        out.logs@[1]@ == "Wrote viability output to "@ + out.output_path@,
{
    let mut file_name = owned(job_id);
    append(&mut file_name, ".svg");
    let output_path = join_path(outputs_dir, file_name.as_str());
    let prompt = xml_escape(request.prompt.as_str());
    let negative = xml_escape(request.negative_prompt.as_str());
    let seed = match request.seed {
        Some(s) => s,
        None => ids::random_seed(),
    };
    let width = if request.width < 256 { 256 } else { request.width };
    let height = if request.height < 256 { 256 } else { request.height };
    let stamp = clock::now_rfc3339();
    let svg = mock_svg(width, height, request.steps, seed, prompt.as_str(), negative.as_str(), stamp.as_str());
    assert(width == mock_dimension(request.width));
    assert(height == mock_dimension(request.height));
    assert(mock_svg_spec(
        mock_dimension(request.width),
        mock_dimension(request.height),
        request.steps,
        seed,
        xml_escape_spec(request.prompt@),
        xml_escape_spec(request.negative_prompt@),
        stamp@,
    ) == svg@);
    let ghost (seconds, nanos) = choose|seconds: i64, nanos: u32|
        nanos < 2_000_000_000 && stamp@ == #[trigger] clock::rfc3339_utc(seconds, nanos);
    let mut logs: Vec<String> = Vec::new();
    logs.push(owned("Mock engine selected."));
    let mut wrote = owned("Wrote viability output to ");
    append(&mut wrote, output_path.as_str());
    logs.push(wrote);
    let asset = GeneratedAsset {
        id: ids::new_uuid_text(),
        path: output_path.clone(),
        mime_type: owned("image/svg+xml"),
        width,
        height,
        kind: AssetKind::Image,
    };
    MockOutput { output_path, svg, asset, logs }
}

/// The probe result of the mock engine, which is always ready and needs no
/// external process.
pub fn mock_probe() -> (probe: EngineProbe)
    ensures
        probe.ready,
        probe.mode == EngineMode::Mock,
        probe.binary_path@.len() == 0,
        probe.summary@ == "Mock engine is ready for workflow viability testing."@,
        probe.output@ == "No external process is required in mock mode."@,
{
    EngineProbe {
        ready: true,
        mode: EngineMode::Mock,
        binary_path: String::new(),
        summary: owned("Mock engine is ready for workflow viability testing."),
        output: owned("No external process is required in mock mode."),
    }
}

} // verus!
