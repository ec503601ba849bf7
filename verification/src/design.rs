//! The SVG design composer: validation of design requests, the
//! feature-poster and web-hero templates, the image layer, and the names
//! and records of saved designs.

use vstd::prelude::*;
use crate::escape::{is_clean_name, sanitize_name, sanitize_name_spec, xml_escape, xml_escape_spec};
use crate::ids;
use crate::models::{AssetKind, DesignRequest, GeneratedAsset};
use crate::paths::{join_path, join_path_spec};
use crate::text::{append, contains_spec, decimal, is_blank, is_blank_spec, occurs_at, owned, push_decimal};

verus! {

// ---------------------------------------------------------------------
// Outside encoders

/// The standard base64 encoding of `bytes`, as `base64`'s `STANDARD`
/// engine writes it.
pub uninterp spec fn base64_standard(bytes: Seq<u8>) -> Seq<char>;

/// Whether `c` belongs to the standard base64 alphabet or is the padding
/// character.
pub open spec fn is_base64_char(c: char) -> bool {
    ('A' <= c && c <= 'Z') || ('a' <= c && c <= 'z') || ('0' <= c && c <= '9') || c == '+'
        || c == '/' || c == '='
}

/// The length of the padded base64 encoding of `n` bytes.
pub open spec fn base64_len(n: nat) -> nat {
    4 * ((n + 2) / 3)
}

/// `base64::engine::general_purpose::STANDARD.encode(bytes)`.  The engine
/// uses the alphabet `A-Z a-z 0-9 + /` with `=` padding, so the text has
/// `4 * ceil(n / 3)` characters from that set; the crate panics when that
/// length overflows `usize`, which `requires` rules out.
#[verifier::external_body]
fn encode_base64(bytes: &[u8]) -> (text: String)
    requires
        base64_len(bytes@.len()) <= usize::MAX,
    ensures
        text@ == base64_standard(bytes@),
        text@.len() == base64_len(bytes@.len()),
        forall|i: int| 0 <= i < text@.len() ==> is_base64_char(#[trigger] text@[i]),
{
    base64::Engine::encode(&base64::engine::general_purpose::STANDARD, bytes)
}

/// The MIME type that `mime_guess` assigns to the extension of `path`.
pub uninterp spec fn guessed_mime(path: Seq<char>) -> Seq<char>;

/// `mime_guess::from_path(path).first_or_octet_stream()`, as its essence
/// string (`type/subtype`).  The value depends on the path's extension
/// through the crate's table and is named, not stated.
#[verifier::external_body]
fn mime_type_for_path(path: &str) -> (mime: String)
    ensures
        mime@ == guessed_mime(path@),
{
    mime_guess::from_path(path).first_or_octet_stream().essence_str().to_string()
}

// ---------------------------------------------------------------------
// Requests

/// Why a design request is refused, if it is.
pub open spec fn design_request_error(title: Seq<char>, width: u32, height: u32) -> Option<Seq<char>> {
    if is_blank_spec(title) {
        Some("Design headline cannot be empty."@)
    } else if !(320 <= width <= 4096) || !(320 <= height <= 4096) {
        Some("Design dimensions must be between 320 and 4096 pixels."@)
    } else {
        None
    }
}

/// Accepts a design request with a non-blank headline and both dimensions
/// in 320..=4096; otherwise names the first problem.
pub fn validate_design_request(request: &DesignRequest) -> (r: Result<(), String>)
    ensures
        r is Ok <==> design_request_error(request.title@, request.width, request.height) is None,
        r is Err ==> Some(r->Err_0@) == design_request_error(request.title@, request.width, request.height),
{
    if is_blank(request.title.as_str()) {
        return Err(owned("Design headline cannot be empty."));
    }
    if !(320 <= request.width && request.width <= 4096) || !(320 <= request.height && request.height
        <= 4096) {
        return Err(owned("Design dimensions must be between 320 and 4096 pixels."));
    }
    Ok(())
}

// ---------------------------------------------------------------------
// Image layers

/// The gradient panel and glow that stand in for a missing background image.
pub open spec fn placeholder_layer_spec(width: u32, height: u32) -> Seq<char> {
    let w = width as nat;
    let h = height as nat;
    let m = if w <= h { w } else { h };
    let x = (w * 52 / 100) as nat;
    let y = (h * 7 / 100) as nat;
    let pw = (w * 42 / 100) as nat;
    let ph = (h * 86 / 100) as nat;
    let r = (m * 4 / 100) as nat;
    let cx = (w * 78 / 100) as nat;
    let cy = (h * 33 / 100) as nat;
    let cr = (m * 17 / 100) as nat;
    "<rect x=\""@
        + decimal(x)
        + "\" y=\""@
        + decimal(y)
        + "\" width=\""@
        + decimal(pw)
        + "\" height=\""@
        + decimal(ph)
        + "\" rx=\""@
        + decimal(r)
        + "\" fill=\"url(#visualGradient)\"/>\n<circle cx=\""@
        + decimal(cx)
        + "\" cy=\""@
        + decimal(cy)
        + "\" r=\""@
        + decimal(cr)
        + "\" fill=\"#c8ff70\" opacity=\".32\" filter=\"url(#softBlur)\"/>"@
}

/// The gradient panel and glow that stand in for a missing background
/// image, laid out for a `width` by `height` canvas.
pub fn placeholder_image_layer(width: u32, height: u32) -> (markup: String)
    requires
        width * 78 <= u32::MAX,
        height * 86 <= u32::MAX,
    ensures
        markup@ == placeholder_layer_spec(width, height),
{
    let w: u32 = width;
    let h: u32 = height;
    let m: u32 = if w <= h { w } else { h };
    let x: u32 = w * 52 / 100;
    let y: u32 = h * 7 / 100;
    let pw: u32 = w * 42 / 100;
    let ph: u32 = h * 86 / 100;
    let r: u32 = m * 4 / 100;
    let cx: u32 = w * 78 / 100;
    let cy: u32 = h * 33 / 100;
    let cr: u32 = m * 17 / 100;
    let mut s = owned("<rect x=\"");
    push_decimal(&mut s, x as u64);
    append(&mut s, "\" y=\"");
    push_decimal(&mut s, y as u64);
    append(&mut s, "\" width=\"");
    push_decimal(&mut s, pw as u64);
    append(&mut s, "\" height=\"");
    push_decimal(&mut s, ph as u64);
    append(&mut s, "\" rx=\"");
    push_decimal(&mut s, r as u64);
    append(&mut s, "\" fill=\"url(#visualGradient)\"/>\n<circle cx=\"");
    push_decimal(&mut s, cx as u64);
    append(&mut s, "\" cy=\"");
    push_decimal(&mut s, cy as u64);
    append(&mut s, "\" r=\"");
    push_decimal(&mut s, cr as u64);
    append(&mut s, "\" fill=\"#c8ff70\" opacity=\".32\" filter=\"url(#softBlur)\"/>");
    s
}

/// The element that embeds an image, as a data URI, in the visual panel.
pub open spec fn image_layer_spec(width: u32, height: u32, mime: Seq<char>, encoded: Seq<char>) -> Seq<char> {
    let w = width as nat;
    let h = height as nat;
    let x = (w * 52 / 100) as nat;
    let y = (h * 7 / 100) as nat;
    let pw = (w * 42 / 100) as nat;
    let ph = (h * 86 / 100) as nat;
    "<image href=\"data:"@
        + mime
        + ";base64,"@
        + encoded
        + "\" x=\""@
        + decimal(x)
        + "\" y=\""@
        + decimal(y)
        + "\" width=\""@
        + decimal(pw)
        + "\" height=\""@
        + decimal(ph)
        + "\" preserveAspectRatio=\"xMidYMid slice\" clip-path=\"url(#visualClip)\"/>"@
}

fn image_layer_markup(width: u32, height: u32, mime: &str, encoded: &str) -> (markup: String)
    requires
        width * 52 <= u32::MAX,
        height * 86 <= u32::MAX,
    ensures
        markup@ == image_layer_spec(width, height, mime@, encoded@),
{
    let w: u32 = width;
    let h: u32 = height;
    let x: u32 = w * 52 / 100;
    let y: u32 = h * 7 / 100;
    let pw: u32 = w * 42 / 100;
    let ph: u32 = h * 86 / 100;
    let mut s = owned("<image href=\"data:");
    append(&mut s, mime);
    append(&mut s, ";base64,");
    append(&mut s, encoded);
    append(&mut s, "\" x=\"");
    push_decimal(&mut s, x as u64);
    append(&mut s, "\" y=\"");
    push_decimal(&mut s, y as u64);
    append(&mut s, "\" width=\"");
    push_decimal(&mut s, pw as u64);
    append(&mut s, "\" height=\"");
    push_decimal(&mut s, ph as u64);
    append(&mut s, "\" preserveAspectRatio=\"xMidYMid slice\" clip-path=\"url(#visualClip)\"/>");
    s
}

/// The element that embeds the background image read from `path` (its
/// bytes in `bytes`) in the visual panel, as a base64 data URI whose MIME
/// type is guessed from the path.
pub fn embedded_image_layer(path: &str, bytes: &[u8], width: u32, height: u32) -> (markup: String)
    requires
        width * 52 <= u32::MAX,
        height * 86 <= u32::MAX,
        base64_len(bytes@.len()) <= usize::MAX,
    ensures
        markup@ == image_layer_spec(width, height, guessed_mime(path@), base64_standard(bytes@)),
{
    let mime = mime_type_for_path(path);
    let encoded = encode_base64(bytes);
    image_layer_markup(width, height, mime.as_str(), encoded.as_str())
}

/// Where the visual panel of a design comes from.
#[derive(Debug)]
pub enum BackgroundSource {
    /// No background image was given: the gradient placeholder is drawn.
    Placeholder,
    /// The image file at the given path is embedded.
    File,
}

/// Decides the visual panel of a design from its background image path:
/// a blank path gives the placeholder; otherwise the path must name a
/// file (`is_file`) inside the application's data directory
/// (`inside_app_data`), whose contents are then embedded.
pub fn background_source(path: &str, is_file: bool, inside_app_data: bool) -> (r: Result<BackgroundSource, String>)
    ensures
        is_blank_spec(path@) ==> r is Ok && r->Ok_0 is Placeholder,
        !is_blank_spec(path@) && !is_file ==> r is Err && r->Err_0@ == "Background image does not exist: "@ + path@,
        !is_blank_spec(path@) && is_file && !inside_app_data ==> r is Err && r->Err_0@
            == "Background image must come from the Imgen Pro output or design library."@,
        !is_blank_spec(path@) && is_file && inside_app_data ==> r is Ok && r->Ok_0 is File,
{
    if is_blank(path) {
        return Ok(BackgroundSource::Placeholder);
    }
    if !is_file {
        let mut message = owned("Background image does not exist: ");
        append(&mut message, path);
        return Err(message);
    }
    if !inside_app_data {
        return Err(owned("Background image must come from the Imgen Pro output or design library."));
    }
    Ok(BackgroundSource::File)
}

/// Admits an asset preview only for a file inside the application's data
/// directory, as `inside_app_data` tells.
pub fn check_preview_path(inside_app_data: bool) -> (r: Result<(), String>)
    ensures
        r is Ok <==> inside_app_data,
        r is Err ==> r->Err_0@ == "Asset preview path is outside the Imgen Pro data directory."@,
{
    if inside_app_data {
        Ok(())
    } else {
        Err(owned("Asset preview path is outside the Imgen Pro data directory."))
    }
}

/// The data URI under which the asset at `path`, with contents `bytes`, is
/// previewed: `data:<mime>;base64,<base64 of the bytes>`.
pub fn asset_data_uri(path: &str, bytes: &[u8]) -> (uri: String)
    requires
        base64_len(bytes@.len()) <= usize::MAX,
    ensures
        uri@ == "data:"@ + guessed_mime(path@) + ";base64,"@ + base64_standard(bytes@),
{
    let mime = mime_type_for_path(path);
    let encoded = encode_base64(bytes);
    let mut uri = owned("data:");
    append(&mut uri, mime.as_str());
    append(&mut uri, ";base64,");
    append(&mut uri, encoded.as_str());
    uri
}

// ---------------------------------------------------------------------
// Templates

/// The poster's markup up to its image layer.
#[verifier::opaque]
pub open spec fn poster_seg_open(width: u32, height: u32) -> Seq<char> {
    let w = width as nat;
    let h = height as nat;
    let m = if w <= h { w } else { h };
    let visual_x = (w * 52 / 100) as nat;
    let visual_y = (h * 7 / 100) as nat;
    let visual_w = (w * 42 / 100) as nat;
    let visual_h = (h * 86 / 100) as nat;
    let visual_radius = (m * 4 / 100) as nat;
    let outer = (m * 3 / 100) as nat;
    let inner_w = (w - (m * 6 / 100)) as nat;
    let inner_h = (h - (m * 6 / 100)) as nat;
    let outer_radius = (m * 4 / 100) as nat;
    "<svg xmlns=\"http://www.w3.org/2000/svg\" width=\""@
        + decimal(w)
        + "\" height=\""@
        + decimal(h)
        + "\" viewBox=\"0 0 "@
        + decimal(w)
        + " "@
        + decimal(h)
        + "\">\n  <defs>\n    <linearGradient id=\"background\" x1=\"0\" y1=\"0\" x2=\"1\" y2=\"1\">\n      <stop offset=\"0%\" stop-color=\"#f7f9fb\"/>\n      <stop offset=\"100%\" stop-color=\"#dfe8ea\"/>\n    </linearGradient>\n    <linearGradient id=\"visualGradient\" x1=\"0\" y1=\"0\" x2=\"1\" y2=\"1\">\n      <stop offset=\"0%\" stop-color=\"#182338\"/>\n      <stop offset=\"55%\" stop-color=\"#496b6b\"/>\n      <stop offset=\"100%\" stop-color=\"#10151f\"/>\n    </linearGradient>\n    <clipPath id=\"visualClip\"><rect x=\""@
        + decimal(visual_x)
        + "\" y=\""@
        + decimal(visual_y)
        + "\" width=\""@
        + decimal(visual_w)
        + "\" height=\""@
        + decimal(visual_h)
        + "\" rx=\""@
        + decimal(visual_radius)
        + "\"/></clipPath>\n    <filter id=\"softBlur\"><feGaussianBlur stdDeviation=\"44\"/></filter>\n  </defs>\n  <rect width=\"100%\" height=\"100%\" fill=\"url(#background)\"/>\n  <rect x=\""@
        + decimal(outer)
        + "\" y=\""@
        + decimal(outer)
        + "\" width=\""@
        + decimal(inner_w)
        + "\" height=\""@
        + decimal(inner_h)
        + "\" rx=\""@
        + decimal(outer_radius)
        + "\" fill=\"#ffffff\" fill-opacity=\".48\" stroke=\"#10151f\" stroke-opacity=\".12\"/>\n  "@
}

/// The poster's markup between the image layer and the eyebrow text.
#[verifier::opaque]
pub open spec fn poster_seg_before_eyebrow(width: u32, height: u32) -> Seq<char> {
    let w = width as nat;
    let h = height as nat;
    let m = if w <= h { w } else { h };
    let left = (w * 7 / 100) as nat;
    let eyebrow_y = (h * 15 / 100) as nat;
    let eyebrow_size = (m * 2 / 100) as nat;
    let tracking = (m / 90) as nat;
    "\n  <text x=\""@
        + decimal(left)
        + "\" y=\""@
        + decimal(eyebrow_y)
        + "\" fill=\"#3f4b54\" font-family=\"Arial, Helvetica, sans-serif\" font-size=\""@
        + decimal(eyebrow_size)
        + "\" font-weight=\"800\" letter-spacing=\""@
        + decimal(tracking)
        + "\">"@
}

/// The poster's markup between the eyebrow and the headline.
#[verifier::opaque]
pub open spec fn poster_seg_before_title(width: u32, height: u32) -> Seq<char> {
    let w = width as nat;
    let h = height as nat;
    let m = if w <= h { w } else { h };
    let left = (w * 7 / 100) as nat;
    let title_y = (h * 22 / 100) as nat;
    let copy_w = (w * 39 / 100) as nat;
    let title_h = (h * 31 / 100) as nat;
    let title_size = (m * 9 / 100) as nat;
    "</text>\n  <foreignObject x=\""@
        + decimal(left)
        + "\" y=\""@
        + decimal(title_y)
        + "\" width=\""@
        + decimal(copy_w)
        + "\" height=\""@
        + decimal(title_h)
        + "\">\n    <div xmlns=\"http://www.w3.org/1999/xhtml\" style=\"font-family:Arial,Helvetica,sans-serif;color:#10151f;font-size:"@
        + decimal(title_size)
        + "px;font-weight:850;line-height:.97;letter-spacing:-.06em;overflow:hidden;\">"@
}

/// The poster's markup between the headline and the subtitle.
#[verifier::opaque]
pub open spec fn poster_seg_before_subtitle(width: u32, height: u32) -> Seq<char> {
    let w = width as nat;
    let h = height as nat;
    let m = if w <= h { w } else { h };
    let left = (w * 7 / 100) as nat;
    let copy_w = (w * 39 / 100) as nat;
    let subtitle_y = (h * 57 / 100) as nat;
    let subtitle_h = (h * 16 / 100) as nat;
    let subtitle_size = (m * 3 / 100) as nat;
    "</div>\n  </foreignObject>\n  <foreignObject x=\""@
        + decimal(left)
        + "\" y=\""@
        + decimal(subtitle_y)
        + "\" width=\""@
        + decimal(copy_w)
        + "\" height=\""@
        + decimal(subtitle_h)
        + "\">\n    <div xmlns=\"http://www.w3.org/1999/xhtml\" style=\"font-family:Arial,Helvetica,sans-serif;color:#53606a;font-size:"@
        + decimal(subtitle_size)
        + "px;line-height:1.45;overflow:hidden;\">"@
}

/// The poster's markup between the subtitle and the call-to-action text.
#[verifier::opaque]
pub open spec fn poster_seg_before_cta(width: u32, height: u32) -> Seq<char> {
    let w = width as nat;
    let h = height as nat;
    let m = if w <= h { w } else { h };
    let left = (w * 7 / 100) as nat;
    let cta_y = (h * 76 / 100) as nat;
    let cta_w = (w * 19 / 100) as nat;
    let cta_h = (h * 9 / 100) as nat;
    let cta_radius = (h * 5 / 100) as nat;
    let cta_text_x = (w * 165 / 1000) as nat;
    let cta_text_y = (h * 817 / 1000) as nat;
    let cta_size = (m * 3 / 100) as nat;
    "</div>\n  </foreignObject>\n  <rect x=\""@
        + decimal(left)
        + "\" y=\""@
        + decimal(cta_y)
        + "\" width=\""@
        + decimal(cta_w)
        + "\" height=\""@
        + decimal(cta_h)
        + "\" rx=\""@
        + decimal(cta_radius)
        + "\" fill=\"#10151f\"/>\n  <text x=\""@
        + decimal(cta_text_x)
        + "\" y=\""@
        + decimal(cta_text_y)
        + "\" text-anchor=\"middle\" fill=\"#ffffff\" font-family=\"Arial, Helvetica, sans-serif\" font-size=\""@
        + decimal(cta_size)
        + "\" font-weight=\"700\">"@
}

/// The poster's markup after the call-to-action text.
#[verifier::opaque]
pub open spec fn poster_seg_close(width: u32, height: u32) -> Seq<char> {
    let w = width as nat;
    let h = height as nat;
    let m = if w <= h { w } else { h };
    let left = (w * 7 / 100) as nat;
    let footer_y = (h * 91 / 100) as nat;
    let footer_size = (m * 2 / 100) as nat;
    "</text>\n  <text x=\""@
        + decimal(left)
        + "\" y=\""@
        + decimal(footer_y)
        + "\" fill=\"#68747d\" font-family=\"Arial, Helvetica, sans-serif\" font-size=\""@
        + decimal(footer_size)
        + "\">IMGEN PRO \u{B7} LOCAL HYBRID DESIGN</text>\n</svg>"@
}

/// The feature-poster SVG for a `width` by `height` canvas, with the given
/// (already escaped) copy and image layer.
pub open spec fn poster_markup_spec(width: u32, height: u32, eyebrow: Seq<char>, title: Seq<char>, subtitle: Seq<char>, cta: Seq<char>, layer: Seq<char>) -> Seq<char> {
    poster_seg_open(width, height) + layer + poster_seg_before_eyebrow(width, height) + eyebrow
        + poster_seg_before_title(width, height) + title + poster_seg_before_subtitle(width, height) + subtitle
        + poster_seg_before_cta(width, height) + cta + poster_seg_close(width, height)
}

proof fn lemma_cancel_right(u: Seq<char>, v: Seq<char>, w: Seq<char>)
    requires
        u + w == v + w,
    ensures
        u == v,
{
    assert((u + w).len() == u.len() + w.len());
    assert((v + w).len() == v.len() + w.len());
    assert(u =~= (u + w).subrange(0, u.len() as int));
    assert(v =~= (v + w).subrange(0, v.len() as int));
}

proof fn lemma_cancel_left(a: Seq<char>, x: Seq<char>, y: Seq<char>)
    requires
        a + x == a + y,
    ensures
        x == y,
{
    assert((a + x).len() == a.len() + x.len());
    assert((a + y).len() == a.len() + y.len());
    assert(x =~= (a + x).subrange(a.len() as int, (a + x).len() as int));
    assert(y =~= (a + y).subrange(a.len() as int, (a + y).len() as int));
}

/// Whether `s` ends with `p`.
spec fn ends_with(s: Seq<char>, p: Seq<char>) -> bool {
    s.len() >= p.len() && s.subrange(s.len() - p.len(), s.len() as int) == p
}

/// Whether `s` starts with `p`.
spec fn starts_with(s: Seq<char>, p: Seq<char>) -> bool {
    s.len() >= p.len() && s.subrange(0, p.len() as int) == p
}

proof fn lemma_contains_joined(a0: Seq<char>, a1: Seq<char>, p: Seq<char>, x: Seq<char>, q: Seq<char>, b: Seq<char>)
    requires
        ends_with(a1, p),
        starts_with(b, q),
    ensures
        contains_spec(a0 + a1 + x + b, p + x + q),
{
    let whole = a0 + a1 + x + b;
    let i = a0.len() + a1.len() - p.len();
    let m = p + x + q;
    assert forall|k: int| 0 <= k < m.len() implies whole.subrange(i, i + m.len())[k] == m[k] by {
        if k < p.len() {
            assert(a1.subrange(a1.len() - p.len(), a1.len() as int)[k] == p[k]);
        } else if k < p.len() + x.len() {
        } else {
            assert(b.subrange(0, q.len() as int)[k - p.len() - x.len()] == q[k - p.len() - x.len()]);
        }
    }
    assert(whole.subrange(i, i + m.len()) =~= m);
    assert(occurs_at(whole, m, i));
}

proof fn lemma_contains_extend(u: Seq<char>, v: Seq<char>, m: Seq<char>)
    requires
        contains_spec(u, m),
    ensures
        contains_spec(u + v, m),
{
    let i = choose|i: int| occurs_at(u, m, i);
    assert((u + v).subrange(i, i + m.len()) =~= u.subrange(i, i + m.len()));
    assert(occurs_at(u + v, m, i));
}

proof fn lemma_cta_markup_around(width: u32, height: u32)
    ensures
        ends_with(poster_seg_before_cta(width, height), "\" font-weight=\"700\">"@),
        starts_with(poster_seg_close(width, height), "</text>\n  <text x=\""@),
{
    reveal(poster_seg_before_cta);
    reveal(poster_seg_close);
    let s4 = poster_seg_before_cta(width, height);
    let s5 = poster_seg_close(width, height);
    assert(s4.subrange(s4.len() - "\" font-weight=\"700\">"@.len(), s4.len() as int) =~= "\" font-weight=\"700\">"@);
    assert(s5.subrange(0, "</text>\n  <text x=\""@.len() as int) =~= "</text>\n  <text x=\""@);
}

proof fn lemma_title_markup_around(width: u32, height: u32)
    ensures
        ends_with(
            poster_seg_before_title(width, height),
            "px;font-weight:850;line-height:.97;letter-spacing:-.06em;overflow:hidden;\">"@,
        ),
        starts_with(poster_seg_before_subtitle(width, height), "</div>\n  </foreignObject>\n  <foreignObject x=\""@),
{
    reveal(poster_seg_before_title);
    reveal(poster_seg_before_subtitle);
    let s2 = poster_seg_before_title(width, height);
    let s3 = poster_seg_before_subtitle(width, height);
    let p = "px;font-weight:850;line-height:.97;letter-spacing:-.06em;overflow:hidden;\">"@;
    let q = "</div>\n  </foreignObject>\n  <foreignObject x=\""@;
    assert(s2.subrange(s2.len() - p.len(), s2.len() as int) =~= p);
    assert(s3.subrange(0, q.len() as int) =~= q);
}

/// Two posters that differ only in the call to action are different
/// posters: the call-to-action slot is filled from the `cta` argument.
pub proof fn law_poster_cta_slot(
    width: u32,
    height: u32,
    eyebrow: Seq<char>,
    title: Seq<char>,
    subtitle: Seq<char>,
    cta: Seq<char>,
    layer: Seq<char>,
    other: Seq<char>,
)
    requires
        poster_markup_spec(width, height, eyebrow, title, subtitle, other, layer) == poster_markup_spec(
            width, height, eyebrow, title, subtitle, cta, layer),
    ensures
        other == cta,
{
    let s0 = poster_seg_open(width, height);
    let s1 = poster_seg_before_eyebrow(width, height);
    let s2 = poster_seg_before_title(width, height);
    let s3 = poster_seg_before_subtitle(width, height);
    let s4 = poster_seg_before_cta(width, height);
    let s5 = poster_seg_close(width, height);
    let a = s0 + layer + s1 + eyebrow + s2 + title + s3 + subtitle + s4;
    lemma_cancel_right(a + other, a + cta, s5);
    lemma_cancel_left(a, other, cta);
}

/// Two posters that differ only in the headline are different posters:
/// the headline slot is filled from the `title` argument.
pub proof fn law_poster_title_slot(
    width: u32,
    height: u32,
    eyebrow: Seq<char>,
    title: Seq<char>,
    subtitle: Seq<char>,
    cta: Seq<char>,
    layer: Seq<char>,
    other: Seq<char>,
)
    requires
        poster_markup_spec(width, height, eyebrow, other, subtitle, cta, layer) == poster_markup_spec(
            width, height, eyebrow, title, subtitle, cta, layer),
    ensures
        other == title,
{
    let s0 = poster_seg_open(width, height);
    let s1 = poster_seg_before_eyebrow(width, height);
    let s2 = poster_seg_before_title(width, height);
    let s3 = poster_seg_before_subtitle(width, height);
    let s4 = poster_seg_before_cta(width, height);
    let s5 = poster_seg_close(width, height);
    let a = s0 + layer + s1 + eyebrow + s2;
    lemma_cancel_right(a + other + s3 + subtitle + s4 + cta, a + title + s3 + subtitle + s4 + cta, s5);
    lemma_cancel_right(a + other + s3 + subtitle + s4, a + title + s3 + subtitle + s4, cta);
    lemma_cancel_right(a + other + s3 + subtitle, a + title + s3 + subtitle, s4);
    lemma_cancel_right(a + other + s3, a + title + s3, subtitle);
    lemma_cancel_right(a + other, a + title, s3);
    lemma_cancel_left(a, other, title);
}

/// Two posters that differ only in the eyebrow are different posters.
pub proof fn law_poster_eyebrow_slot(
    width: u32,
    height: u32,
    eyebrow: Seq<char>,
    title: Seq<char>,
    subtitle: Seq<char>,
    cta: Seq<char>,
    layer: Seq<char>,
    other: Seq<char>,
)
    requires
        poster_markup_spec(width, height, other, title, subtitle, cta, layer) == poster_markup_spec(
            width, height, eyebrow, title, subtitle, cta, layer),
    ensures
        other == eyebrow,
{
    let s0 = poster_seg_open(width, height);
    let s1 = poster_seg_before_eyebrow(width, height);
    let s2 = poster_seg_before_title(width, height);
    let s3 = poster_seg_before_subtitle(width, height);
    let s4 = poster_seg_before_cta(width, height);
    let s5 = poster_seg_close(width, height);
    let a = s0 + layer + s1;
    lemma_cancel_right(a + other + s2 + title + s3 + subtitle + s4 + cta, a + eyebrow + s2 + title + s3 + subtitle + s4 + cta, s5);
    lemma_cancel_right(a + other + s2 + title + s3 + subtitle + s4, a + eyebrow + s2 + title + s3 + subtitle + s4, cta);
    lemma_cancel_right(a + other + s2 + title + s3 + subtitle, a + eyebrow + s2 + title + s3 + subtitle, s4);
    lemma_cancel_right(a + other + s2 + title + s3, a + eyebrow + s2 + title + s3, subtitle);
    lemma_cancel_right(a + other + s2 + title, a + eyebrow + s2 + title, s3);
    lemma_cancel_right(a + other + s2, a + eyebrow + s2, title);
    lemma_cancel_right(a + other, a + eyebrow, s2);
    lemma_cancel_left(a, other, eyebrow);
}

/// Two posters that differ only in the subtitle are different posters.
pub proof fn law_poster_subtitle_slot(
    width: u32,
    height: u32,
    eyebrow: Seq<char>,
    title: Seq<char>,
    subtitle: Seq<char>,
    cta: Seq<char>,
    layer: Seq<char>,
    other: Seq<char>,
)
    requires
        poster_markup_spec(width, height, eyebrow, title, other, cta, layer) == poster_markup_spec(
            width, height, eyebrow, title, subtitle, cta, layer),
    ensures
        other == subtitle,
{
    let s0 = poster_seg_open(width, height);
    let s1 = poster_seg_before_eyebrow(width, height);
    let s2 = poster_seg_before_title(width, height);
    let s3 = poster_seg_before_subtitle(width, height);
    let s4 = poster_seg_before_cta(width, height);
    let s5 = poster_seg_close(width, height);
    let a = s0 + layer + s1 + eyebrow + s2 + title + s3;
    lemma_cancel_right(a + other + s4 + cta, a + subtitle + s4 + cta, s5);
    lemma_cancel_right(a + other + s4, a + subtitle + s4, cta);
    lemma_cancel_right(a + other, a + subtitle, s4);
    lemma_cancel_left(a, other, subtitle);
}

/// The headline is the content of the poster's headline block and the call
/// to action the content of its button text: the poster contains each,
/// between the opening and closing markup of its element.
pub proof fn law_poster_copy_in_place(
    width: u32,
    height: u32,
    eyebrow: Seq<char>,
    title: Seq<char>,
    subtitle: Seq<char>,
    cta: Seq<char>,
    layer: Seq<char>,
)
    ensures
        contains_spec(
            poster_markup_spec(width, height, eyebrow, title, subtitle, cta, layer),
            "\" font-weight=\"700\">"@ + cta + "</text>\n  <text x=\""@,
        ),
        contains_spec(
            poster_markup_spec(width, height, eyebrow, title, subtitle, cta, layer),
            "px;font-weight:850;line-height:.97;letter-spacing:-.06em;overflow:hidden;\">"@ + title
                + "</div>\n  </foreignObject>\n  <foreignObject x=\""@,
        ),
{
    let s0 = poster_seg_open(width, height);
    let s1 = poster_seg_before_eyebrow(width, height);
    let s2 = poster_seg_before_title(width, height);
    let s3 = poster_seg_before_subtitle(width, height);
    let s4 = poster_seg_before_cta(width, height);
    let s5 = poster_seg_close(width, height);
    lemma_cta_markup_around(width, height);
    lemma_contains_joined(
        s0 + layer + s1 + eyebrow + s2 + title + s3 + subtitle,
        s4,
        "\" font-weight=\"700\">"@,
        cta,
        "</text>\n  <text x=\""@,
        s5,
    );
    lemma_title_markup_around(width, height);
    let p = "px;font-weight:850;line-height:.97;letter-spacing:-.06em;overflow:hidden;\">"@;
    let q = "</div>\n  </foreignObject>\n  <foreignObject x=\""@;
    let a = s0 + layer + s1 + eyebrow;
    lemma_contains_joined(a, s2, p, title, q, s3);
    lemma_contains_extend(a + s2 + title + s3, subtitle, p + title + q);
    lemma_contains_extend(a + s2 + title + s3 + subtitle, s4, p + title + q);
    lemma_contains_extend(a + s2 + title + s3 + subtitle + s4, cta, p + title + q);
    lemma_contains_extend(a + s2 + title + s3 + subtitle + s4 + cta, s5, p + title + q);
}

/// Whether a canvas is small enough for the poster layout arithmetic to
/// stay within `u32`.
pub open spec fn poster_fits(width: u32, height: u32) -> bool {
    width * 165 <= u32::MAX && height * 817 <= u32::MAX
}

fn push_poster_seg_open(s: &mut String, width: u32, height: u32)
    requires
        poster_fits(width, height),
    ensures
        final(s)@ == old(s)@ + poster_seg_open(width, height),
{
    reveal(poster_seg_open);
    let w: u32 = width;
    let h: u32 = height;
    let m: u32 = if w <= h { w } else { h };
    let visual_x: u32 = w * 52 / 100;
    let visual_y: u32 = h * 7 / 100;
    let visual_w: u32 = w * 42 / 100;
    let visual_h: u32 = h * 86 / 100;
    let visual_radius: u32 = m * 4 / 100;
    let outer: u32 = m * 3 / 100;
    let inner_w: u32 = w - (m * 6 / 100);
    let inner_h: u32 = h - (m * 6 / 100);
    let outer_radius: u32 = m * 4 / 100;
    let mut t = owned("<svg xmlns=\"http://www.w3.org/2000/svg\" width=\"");
    push_decimal(&mut t, w as u64);
    append(&mut t, "\" height=\"");
    push_decimal(&mut t, h as u64);
    append(&mut t, "\" viewBox=\"0 0 ");
    push_decimal(&mut t, w as u64);
    append(&mut t, " ");
    push_decimal(&mut t, h as u64);
    append(&mut t, "\">\n  <defs>\n    <linearGradient id=\"background\" x1=\"0\" y1=\"0\" x2=\"1\" y2=\"1\">\n      <stop offset=\"0%\" stop-color=\"#f7f9fb\"/>\n      <stop offset=\"100%\" stop-color=\"#dfe8ea\"/>\n    </linearGradient>\n    <linearGradient id=\"visualGradient\" x1=\"0\" y1=\"0\" x2=\"1\" y2=\"1\">\n      <stop offset=\"0%\" stop-color=\"#182338\"/>\n      <stop offset=\"55%\" stop-color=\"#496b6b\"/>\n      <stop offset=\"100%\" stop-color=\"#10151f\"/>\n    </linearGradient>\n    <clipPath id=\"visualClip\"><rect x=\"");
    push_decimal(&mut t, visual_x as u64);
    append(&mut t, "\" y=\"");
    push_decimal(&mut t, visual_y as u64);
    append(&mut t, "\" width=\"");
    push_decimal(&mut t, visual_w as u64);
    append(&mut t, "\" height=\"");
    push_decimal(&mut t, visual_h as u64);
    append(&mut t, "\" rx=\"");
    push_decimal(&mut t, visual_radius as u64);
    append(&mut t, "\"/></clipPath>\n    <filter id=\"softBlur\"><feGaussianBlur stdDeviation=\"44\"/></filter>\n  </defs>\n  <rect width=\"100%\" height=\"100%\" fill=\"url(#background)\"/>\n  <rect x=\"");
    push_decimal(&mut t, outer as u64);
    append(&mut t, "\" y=\"");
    push_decimal(&mut t, outer as u64);
    append(&mut t, "\" width=\"");
    push_decimal(&mut t, inner_w as u64);
    append(&mut t, "\" height=\"");
    push_decimal(&mut t, inner_h as u64);
    append(&mut t, "\" rx=\"");
    push_decimal(&mut t, outer_radius as u64);
    append(&mut t, "\" fill=\"#ffffff\" fill-opacity=\".48\" stroke=\"#10151f\" stroke-opacity=\".12\"/>\n  ");
    append(s, t.as_str());
}

fn push_poster_seg_before_eyebrow(s: &mut String, width: u32, height: u32)
    requires
        poster_fits(width, height),
    ensures
        final(s)@ == old(s)@ + poster_seg_before_eyebrow(width, height),
{
    reveal(poster_seg_before_eyebrow);
    let w: u32 = width;
    let h: u32 = height;
    let m: u32 = if w <= h { w } else { h };
    let left: u32 = w * 7 / 100;
    let eyebrow_y: u32 = h * 15 / 100;
    let eyebrow_size: u32 = m * 2 / 100;
    let tracking: u32 = m / 90;
    let mut t = owned("\n  <text x=\"");
    push_decimal(&mut t, left as u64);
    append(&mut t, "\" y=\"");
    push_decimal(&mut t, eyebrow_y as u64);
    append(&mut t, "\" fill=\"#3f4b54\" font-family=\"Arial, Helvetica, sans-serif\" font-size=\"");
    push_decimal(&mut t, eyebrow_size as u64);
    append(&mut t, "\" font-weight=\"800\" letter-spacing=\"");
    push_decimal(&mut t, tracking as u64);
    append(&mut t, "\">");
    append(s, t.as_str());
}

fn push_poster_seg_before_title(s: &mut String, width: u32, height: u32)
    requires
        poster_fits(width, height),
    ensures
        final(s)@ == old(s)@ + poster_seg_before_title(width, height),
{
    reveal(poster_seg_before_title);
    let w: u32 = width;
    let h: u32 = height;
    let m: u32 = if w <= h { w } else { h };
    let left: u32 = w * 7 / 100;
    let title_y: u32 = h * 22 / 100;
    let copy_w: u32 = w * 39 / 100;
    let title_h: u32 = h * 31 / 100;
    let title_size: u32 = m * 9 / 100;
    let mut t = owned("</text>\n  <foreignObject x=\"");
    push_decimal(&mut t, left as u64);
    append(&mut t, "\" y=\"");
    push_decimal(&mut t, title_y as u64);
    append(&mut t, "\" width=\"");
    push_decimal(&mut t, copy_w as u64);
    append(&mut t, "\" height=\"");
    push_decimal(&mut t, title_h as u64);
    append(&mut t, "\">\n    <div xmlns=\"http://www.w3.org/1999/xhtml\" style=\"font-family:Arial,Helvetica,sans-serif;color:#10151f;font-size:");
    push_decimal(&mut t, title_size as u64);
    append(&mut t, "px;font-weight:850;line-height:.97;letter-spacing:-.06em;overflow:hidden;\">");
    append(s, t.as_str());
}

fn push_poster_seg_before_subtitle(s: &mut String, width: u32, height: u32)
    requires
        poster_fits(width, height),
    ensures
        final(s)@ == old(s)@ + poster_seg_before_subtitle(width, height),
{
    reveal(poster_seg_before_subtitle);
    let w: u32 = width;
    let h: u32 = height;
    let m: u32 = if w <= h { w } else { h };
    let left: u32 = w * 7 / 100;
    let copy_w: u32 = w * 39 / 100;
    let subtitle_y: u32 = h * 57 / 100;
    let subtitle_h: u32 = h * 16 / 100;
    let subtitle_size: u32 = m * 3 / 100;
    let mut t = owned("</div>\n  </foreignObject>\n  <foreignObject x=\"");
    push_decimal(&mut t, left as u64);
    append(&mut t, "\" y=\"");
    push_decimal(&mut t, subtitle_y as u64);
    append(&mut t, "\" width=\"");
    push_decimal(&mut t, copy_w as u64);
    append(&mut t, "\" height=\"");
    push_decimal(&mut t, subtitle_h as u64);
    append(&mut t, "\">\n    <div xmlns=\"http://www.w3.org/1999/xhtml\" style=\"font-family:Arial,Helvetica,sans-serif;color:#53606a;font-size:");
    push_decimal(&mut t, subtitle_size as u64);
    append(&mut t, "px;line-height:1.45;overflow:hidden;\">");
    append(s, t.as_str());
}

fn push_poster_seg_before_cta(s: &mut String, width: u32, height: u32)
    requires
        poster_fits(width, height),
    ensures
        final(s)@ == old(s)@ + poster_seg_before_cta(width, height),
{
    reveal(poster_seg_before_cta);
    let w: u32 = width;
    let h: u32 = height;
    let m: u32 = if w <= h { w } else { h };
    let left: u32 = w * 7 / 100;
    let cta_y: u32 = h * 76 / 100;
    let cta_w: u32 = w * 19 / 100;
    let cta_h: u32 = h * 9 / 100;
    let cta_radius: u32 = h * 5 / 100;
    let cta_text_x: u32 = w * 165 / 1000;
    let cta_text_y: u32 = h * 817 / 1000;
    let cta_size: u32 = m * 3 / 100;
    let mut t = owned("</div>\n  </foreignObject>\n  <rect x=\"");
    push_decimal(&mut t, left as u64);
    append(&mut t, "\" y=\"");
    push_decimal(&mut t, cta_y as u64);
    append(&mut t, "\" width=\"");
    push_decimal(&mut t, cta_w as u64);
    append(&mut t, "\" height=\"");
    push_decimal(&mut t, cta_h as u64);
    append(&mut t, "\" rx=\"");
    push_decimal(&mut t, cta_radius as u64);
    append(&mut t, "\" fill=\"#10151f\"/>\n  <text x=\"");
    push_decimal(&mut t, cta_text_x as u64);
    append(&mut t, "\" y=\"");
    push_decimal(&mut t, cta_text_y as u64);
    append(&mut t, "\" text-anchor=\"middle\" fill=\"#ffffff\" font-family=\"Arial, Helvetica, sans-serif\" font-size=\"");
    push_decimal(&mut t, cta_size as u64);
    append(&mut t, "\" font-weight=\"700\">");
    append(s, t.as_str());
}

fn push_poster_seg_close(s: &mut String, width: u32, height: u32)
    requires
        poster_fits(width, height),
    ensures
        final(s)@ == old(s)@ + poster_seg_close(width, height),
{
    reveal(poster_seg_close);
    let w: u32 = width;
    let h: u32 = height;
    let m: u32 = if w <= h { w } else { h };
    let left: u32 = w * 7 / 100;
    let footer_y: u32 = h * 91 / 100;
    let footer_size: u32 = m * 2 / 100;
    let mut t = owned("</text>\n  <text x=\"");
    push_decimal(&mut t, left as u64);
    append(&mut t, "\" y=\"");
    push_decimal(&mut t, footer_y as u64);
    append(&mut t, "\" fill=\"#68747d\" font-family=\"Arial, Helvetica, sans-serif\" font-size=\"");
    push_decimal(&mut t, footer_size as u64);
    append(&mut t, "\">IMGEN PRO \u{B7} LOCAL HYBRID DESIGN</text>\n</svg>");
    append(s, t.as_str());
}

fn poster_markup(
    width: u32,
    height: u32,
    eyebrow: &str,
    title: &str,
    subtitle: &str,
    cta: &str,
    image_layer: &str,
) -> (markup: String)
    requires
        poster_fits(width, height),
    ensures
        markup@ == poster_markup_spec(width, height, eyebrow@, title@, subtitle@, cta@, image_layer@),
{
    let mut s = String::new();
    push_poster_seg_open(&mut s, width, height);
    append(&mut s, image_layer);
    push_poster_seg_before_eyebrow(&mut s, width, height);
    append(&mut s, eyebrow);
    push_poster_seg_before_title(&mut s, width, height);
    append(&mut s, title);
    push_poster_seg_before_subtitle(&mut s, width, height);
    append(&mut s, subtitle);
    push_poster_seg_before_cta(&mut s, width, height);
    append(&mut s, cta);
    push_poster_seg_close(&mut s, width, height);
    assert(Seq::<char>::empty() + poster_seg_open(width, height) =~= poster_seg_open(width, height));
    s
}

/// The feature-poster design of `request`: its eyebrow, headline, subtitle
/// and call to action are XML-escaped and laid out beside `image_layer`.
pub fn feature_poster_svg(request: &DesignRequest, image_layer: &str) -> (svg: String)
    requires
        poster_fits(request.width, request.height),
    ensures
        svg@ == poster_markup_spec(
            request.width,
            request.height,
            xml_escape_spec(request.eyebrow@),
            xml_escape_spec(request.title@),
            xml_escape_spec(request.subtitle@),
            xml_escape_spec(request.cta@),
            image_layer@,
        ),
{
    let title = xml_escape(request.title.as_str());
    let subtitle = xml_escape(request.subtitle.as_str());
    let eyebrow = xml_escape(request.eyebrow.as_str());
    let cta = xml_escape(request.cta.as_str());
    poster_markup(
        request.width,
        request.height,
        eyebrow.as_str(),
        title.as_str(),
        subtitle.as_str(),
        cta.as_str(),
        image_layer,
    )
}

/// The text appended to the eyebrow of a web-hero design.
pub open spec fn web_hero_suffix() -> Seq<char> {
    " \u{B7} WEB HERO"@
}

/// The web-hero design of `request`: the feature poster with
/// ` · WEB HERO` appended to the eyebrow.
pub fn web_hero_svg(request: &DesignRequest, image_layer: &str) -> (svg: String)
    requires
        poster_fits(request.width, request.height),
    ensures
        svg@ == poster_markup_spec(
            request.width,
            request.height,
            xml_escape_spec(request.eyebrow@ + web_hero_suffix()),
            xml_escape_spec(request.title@),
            xml_escape_spec(request.subtitle@),
            xml_escape_spec(request.cta@),
            image_layer@,
        ),
{
    let mut eyebrow = request.eyebrow.clone();
    append(&mut eyebrow, " \u{B7} WEB HERO");
    let title = xml_escape(request.title.as_str());
    let subtitle = xml_escape(request.subtitle.as_str());
    let eyebrow = xml_escape(eyebrow.as_str());
    let cta = xml_escape(request.cta.as_str());
    poster_markup(
        request.width,
        request.height,
        eyebrow.as_str(),
        title.as_str(),
        subtitle.as_str(),
        cta.as_str(),
        image_layer,
    )
}

/// Whether a template name selects the web-hero layout.
pub open spec fn is_web_hero(template: Seq<char>) -> bool {
    template == "web-hero"@
}

/// The SVG of a design request: the poster of its copy, each piece
/// XML-escaped, with ` · WEB HERO` appended to the eyebrow for template
/// `web-hero`.
pub open spec fn design_svg_spec(request: DesignRequest, image_layer: Seq<char>) -> Seq<char> {
    poster_markup_spec(
        request.width,
        request.height,
        xml_escape_spec(
            if is_web_hero(request.template@) {
                request.eyebrow@ + web_hero_suffix()
            } else {
                request.eyebrow@
            },
        ),
        xml_escape_spec(request.title@),
        xml_escape_spec(request.subtitle@),
        xml_escape_spec(request.cta@),
        image_layer,
    )
}

/// The SVG of `request`: the web-hero layout for template `web-hero`, the
/// feature poster for any other template.
pub fn design_svg(request: &DesignRequest, image_layer: &str) -> (svg: String)
    requires
        poster_fits(request.width, request.height),
    ensures
        svg@ == design_svg_spec(*request, image_layer@),
{
    if crate::text::str_equal(request.template.as_str(), "web-hero") {
        web_hero_svg(request, image_layer)
    } else {
        feature_poster_svg(request, image_layer)
    }
}

/// The SVG of a design request shows its call to action, XML-escaped, as
/// the text of the button, and its headline, XML-escaped, as the content of
/// the headline block.
pub proof fn law_design_copy_in_place(request: DesignRequest, image_layer: Seq<char>)
    ensures
        contains_spec(
            design_svg_spec(request, image_layer),
            "\" font-weight=\"700\">"@ + xml_escape_spec(request.cta@) + "</text>\n  <text x=\""@,
        ),
        contains_spec(
            design_svg_spec(request, image_layer),
            "px;font-weight:850;line-height:.97;letter-spacing:-.06em;overflow:hidden;\">"@
                + xml_escape_spec(request.title@) + "</div>\n  </foreignObject>\n  <foreignObject x=\""@,
        ),
{
    law_poster_copy_in_place(
        request.width,
        request.height,
        xml_escape_spec(
            if is_web_hero(request.template@) {
                request.eyebrow@ + web_hero_suffix()
            } else {
                request.eyebrow@
            },
        ),
        xml_escape_spec(request.title@),
        xml_escape_spec(request.subtitle@),
        xml_escape_spec(request.cta@),
        image_layer,
    );
}

/// Two design requests that differ only in their call to action, and whose
/// escaped calls to action differ, give different SVGs.
pub proof fn law_design_cta_decides_button(first: DesignRequest, second: DesignRequest, image_layer: Seq<char>)
    requires
        first.template@ == second.template@,
        first.title@ == second.title@,
        first.subtitle@ == second.subtitle@,
        first.eyebrow@ == second.eyebrow@,
        first.width == second.width,
        first.height == second.height,
        xml_escape_spec(first.cta@) != xml_escape_spec(second.cta@),
    ensures
        design_svg_spec(first, image_layer) != design_svg_spec(second, image_layer),
{
    if design_svg_spec(first, image_layer) == design_svg_spec(second, image_layer) {
        law_poster_cta_slot(
            first.width,
            first.height,
            xml_escape_spec(
                if is_web_hero(first.template@) {
                    first.eyebrow@ + web_hero_suffix()
                } else {
                    first.eyebrow@
                },
            ),
            xml_escape_spec(first.title@),
            xml_escape_spec(first.subtitle@),
            xml_escape_spec(second.cta@),
            image_layer,
            xml_escape_spec(first.cta@),
        );
    }
}

// ---------------------------------------------------------------------
// Saved designs

/// The file name of a saved design: the sanitised requested name, a dash,
/// the asset id and `.svg`.
pub open spec fn design_file_name_spec(output_name: Seq<char>, asset_id: Seq<char>) -> Seq<char> {
    sanitize_name_spec(output_name) + "-"@ + asset_id + ".svg"@
}

/// The file name under which a design is saved.
pub fn design_file_name(output_name: &str, asset_id: &str) -> (name: String)
    ensures
        name@ == design_file_name_spec(output_name@, asset_id@),
        is_clean_name(sanitize_name_spec(output_name@)),
{
    let mut name = sanitize_name(output_name);
    append(&mut name, "-");
    append(&mut name, asset_id);
    append(&mut name, ".svg");
    name
}

/// The record of a design saved at `path`.
pub fn design_asset(asset_id: String, path: String, width: u32, height: u32) -> (asset: GeneratedAsset)
    ensures
        asset.id@ == asset_id@,
        asset.path@ == path@,
        asset.mime_type@ == "image/svg+xml"@,
        asset.width == width,
        asset.height == height,
        asset.kind == AssetKind::Design,
{
    GeneratedAsset {
        id: asset_id,
        path,
        mime_type: owned("image/svg+xml"),
        width,
        height,
        kind: AssetKind::Design,
    }
}

/// Where a design will be saved: a fresh random asset id and its file in
/// the designs directory.
#[derive(Debug)]
pub struct DesignPlan {
    pub asset_id: String,
    pub output_path: String,
}

/// Prepares the saving of a design: refuses an invalid request (see
/// [`validate_design_request`]); otherwise picks a fresh random asset id and
/// the file `<designs>/<sanitised name>-<asset id>.svg`.
pub fn plan_design(request: &DesignRequest, designs_dir: &str) -> (r: Result<DesignPlan, String>)
    ensures
        r is Err <==> design_request_error(request.title@, request.width, request.height) is Some,
        r is Err ==> Some(r->Err_0@) == design_request_error(request.title@, request.width, request.height),
        r is Ok ==> ids::is_uuid_v4_text(r->Ok_0.asset_id@) && r->Ok_0.output_path@ == join_path_spec(
            designs_dir@,
            design_file_name_spec(request.output_name@, r->Ok_0.asset_id@),
        ),
{
    match validate_design_request(request) {
        Err(e) => Err(e),
        Ok(()) => {
            let asset_id = ids::new_uuid_text();
            let name = design_file_name(request.output_name.as_str(), asset_id.as_str());
            let output_path = join_path(designs_dir, name.as_str());
            Ok(DesignPlan { asset_id, output_path })
        },
    }
}

} // verus!
