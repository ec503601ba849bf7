use imgen_pro::design::{
    asset_data_uri, background_source, check_preview_path, design_asset, design_file_name,
    design_svg, embedded_image_layer, feature_poster_svg, placeholder_image_layer, plan_design,
    validate_design_request, web_hero_svg, BackgroundSource,
};
use imgen_pro::escape::{sanitize_name, xml_escape};
use imgen_pro::models::{AssetKind, DesignRequest};
use imgen_pro::paths::join_path;
use imgen_pro::text::{contains, decimal_string, trim, truncate};

fn request(template: &str, width: u32, height: u32) -> DesignRequest {
    DesignRequest {
        template: template.to_string(),
        title: "Fast & <Local>".to_string(),
        subtitle: "Design \"without\" the cloud".to_string(),
        cta: "Start now".to_string(),
        eyebrow: "Studio".to_string(),
        background_image_path: String::new(),
        output_name: "Launch Poster".to_string(),
        width,
        height,
    }
}

#[test]
fn xml_escape_replaces_all_five_special_characters() {
    assert_eq!(xml_escape("a&b<c>d\"e'f"), "a&amp;b&lt;c&gt;d&quot;e&apos;f");
    assert_eq!(xml_escape("plain text"), "plain text");
    assert_eq!(xml_escape(""), "");
}

#[test]
fn xml_escape_output_has_no_markup_characters() {
    let escaped = xml_escape("<script>alert('x') & \"y\"</script>");
    assert!(!escaped.contains('<'));
    assert!(!escaped.contains('>'));
    assert!(!escaped.contains('"'));
    assert!(!escaped.contains('\''));
}

#[test]
fn xml_escape_round_trips_through_entity_decoding() {
    let original = "Tom & Jerry's <\"show\">";
    let decoded = xml_escape(original)
        .replace("&lt;", "<")
        .replace("&gt;", ">")
        .replace("&quot;", "\"")
        .replace("&apos;", "'")
        .replace("&amp;", "&");
    assert_eq!(decoded, original);
}

#[test]
fn sanitize_name_cleans_and_lowercases() {
    assert_eq!(sanitize_name("My Design!"), "my-design");
    assert_eq!(sanitize_name("  "), "design");
    assert_eq!(sanitize_name(""), "design");
    assert_eq!(sanitize_name("--Hero_Banner--"), "hero_banner");
    assert_eq!(sanitize_name("\u{dc}n\u{ef}code_ok"), "n-code_ok");
    assert_eq!(sanitize_name("My Poster!"), "my-poster");
    assert_eq!(sanitize_name("../.."), "design");
    assert_eq!(sanitize_name("\u{e9}\u{e8} !?"), "design");
}

#[test]
fn sanitize_name_is_idempotent() {
    for value in ["My Design!", "  ", "a/b\\c", "--X--", "ok_name-1"] {
        let once = sanitize_name(value);
        assert_eq!(sanitize_name(&once), once);
    }
}

#[test]
fn text_helpers_follow_std() {
    assert_eq!(trim("  hi there \n"), "hi there");
    assert_eq!(truncate("abcdef", 3), "abc");
    assert_eq!(truncate("ab", 3), "ab");
    assert_eq!(decimal_string(0), "0");
    assert_eq!(decimal_string(4762), "4762");
    assert!(contains("listening on: 127.0.0.1", "listening on:"));
    assert!(!contains("abc", "abcd"));
}

#[test]
fn join_path_follows_pathbuf_push() {
    assert_eq!(join_path("/data/outputs", "a.png"), "/data/outputs/a.png");
    assert_eq!(join_path("/data/outputs/", "a.png"), "/data/outputs/a.png");
    assert_eq!(join_path("", "a.png"), "a.png");
    assert_eq!(join_path("/data", "/abs/a.png"), "/abs/a.png");
}

#[test]
fn design_request_validation_reports_each_error() {
    assert!(validate_design_request(&request("feature-poster", 1200, 1600)).is_ok());
    let mut blank = request("feature-poster", 1200, 1600);
    blank.title = "   ".to_string();
    assert_eq!(
        validate_design_request(&blank).unwrap_err(),
        "Design headline cannot be empty."
    );
    assert_eq!(
        validate_design_request(&request("feature-poster", 319, 1600)).unwrap_err(),
        "Design dimensions must be between 320 and 4096 pixels."
    );
    assert_eq!(
        validate_design_request(&request("feature-poster", 1200, 4097)).unwrap_err(),
        "Design dimensions must be between 320 and 4096 pixels."
    );
    assert!(validate_design_request(&request("feature-poster", 320, 4096)).is_ok());
}

#[test]
fn design_file_name_uses_sanitized_name_and_asset_id() {
    assert_eq!(design_file_name("Launch Poster", "abc"), "launch-poster-abc.svg");
    assert_eq!(design_file_name("***", "id1"), "design-id1.svg");
}

#[test]
fn placeholder_layer_has_exact_geometry() {
    assert_eq!(
        placeholder_image_layer(1000, 500),
        "<rect x=\"520\" y=\"35\" width=\"420\" height=\"430\" rx=\"20\" fill=\"url(#visualGradient)\"/>\n<circle cx=\"780\" cy=\"165\" r=\"85\" fill=\"#c8ff70\" opacity=\".32\" filter=\"url(#softBlur)\"/>"
    );
}

#[test]
fn embedded_layer_encodes_bytes_and_guesses_mime() {
    let layer = embedded_image_layer("/data/outputs/a.png", b"hello", 1000, 500);
    assert_eq!(
        layer,
        "<image href=\"data:image/png;base64,aGVsbG8=\" x=\"520\" y=\"35\" width=\"420\" height=\"430\" preserveAspectRatio=\"xMidYMid slice\" clip-path=\"url(#visualClip)\"/>"
    );
}

#[test]
fn asset_data_uri_is_mime_and_base64() {
    assert_eq!(asset_data_uri("/x/preview.svg", b"<svg/>"), "data:image/svg+xml;base64,PHN2Zy8+");
    assert_eq!(asset_data_uri("/x/blob.unknownext", b""), "data:application/octet-stream;base64,");
    assert_eq!(asset_data_uri("/x/p.jpg", b"ab"), "data:image/jpeg;base64,YWI=");
}

#[test]
fn background_source_decisions() {
    assert!(matches!(background_source("  ", false, false), Ok(BackgroundSource::Placeholder)));
    assert_eq!(
        background_source("/missing.png", false, true).err().unwrap(),
        "Background image does not exist: /missing.png"
    );
    assert_eq!(
        background_source("/etc/img.png", true, false).err().unwrap(),
        "Background image must come from the Imgen Pro output or design library."
    );
    assert!(matches!(background_source("/data/a.png", true, true), Ok(BackgroundSource::File)));
}

#[test]
fn preview_outside_app_data_is_refused() {
    assert!(check_preview_path(true).is_ok());
    assert_eq!(
        check_preview_path(false).unwrap_err(),
        "Asset preview path is outside the Imgen Pro data directory."
    );
}

#[test]
fn poster_escapes_user_text_and_embeds_layer() {
    let req = request("feature-poster", 1200, 1600);
    let svg = feature_poster_svg(&req, "<g id=\"layer\"/>");
    assert!(svg.starts_with("<svg"));
    assert!(svg.contains("Fast &amp; &lt;Local&gt;"));
    assert!(svg.contains("Design &quot;without&quot; the cloud"));
    assert!(svg.contains("<g id=\"layer\"/>"));
    assert!(!svg.contains("<Local>"));
    assert!(svg.contains("width=\"1200\""));
}

#[test]
fn web_hero_adds_suffix_to_eyebrow() {
    let req = request("web-hero", 1400, 900);
    let hero = web_hero_svg(&req, "");
    assert!(hero.contains("Studio \u{b7} WEB HERO"));
    assert_eq!(design_svg(&req, ""), hero);
    let poster = request("anything-else", 1400, 900);
    assert_eq!(design_svg(&poster, ""), feature_poster_svg(&poster, ""));
    assert!(!design_svg(&poster, "").contains("WEB HERO"));
}

#[test]
fn design_asset_record() {
    let asset = design_asset("id".to_string(), "/d/x.svg".to_string(), 800, 600);
    assert_eq!(asset.id, "id");
    assert_eq!(asset.path, "/d/x.svg");
    assert_eq!(asset.mime_type, "image/svg+xml");
    assert_eq!((asset.width, asset.height), (800, 600));
    assert_eq!(asset.kind, AssetKind::Design);
}

#[test]
fn design_plan_validates_and_names_the_file() {
    let plan = plan_design(&request("web-hero", 1400, 900), "/data/designs").unwrap();
    assert_eq!(plan.asset_id.len(), 36);
    assert_eq!(plan.output_path, format!("/data/designs/launch-poster-{}.svg", plan.asset_id));
    assert_eq!(
        plan_design(&request("web-hero", 100, 900), "/data/designs").unwrap_err(),
        "Design dimensions must be between 320 and 4096 pixels."
    );
}
