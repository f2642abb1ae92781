use spa_server::mime::content_type_for;
use spa_server::routes::{classify, RouteDecision};

#[test]
fn asset_path_is_classified_as_asset() {
    let d = classify(&"/assets/app.js".to_string());
    assert_eq!(d, RouteDecision::Asset("app.js".to_string()));
}

#[test]
fn nested_asset_path_keeps_its_directories() {
    let d = classify(&"/assets/fonts/inter/regular.woff2".to_string());
    assert_eq!(d, RouteDecision::Asset("fonts/inter/regular.woff2".to_string()));
}

#[test]
fn root_path_is_fallback() {
    assert_eq!(classify(&"/".to_string()), RouteDecision::Fallback);
}

#[test]
fn empty_path_is_fallback() {
    assert_eq!(classify(&"".to_string()), RouteDecision::Fallback);
}

#[test]
fn spa_route_is_fallback() {
    assert_eq!(classify(&"/some/spa/route".to_string()), RouteDecision::Fallback);
}

#[test]
fn bare_assets_prefix_is_fallback() {
    assert_eq!(classify(&"/assets".to_string()), RouteDecision::Fallback);
    assert_eq!(classify(&"/assets/".to_string()), RouteDecision::Fallback);
}

#[test]
fn prefix_must_match_exactly() {
    assert_eq!(classify(&"/assetsx/app.js".to_string()), RouteDecision::Fallback);
    assert_eq!(classify(&"/asset/app.js".to_string()), RouteDecision::Fallback);
    assert_eq!(classify(&"assets/app.js".to_string()), RouteDecision::Fallback);
}

#[test]
fn dotdot_segment_is_rejected() {
    assert_eq!(classify(&"/assets/../secret.txt".to_string()), RouteDecision::Fallback);
    assert_eq!(classify(&"/assets/a/../b.js".to_string()), RouteDecision::Fallback);
    assert_eq!(classify(&"/assets/..".to_string()), RouteDecision::Fallback);
    assert_eq!(classify(&"/assets/a/..".to_string()), RouteDecision::Fallback);
}

#[test]
fn dots_inside_a_name_are_allowed() {
    let d = classify(&"/assets/a..b.js".to_string());
    assert_eq!(d, RouteDecision::Asset("a..b.js".to_string()));
    let d = classify(&"/assets/.hidden".to_string());
    assert_eq!(d, RouteDecision::Asset(".hidden".to_string()));
}

#[test]
fn empty_segments_are_rejected() {
    assert_eq!(classify(&"/assets//app.js".to_string()), RouteDecision::Fallback);
    assert_eq!(classify(&"/assets/dir//x".to_string()), RouteDecision::Fallback);
    assert_eq!(classify(&"/assets/dir/".to_string()), RouteDecision::Fallback);
}

#[test]
fn known_extensions_get_their_mime_type() {
    assert_eq!(content_type_for("index.html"), "text/html");
    assert_eq!(content_type_for("app.js"), "text/javascript");
    assert_eq!(content_type_for("style.css"), "text/css");
    assert_eq!(content_type_for("data.json"), "application/json");
    assert_eq!(content_type_for("logo.png"), "image/png");
    assert_eq!(content_type_for("photo.jpg"), "image/jpeg");
    assert_eq!(content_type_for("icon.svg"), "image/svg+xml");
    assert_eq!(content_type_for("favicon.ico"), "image/x-icon");
    assert_eq!(content_type_for("font.woff2"), "font/woff2");
    assert_eq!(content_type_for("module.wasm"), "application/wasm");
    assert_eq!(content_type_for("readme.txt"), "text/plain");
}

#[test]
fn only_the_last_dot_counts() {
    assert_eq!(content_type_for("app.min.js"), "text/javascript");
    assert_eq!(content_type_for("archive.tar.gz"), "application/octet-stream");
}

#[test]
fn extension_is_taken_from_the_last_segment() {
    assert_eq!(content_type_for("v1.2/app"), "application/octet-stream");
    assert_eq!(content_type_for("dir.d/page.html"), "text/html");
}

#[test]
fn unknown_or_missing_extension_is_octet_stream() {
    assert_eq!(content_type_for("LICENSE"), "application/octet-stream");
    assert_eq!(content_type_for("binary.xyz"), "application/octet-stream");
    assert_eq!(content_type_for("trailing."), "application/octet-stream");
}
