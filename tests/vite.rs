use sha1::{Digest, Sha1};
use vite_layout::config::Layout;
use vite_layout::development::Development;
use vite_layout::digest::version_token;
use vite_layout::manifest::{resolve, ViteError};
use vite_layout::markup::{escape_html, push_decimal};
use vite_layout::production::{build_css_links, Production};
use vite_layout::template::output_or_empty;

const MANIFEST: &str = r#"{"main.js": {"file": "main.hash-id-here.js", "css": ["style.css"]}}"#;
const PROPS: &str = r#"{"someprops": "somevalues"}"#;

#[test]
fn test_development_default() {
    let development = Development::default();

    assert_eq!(development.port, 5173);
    assert_eq!(development.main, "src/main.ts");
    assert_eq!(development.lang, "en");
    assert_eq!(development.title, "Vite");
    assert_eq!(development.react, false);
}

#[test]
fn test_development_builder_methods() {
    let development = Development::default()
        .port(8080)
        .main("src/deep/index.ts")
        .lang("id")
        .title("Untitled Axum Inertia App")
        .react();

    assert_eq!(development.port, 8080);
    assert_eq!(development.main, "src/deep/index.ts");
    assert_eq!(development.lang, "id");
    assert_eq!(development.title, "Untitled Axum Inertia App");
    assert_eq!(development.react, true);
}

#[test]
fn test_development_into_config() {
    let main_script = "src/index.ts";
    let development = Development::default()
        .port(8080)
        .main(main_script)
        .lang("lang-id")
        .title("app-title-here")
        .react();

    let config = development.into_config();

    assert_eq!(config.version(), None);

    let binding = config.render(r#"{"someprops": "somevalues"}"#);
    let rendered_layout = binding.as_str();

    assert!(rendered_layout.contains(r#"<html lang="lang-id">"#));
    assert!(rendered_layout.contains(r#"<title>app-title-here</title>"#));
    assert!(rendered_layout.contains(r#"{&quot;someprops&quot;: &quot;somevalues&quot;}"#));
    assert!(rendered_layout.contains(r#"http://localhost:8080/@vite-tool-client"#));
    assert!(
        rendered_layout.contains(r#"window.__vite_plugin_react_preamble_installed__ = true"#)
    );
}

#[test]
fn test_production_new_entry_missing() {
    let manifest_content = r#"{"main.js": {}}"#;
    let result = Production::new_from_string(manifest_content, "nonexistent.js");

    assert!(matches!(result, Err(_)));
}

#[test]
fn test_production_new() {
    let manifest_content =
        r#"{"main.js": {"file": "main.hash-id-here.js", "css": ["style.css"]}}"#;
    let production_res = Production::new_from_string(manifest_content, "main.js");

    assert!(production_res.is_ok());

    let production = production_res.unwrap();
    let content_hash = hex::encode(Sha1::digest(manifest_content.as_bytes()));

    assert_eq!(production.main.css, Some(vec!(String::from("style.css"))));
    assert_eq!(production.title, "Vite");
    assert_eq!(production.main.file, "main.hash-id-here.js");
    assert_eq!(production.main.integrity, None);
    assert_eq!(production.lang, "en");
    assert_eq!(production.version, content_hash);
}

#[test]
fn test_production_builder_methods() {
    let manifest_content =
        r#"{"main.js": {"file": "main.hash-id-here.js", "css": ["style.css"]}}"#;
    let production = Production::new_from_string(manifest_content, "main.js")
        .unwrap()
        .lang("fr")
        .title("Untitled Axum Inertia App");

    assert_eq!(production.lang, "fr");
    assert_eq!(production.title, "Untitled Axum Inertia App");
}

#[test]
fn test_production_into_config() {
    let manifest_content =
        r#"{"main.js": {"file": "main.hash-id-here.js", "css": ["style.css"]}}"#;
    let production = Production::new_from_string(manifest_content, "main.js")
        .unwrap()
        .lang("jv")
        .title("Untitled Axum Inertia App");

    let config = production.into_config();
    let binding = config.render(r#"{"someprops": "somevalues"}"#);
    let rendered_layout = binding.as_str();

    assert!(rendered_layout
        .contains(r#"<script type="module" src="/main.hash-id-here.js"></script>"#));
    assert!(rendered_layout.contains(r#"<link rel="stylesheet" href="/style.css"/>"#));
    assert!(rendered_layout.contains(r#"<html lang="jv">"#));
    assert!(rendered_layout.contains(r#"<title>Untitled Axum Inertia App</title>"#));
    assert!(rendered_layout.contains(r#"{&quot;someprops&quot;: &quot;somevalues&quot;}"#));
}

#[test]
fn test_production_into_config_with_integrity() {
    let manifest_content = r#"{"main.js": {"file": "main.hash-id-here.js", "integrity": "sha000-shaHashHere1234", "css": ["style.css"]}}"#;
    let production = Production::new_from_string(manifest_content, "main.js")
        .unwrap()
        .lang("jv")
        .title("Untitled Axum Inertia App");

    let config = production.into_config();
    let binding = config.render(r#"{"someprops": "somevalues"}"#);
    let rendered_layout = binding.as_str();

    assert!(rendered_layout.contains(r#"<script type="module" src="/main.hash-id-here.js" integrity="sha000-shaHashHere1234"></script>"#));
    assert!(rendered_layout.contains(r#"<link rel="stylesheet" href="/style.css"/>"#));
    assert!(rendered_layout.contains(r#"<html lang="jv">"#));
    assert!(rendered_layout.contains(r#"<title>Untitled Axum Inertia App</title>"#));
    assert!(rendered_layout.contains(r#"{&quot;someprops&quot;: &quot;somevalues&quot;}"#));
}

#[test]
fn development_document_is_exact() {
    let doc = Development::default().render("{}");
    assert_eq!(
        doc,
        r#"<html lang="en"><head><title>Vite</title><meta charset="utf-8"><meta name="viewport" content="width=device-width, initial-scale=1.0"><script type="module" src="http://localhost:5173/@vite-tool-client"></script><script type="module" src="http://localhost:5173/src/main.ts"></script></head><body><div id="app" data-page="{}"></div></body></html>"#
    );
}

#[test]
fn development_without_react_has_no_preamble() {
    let doc = Development::default().render("{}");
    assert!(!doc.contains("RefreshRuntime"));
}

#[test]
fn preamble_precedes_client_which_precedes_entry() {
    let doc = Development::default().port(8080).main("src/index.ts").react().render("{}");
    let preamble = doc.find(r#"<script type="module">"#).unwrap();
    assert!(doc[preamble..].contains("RefreshRuntime"));
    let client = doc.find("http://localhost:8080/@vite-tool-client").unwrap();
    let entry = doc.find("http://localhost:8080/src/index.ts").unwrap();
    assert!(preamble < client);
    assert!(client < entry);
}

#[test]
fn react_preamble_names_the_port() {
    let preamble = Development::default().port(3000).build_react_preamble();
    assert!(preamble.contains(r#"import RefreshRuntime from "http://localhost:3000/@react-refresh""#));
    assert!(preamble.starts_with('\n'));
    assert!(preamble.ends_with("window.__vite_plugin_react_preamble_installed__ = true\n"));
}

#[test]
fn decimal_ports_render_exactly() {
    for (n, text) in [(0u16, "0"), (7, "7"), (10, "10"), (5173, "5173"), (65535, "65535")] {
        let mut s = String::from("p=");
        push_decimal(&mut s, n);
        assert_eq!(s, format!("p={}", text));
    }
}

#[test]
fn integrity_attribute_carried_when_present() {
    let manifest = r#"{"main.js": {"file": "main.abc123.js", "integrity": "sha000-ABC"}}"#;
    let p = Production::new_from_string(manifest, "main.js").unwrap();
    assert_eq!(
        p.build_script(),
        r#"<script type="module" src="/main.abc123.js" integrity="sha000-ABC"></script>"#
    );
}

#[test]
fn integrity_attribute_absent_when_missing() {
    let manifest = r#"{"main.js": {"file": "main.abc123.js"}}"#;
    let p = Production::new_from_string(manifest, "main.js").unwrap();
    let doc = p.render("{}");
    assert!(!doc.contains("integrity"));
    assert!(doc.contains(r#"<script type="module" src="/main.abc123.js"></script>"#));
}

#[test]
fn null_integrity_and_css_read_as_absent() {
    let manifest = r#"{"main.js": {"file": "m.js", "integrity": null, "css": null}}"#;
    let p = Production::new_from_string(manifest, "main.js").unwrap();
    assert_eq!(p.main.integrity, None);
    assert_eq!(p.main.css, None);
    assert_eq!(p.css, None);
}

#[test]
fn props_are_escaped_in_mount_point() {
    let doc = Development::default().render(r#"{"a": "<script>"}"#);
    assert!(doc.contains(r#"<div id="app" data-page="{&quot;a&quot;: &quot;&lt;script&gt;&quot;}"></div>"#));
    assert!(!doc.contains(r#""<script>""#));
}

#[test]
fn escape_html_replaces_markup_characters() {
    assert_eq!(escape_html(r#"a&b<c>d"e'f"#), "a&amp;b&lt;c&gt;d&quot;e'f");
    assert_eq!(escape_html(""), "");
}

#[test]
fn asset_path_prefixes_script_source() {
    let manifest = r#"{"main.js": {"file": "main.abc123.js"}}"#;
    let p = Production::new_from_string(manifest, "main.js").unwrap().asset_path("static");
    assert_eq!(p.build_main_path(), "/static/main.abc123.js");
    assert!(p.render("{}").contains(r#"src="/static/main.abc123.js""#));
}

#[test]
fn path_without_prefix_has_leading_slash() {
    let manifest = r#"{"main.js": {"file": "main.abc123.js"}}"#;
    let p = Production::new_from_string(manifest, "main.js").unwrap();
    assert_eq!(p.build_main_path(), "/main.abc123.js");
}

#[test]
fn css_links_keep_manifest_order() {
    let links = build_css_links(&vec![String::from("b.css"), String::from("a.css"), String::from("b.css")]);
    assert_eq!(
        links,
        r#"<link rel="stylesheet" href="/b.css"/><link rel="stylesheet" href="/a.css"/><link rel="stylesheet" href="/b.css"/>"#
    );
    assert_eq!(build_css_links(&vec![]), "");
}

#[test]
fn resolve_is_deterministic() {
    let a = resolve(MANIFEST.as_bytes(), "main.js").unwrap();
    let b = resolve(MANIFEST.as_bytes(), "main.js").unwrap();
    assert_eq!(a.file, b.file);
    assert_eq!(a.integrity, b.integrity);
    assert_eq!(a.css, b.css);
}

#[test]
fn absent_entry_is_missing_not_malformed() {
    let result = resolve(MANIFEST.as_bytes(), "other.js");
    assert!(matches!(result, Err(ViteError::EntryMissing("other.js"))));
    let empty = resolve(b"{}", "main.js");
    assert!(matches!(empty, Err(ViteError::EntryMissing("main.js"))));
}

#[test]
fn malformed_manifests_are_rejected() {
    let cases: [&[u8]; 7] = [
        b"not json",
        b"[1, 2]",
        br#"{"main.js": 3}"#,
        br#"{"main.js": {"file": 3}}"#,
        br#"{"main.js": {"file": "m.js", "css": ["a.css", 4]}}"#,
        br#"{"main.js": {"file": "m.js", "integrity": true}}"#,
        b"{\"main.js\": {\"file\": \"\xff\"}}",
    ];
    for bytes in cases {
        assert!(matches!(resolve(bytes, "main.js"), Err(ViteError::MalformedManifest)));
    }
}

#[test]
fn any_invalid_entry_makes_the_manifest_malformed() {
    let manifest = br#"{"main.js": {"file": "m.js"}, "other.js": {"css": []}}"#;
    assert!(matches!(resolve(manifest, "main.js"), Err(ViteError::MalformedManifest)));
}

#[test]
fn unknown_entry_members_are_ignored() {
    let manifest = br#"{"main.js": {"file": "m.js", "src": "main.js", "isEntry": true, "imports": ["x"]}}"#;
    let e = resolve(manifest, "main.js").unwrap();
    assert_eq!(e.file, "m.js");
}

#[test]
fn version_token_is_sha1_hex_of_bytes() {
    let token = version_token(MANIFEST.as_bytes());
    assert_eq!(token, hex::encode(Sha1::digest(MANIFEST.as_bytes())));
    assert_eq!(token.len(), 40);
    assert_eq!(version_token(b"abc"), "a9993e364706816aba3e25717850c26c9cd0d89d");
}

#[test]
fn version_token_is_stable_and_content_sensitive() {
    assert_eq!(version_token(MANIFEST.as_bytes()), version_token(MANIFEST.as_bytes()));
    assert_ne!(version_token(b"{}"), version_token(b"{ }"));
}

#[test]
fn production_config_carries_version() {
    let p = Production::new_from_string(MANIFEST, "main.js").unwrap();
    let config = p.into_config();
    assert_eq!(config.version(), Some(version_token(MANIFEST.as_bytes())));
    assert!(matches!(config.layout(), Layout::Production(_)));
}

#[test]
fn error_messages() {
    assert_eq!(ViteError::ManifestMissing.message(), "couldn't open manifest file");
    assert_eq!(ViteError::MalformedManifest.message(), "malformed manifest");
    assert_eq!(ViteError::EntryMissing("x.js").message(), "manifest missing entry for x.js");
}

#[test]
fn template_receives_layout_fragments() {
    let mut engine = tera::Tera::default();
    engine
        .add_raw_template("layout", "{{ vite_client | safe }}|{{ vite_main | safe }}|{{ vite_react_refresh | safe }}|{{ application | safe }}")
        .unwrap();
    let config = Production::new_from_string(MANIFEST, "main.js")
        .unwrap()
        .template_engine(engine, "layout")
        .into_config();
    let (engine, name) = config.template().unwrap();
    assert_eq!(name, "layout");
    let out = output_or_empty(engine.render(name, &config.build_context(PROPS)));
    assert_eq!(
        out,
        r#"|<script type="module" src="/main.hash-id-here.js"></script>||<div id="app" data-page="{&quot;someprops&quot;: &quot;somevalues&quot;}"></div>"#
    );
}

#[test]
fn development_template_receives_dev_fragments() {
    let mut engine = tera::Tera::default();
    engine.add_raw_template("layout", "{{ vite_client | safe }}{{ vite_main | safe }}").unwrap();
    let d = Development::default().port(4000).template_engine(engine, "layout");
    let (engine, name) = d.template_engine.as_ref().unwrap();
    let out = output_or_empty(engine.render(name, &d.build_context("{}")));
    assert_eq!(
        out,
        r#"<script type="module" src="http://localhost:4000/@vite-tool-client"></script><script type="module" src="http://localhost:4000/src/main.ts"></script>"#
    );
}

#[test]
fn template_failure_degrades_to_empty() {
    let engine = tera::Tera::default();
    let config = Production::new_from_string(MANIFEST, "main.js")
        .unwrap()
        .template_engine(engine, "missing")
        .into_config();
    let (engine, name) = config.template().unwrap();
    let rendered = engine.render(name, &config.build_context(PROPS));
    assert!(rendered.is_err());
    assert_eq!(output_or_empty(rendered), "");
}

#[test]
fn output_or_empty_passes_output_through() {
    assert_eq!(output_or_empty(Ok(String::from("<p>page</p>"))), "<p>page</p>");
}

#[test]
fn config_without_template_has_none() {
    let config = Development::default().into_config();
    assert!(config.template().is_none());
}

#[test]
fn bytes_and_string_forms_agree() {
    let a = Production::new_from_string(MANIFEST, "main.js").unwrap();
    let b = Production::new_from_bytes(MANIFEST.as_bytes(), "main.js").unwrap();
    assert_eq!(a.main.file, b.main.file);
    assert_eq!(a.main.integrity, b.main.integrity);
    assert_eq!(a.main.css, b.main.css);
    assert_eq!(a.css, b.css);
    assert_eq!(a.version, b.version);
    assert!(matches!(
        Production::new_from_bytes(MANIFEST.as_bytes(), "other.js"),
        Err(ViteError::EntryMissing("other.js"))
    ));
}
