use analyze_sourcemaps::cdn::{is_community_cdn_host, is_community_cdn_url};
use analyze_sourcemaps::correlate::{candidate_folders, contains_text, known_file_names, url_file_name};
use analyze_sourcemaps::dom::{find_scripts, Dom, DomNode, NodeKind};
use analyze_sourcemaps::pipeline::{
    after_script, after_sourcemap, classify_reference, is_success_status, start_script, Action, Outcome, Report,
    ScriptResponse, UploadCandidate, Verdict,
};
use analyze_sourcemaps::reference::{find_header, sourcemap_header, sourcemap_reference};
use analyze_sourcemaps::sourcemaps::{
    decode_sourcemap, plan_source_checks, validate_sourcemap, DecodedSourcemap, MapKind, SourceCheck,
    SourceEntry, SourcemapError,
};
use analyze_sourcemaps::text::text_eq;
use analyze_sourcemaps::urls::last_path_segment;

fn minified_body() -> String {
    "a=b+c;".repeat(200)
}

fn readable_body() -> String {
    "function computeTotal(itemsList) {\n    return itemsList.length;\n}\n".to_string()
}

fn headers(pairs: &[(&str, &str)]) -> Vec<(String, String)> {
    pairs.iter().map(|(n, v)| (n.to_string(), v.to_string())).collect()
}

fn response(status: u16, hs: &[(&str, &str)], body: String) -> ScriptResponse {
    ScriptResponse { status, headers: headers(hs), body }
}

fn join_url(base: &str, reference: &str) -> Option<String> {
    fetch_url(&classify_reference(base, Some(reference.to_string()), true))
}

fn fetch_url(a: &Action) -> Option<String> {
    match a {
        Action::FetchSourcemap(u) => Some(u.clone()),
        _ => None,
    }
}

const THREE_EMBEDDED: &str = r#"{"version":3,"sources":["a.js","b.js","c.js"],"sourcesContent":["var a;","var b;","var c;"],"names":[],"mappings":"AAAA,CCAA,CCAA"}"#;

#[test]
fn join_path_relative() {
    assert_eq!(
        join_url("https://example.com/static/js/app.js", "app.js.map").as_deref(),
        Some("https://example.com/static/js/app.js.map")
    );
    assert_eq!(
        join_url("https://example.com/static/js/app.js", "../maps/app.map").as_deref(),
        Some("https://example.com/static/maps/app.map")
    );
}

#[test]
fn join_absolute_override() {
    assert_eq!(
        join_url("https://example.com/page/", "http://other.org/x.js").as_deref(),
        Some("http://other.org/x.js")
    );
}

#[test]
fn join_scheme_relative_and_root() {
    assert_eq!(
        join_url("https://example.com/page/index.html", "//cdn.example.net/y.js").as_deref(),
        Some("https://cdn.example.net/y.js")
    );
    assert_eq!(
        join_url("https://example.com/page/index.html", "/z.js").as_deref(),
        Some("https://example.com/z.js")
    );
}

#[test]
fn join_fails_on_bad_base() {
    assert_eq!(join_url("not a url", "x.js"), None);
}

#[test]
fn domain_and_path() {
    let a = start_script("https://cdn.ravenjs.com/3.0/raven.js");
    assert!(matches!(a, Action::Finish(Outcome::Ignored(ref h)) if h == "cdn.ravenjs.com"));
    assert!(!is_community_cdn_url("http://127.0.0.1/x.js"));
    assert_eq!(url_file_name("https://example.com/a/b.js?x=1").as_deref(), Some("b.js"));
    assert_eq!(url_file_name("not a url"), None);
}

#[test]
fn last_segment_of_paths() {
    assert_eq!(last_path_segment("/static/js/app.js"), "app.js");
    assert_eq!(last_path_segment("/static/"), "");
    assert_eq!(last_path_segment("plain"), "plain");
    assert_eq!(last_path_segment(""), "");
}

#[test]
fn text_equality() {
    assert!(text_eq("abc", "abc"));
    assert!(!text_eq("abc", "abd"));
    assert!(!text_eq("abc", "ab"));
}

#[test]
fn cdn_hosts_exact() {
    for h in [
        "ssl.google-analytics.com",
        "cdn.js.com",
        "ajax.googleapis.com",
        "cdn.ravenjs.com",
        "cdn.jsdelivr.net",
    ] {
        assert!(is_community_cdn_host(h));
    }
    assert!(!is_community_cdn_host("x.cdn.jsdelivr.net"));
    assert!(!is_community_cdn_host("example.com"));
}

#[test]
fn cdn_urls() {
    assert!(is_community_cdn_url("https://ajax.googleapis.com/ajax/libs/jquery.js"));
    assert!(!is_community_cdn_url("https://sub.ajax.googleapis.com/jquery.js"));
    assert!(!is_community_cdn_url("https://example.com/app.js"));
}

#[test]
fn cdn_script_is_ignored_without_fetch() {
    let a = start_script("https://cdn.jsdelivr.net/npm/lib.js");
    assert!(matches!(a, Action::Finish(Outcome::Ignored(ref h)) if h == "cdn.jsdelivr.net"));
    let b = start_script("https://example.com/app.js");
    assert!(matches!(b, Action::FetchScript(ref u) if u == "https://example.com/app.js"));
}

#[test]
fn scenario_cdn_page() {
    let page = "https://example.com/";
    let dom = page_with_scripts(&["https://ajax.googleapis.com/ajax/libs/jquery.js"]);
    let scripts = find_scripts(page, &dom);
    assert_eq!(scripts.len(), 1);
    let url = scripts[0].clone().unwrap();
    let mut report = Report::new();
    match start_script(&url) {
        Action::Finish(o) => {
            assert!(matches!(o, Outcome::Ignored(_)));
            report.record(url, o);
        }
        _ => panic!("a community CDN script must not be fetched"),
    }
    assert_eq!(report.ignored, 1);
    assert!(report.candidates.is_empty());
    assert_eq!(report.verdict(), Verdict::NoneMissing(0));
}

#[test]
fn scenario_header_and_valid_map() {
    let script = "https://example.com/static/app.js";
    let resp = response(200, &[("sourcemap", "app.js.map")], minified_body());
    let a = after_script(script, &resp);
    let sm_url = fetch_url(&a).expect("a sourcemap fetch");
    assert_eq!(sm_url, "https://example.com/static/app.js.map");
    let (map, checks) = validate_sourcemap(&sm_url, THREE_EMBEDDED.as_bytes()).unwrap();
    assert_eq!(map.sources.len(), 3);
    assert!(checks.iter().all(|c| matches!(c, SourceCheck::Embedded)));
    let outcome = after_sourcemap(sm_url.clone(), 200);
    assert!(matches!(outcome, Outcome::Valid(ref u) if *u == sm_url));
    let mut report = Report::new();
    report.record(script.to_string(), outcome);
    assert_eq!(report.valid, 1);
    assert_eq!(report.missing_count(), 0);
    assert_eq!(report.verdict(), Verdict::NoneMissing(1));
    assert!(report.candidates[0].resolved);
}

#[test]
fn scenario_minified_without_reference() {
    let script = "https://example.com/app.js";
    let a = after_script(script, &response(200, &[], minified_body()));
    let mut report = Report::new();
    match a {
        Action::Finish(o) => {
            assert!(matches!(o, Outcome::MissingReference));
            report.record(script.to_string(), o);
        }
        _ => panic!("expected a finished script"),
    }
    assert_eq!(report.missing_reference, 1);
    assert_eq!(report.missing_count(), 1);
    assert_eq!(report.verdict(), Verdict::Missing(1));
    assert_eq!(report.candidates.len(), 1);
    assert!(report.candidates[0].sourcemap_url.is_none());
    assert!(!report.candidates[0].resolved);
}

#[test]
fn unminified_script_is_not_flagged() {
    let a = after_script("https://example.com/app.js", &response(200, &[], readable_body()));
    assert!(matches!(a, Action::Finish(Outcome::Unminified)));
}

#[test]
fn failed_script_fetch() {
    let a = after_script("https://example.com/app.js", &response(404, &[], String::new()));
    assert!(matches!(a, Action::Finish(Outcome::FetchFailed(404))));
}

#[test]
fn pragma_resolves_against_script_url() {
    let body = format!("{}\n//# sourceMappingURL=foo.map\n", minified_body());
    let a = after_script("https://cdn.example.com/js/app.js", &response(200, &[], body));
    assert_eq!(fetch_url(&a).as_deref(), Some("https://cdn.example.com/js/foo.map"));
}

#[test]
fn legacy_pragma_found() {
    let none = Vec::new();
    assert_eq!(sourcemap_reference(&none, "x();\n//@ sourceMappingURL=old.map\n").as_deref(), Some("old.map"));
    assert_eq!(sourcemap_reference(&none, "x();\n"), None);
}

#[test]
fn reference_without_minification_is_followed() {
    let body = format!("{}//# sourceMappingURL=r.map\n", readable_body());
    let a = after_script("https://example.com/a/app.js", &response(200, &[], body));
    assert_eq!(fetch_url(&a).as_deref(), Some("https://example.com/a/r.map"));
}

#[test]
fn header_lookup_case_insensitive() {
    let hs = headers(&[("Content-Type", "text/javascript"), ("SourceMap", "a.map")]);
    assert_eq!(find_header(&hs, "sourcemap").as_deref(), Some("a.map"));
    assert_eq!(find_header(&hs, "x-sourcemap"), None);
    let legacy = headers(&[("X-SourceMap", "b.map")]);
    assert_eq!(sourcemap_header(&legacy).as_deref(), Some("b.map"));
}

#[test]
fn header_takes_precedence() {
    let hs = headers(&[("x-sourcemap", "legacy.map"), ("sourcemap", "modern.map")]);
    assert_eq!(sourcemap_header(&hs).as_deref(), Some("modern.map"));
    let body = "x();\n//# sourceMappingURL=pragma.map\n";
    assert_eq!(sourcemap_reference(&hs, body).as_deref(), Some("modern.map"));
    assert_eq!(sourcemap_reference(&Vec::new(), body).as_deref(), Some("pragma.map"));
}

#[test]
fn unresolvable_reference() {
    let a = classify_reference("not a url", Some("x.map".to_string()), true);
    assert!(matches!(a, Action::Finish(Outcome::UnresolvableReference(ref r)) if r == "x.map"));
    let mut report = Report::new();
    if let Action::Finish(o) = a {
        report.record("not a url".to_string(), o);
    }
    assert_eq!(report.broken_reference, 1);
    assert_eq!(report.missing_count(), 1);
}

#[test]
fn broken_sourcemap_fetch() {
    let o = after_sourcemap("https://example.com/app.js.map".to_string(), 404);
    assert!(matches!(o, Outcome::BrokenReference(ref u, 404) if u == "https://example.com/app.js.map"));
    let mut report = Report::new();
    report.record("https://example.com/app.js".to_string(), o);
    assert_eq!(report.broken_reference, 1);
    assert_eq!(report.candidates[0].sourcemap_url.as_deref(), Some("https://example.com/app.js.map"));
    assert_eq!(report.verdict(), Verdict::Missing(1));
}

#[test]
fn not_a_sourcemap() {
    assert!(matches!(decode_sourcemap(b"not json at all"), Err(SourcemapError::Syntax)));
    assert!(matches!(validate_sourcemap("https://e.com/x.map", b"{}"), Err(SourcemapError::Syntax)));
}

#[test]
fn regular_map_decoded() {
    let d = decode_sourcemap(THREE_EMBEDDED.as_bytes()).unwrap();
    assert_eq!(d.kind, MapKind::Regular);
    assert_eq!(d.sources.len(), 3);
    assert_eq!(d.sources[1].name.as_deref(), Some("b.js"));
    assert_eq!(d.sources[2].contents.as_deref(), Some("var c;"));
    assert_eq!(d.token_count, 3);
}

#[test]
fn index_map_flattened() {
    let idx = r#"{"version":3,"sections":[
        {"offset":{"line":0,"column":0},"map":{"version":3,"sources":["one.js"],"names":[],"mappings":"AAAA"}},
        {"offset":{"line":1,"column":0},"map":{"version":3,"sources":["two.js","three.js"],"names":[],"mappings":"AAAA,CCAA"}}
    ]}"#;
    let d = decode_sourcemap(idx.as_bytes()).unwrap();
    assert_eq!(d.kind, MapKind::Index);
    assert_eq!(d.sources.len(), 3);
}

#[test]
fn index_map_with_unresolved_section() {
    let idx = r#"{"version":3,"sections":[
        {"offset":{"line":0,"column":0},"url":"https://example.com/part.map"}
    ]}"#;
    assert!(matches!(decode_sourcemap(idx.as_bytes()), Err(SourcemapError::IndexUnsupported)));
}

#[test]
fn source_checks_planned() {
    let map = DecodedSourcemap {
        kind: MapKind::Regular,
        sources: vec![
            SourceEntry { name: Some("src/a.js".to_string()), contents: Some("var a;".to_string()) },
            SourceEntry { name: Some("src/b.js".to_string()), contents: None },
            SourceEntry { name: None, contents: None },
        ],
        token_count: 0,
    };
    let checks = plan_source_checks(&map, "https://example.com/maps/app.js.map");
    assert_eq!(checks.len(), 3);
    assert!(matches!(checks[0], SourceCheck::Embedded));
    assert!(matches!(checks[1], SourceCheck::Scrape(ref u) if u == "https://example.com/maps/src/b.js"));
    assert!(matches!(checks[2], SourceCheck::InvalidReference(2)));
}

#[test]
fn embedded_source_never_probed() {
    let map = DecodedSourcemap {
        kind: MapKind::Regular,
        sources: vec![SourceEntry { name: None, contents: Some(String::new()) }],
        token_count: 0,
    };
    let checks = plan_source_checks(&map, "not a url");
    assert!(matches!(checks[0], SourceCheck::Embedded));
}

fn element(name: &str, attrs: &[(&str, &str)], children: Vec<usize>) -> DomNode {
    DomNode { kind: NodeKind::Element(name.to_string(), headers(attrs)), children }
}

fn page_with_scripts(srcs: &[&str]) -> Dom {
    let mut nodes = vec![DomNode { kind: NodeKind::Document, children: vec![1] }];
    nodes.push(element("html", &[], (2..2 + srcs.len()).collect()));
    for s in srcs {
        nodes.push(element("script", &[("src", s)], vec![]));
    }
    Dom { nodes }
}

#[test]
fn scripts_found_in_document_order() {
    let nodes = vec![
        DomNode { kind: NodeKind::Document, children: vec![1] },
        element("html", &[], vec![2, 4]),
        element("head", &[], vec![3]),
        element("script", &[("type", "text/javascript"), ("src", "a.js")], vec![]),
        element("body", &[], vec![5, 6, 7, 9]),
        element("script", &[("src", "//cdn.example.net/y.js")], vec![]),
        element("script", &[], vec![]),
        element("script", &[("src", "/b.js")], vec![8]),
        element("script", &[("src", "inner.js")], vec![]),
        element("div", &[], vec![10, 11]),
        DomNode { kind: NodeKind::Other, children: vec![] },
        element("script", &[("src", "a.js")], vec![]),
    ];
    let dom = Dom { nodes };
    let found = find_scripts("https://example.com/page/index.html", &dom);
    let found: Vec<Option<&str>> = found.iter().map(|o| o.as_deref()).collect();
    assert_eq!(
        found,
        vec![
            Some("https://example.com/page/a.js"),
            Some("https://cdn.example.net/y.js"),
            Some("https://example.com/b.js"),
            Some("https://example.com/page/a.js"),
        ]
    );
}

#[test]
fn unresolvable_src_is_isolated() {
    let dom = page_with_scripts(&["http://[bad", "ok.js"]);
    let found = find_scripts("https://example.com/", &dom);
    assert_eq!(found.len(), 2);
    assert_eq!(found[0], None);
    assert_eq!(found[1].as_deref(), Some("https://example.com/ok.js"));
}

#[test]
fn empty_document_has_no_scripts() {
    assert!(find_scripts("https://example.com/", &Dom { nodes: vec![] }).is_empty());
}

#[test]
fn file_names_of_candidates() {
    assert_eq!(url_file_name("https://example.com/static/app.js?v=2").as_deref(), Some("app.js"));
    let cs = vec![
        UploadCandidate {
            script_url: "https://example.com/static/app.js".to_string(),
            sourcemap_url: Some("https://example.com/maps/app.js.map".to_string()),
            resolved: true,
        },
        UploadCandidate { script_url: "https://example.com/vendor.js".to_string(), sourcemap_url: None, resolved: false },
    ];
    let (js, sm) = known_file_names(&cs);
    assert_eq!(js, vec!["app.js".to_string(), "vendor.js".to_string()]);
    assert_eq!(sm, vec!["app.js.map".to_string()]);
}

#[test]
fn scenario_local_folders() {
    let js = vec!["app.js".to_string()];
    let sm = vec!["app.js.map".to_string()];
    let entries = headers(&[("", "dist"), ("dist", "app.js"), ("dist", "app.js.map"), ("src", "main.ts")]);
    assert_eq!(candidate_folders(&js, &sm, &entries), vec!["dist".to_string()]);
}

#[test]
fn folders_kept_once_in_order() {
    let js = vec!["a.js".to_string()];
    let entries = headers(&[("x", "a.js"), ("y", "b.js"), ("z", "a.js"), ("x", "a.js")]);
    assert_eq!(candidate_folders(&js, &Vec::new(), &entries), vec!["x".to_string(), "z".to_string()]);
    assert!(contains_text(&js, "a.js"));
    assert!(!contains_text(&js, "b.js"));
}

#[test]
fn report_counts_every_outcome() {
    let mut r = Report::new();
    r.record("u1".to_string(), Outcome::FetchFailed(500));
    r.record("u2".to_string(), Outcome::Unminified);
    r.record("u3".to_string(), Outcome::Ignored("cdn.js.com".to_string()));
    assert_eq!((r.fetch_failed, r.unminified, r.ignored), (1, 1, 1));
    assert!(r.candidates.is_empty());
    assert_eq!(r.verdict(), Verdict::NoneMissing(0));
}

#[test]
fn index_map_with_nested_index() {
    let idx = r#"{"version":3,"sections":[
        {"offset":{"line":0,"column":0},"map":{"version":3,"sections":[
            {"offset":{"line":0,"column":0},"map":{"version":3,"sources":["one.js"],"names":[],"mappings":"AAAA"}}
        ]}}
    ]}"#;
    assert!(matches!(decode_sourcemap(idx.as_bytes()), Err(SourcemapError::IndexUnsupported)));
}

#[test]
fn index_map_with_overflowing_offset() {
    let idx = r#"{"version":3,"sections":[
        {"offset":{"line":4294967295,"column":0},"map":{"version":3,"sources":["one.js"],"names":[],"mappings":";AAAA"}}
    ]}"#;
    assert!(matches!(decode_sourcemap(idx.as_bytes()), Err(SourcemapError::IndexUnsupported)));
    let col = r#"{"version":3,"sections":[
        {"offset":{"line":0,"column":4294967295},"map":{"version":3,"sources":["one.js"],"names":[],"mappings":"CAAA"}}
    ]}"#;
    assert!(matches!(decode_sourcemap(col.as_bytes()), Err(SourcemapError::IndexUnsupported)));
}

#[test]
fn index_map_at_large_offset_still_flattens() {
    let idx = r#"{"version":3,"sections":[
        {"offset":{"line":4294967294,"column":0},"map":{"version":3,"sources":["one.js"],"names":[],"mappings":";AAAA"}}
    ]}"#;
    let d = decode_sourcemap(idx.as_bytes()).unwrap();
    assert_eq!(d.kind, MapKind::Index);
    assert_eq!(d.sources.len(), 1);
    assert_eq!(d.token_count, 1);
}

#[test]
fn undecodable_sourcemap() {
    let bad = r#"{"version":3,"sources":["a.js"],"names":[],"mappings":"!!!"}"#;
    assert!(matches!(decode_sourcemap(bad.as_bytes()), Err(SourcemapError::Decode)));
}

#[test]
fn invalid_source_reference_keeps_map_valid() {
    let body = r#"{"version":3,"sources":["http://[bad","b.js"],"names":[],"mappings":"AAAA,CCAA"}"#;
    let (map, checks) = validate_sourcemap("https://example.com/m/app.js.map", body.as_bytes()).unwrap();
    assert_eq!(map.sources.len(), 2);
    assert!(matches!(checks[0], SourceCheck::InvalidReference(0)));
    assert!(matches!(checks[1], SourceCheck::Scrape(ref u) if u == "https://example.com/m/b.js"));
}

#[test]
fn success_statuses() {
    assert!(is_success_status(200));
    assert!(is_success_status(299));
    assert!(!is_success_status(199));
    assert!(!is_success_status(300));
    assert!(!is_success_status(404));
}
