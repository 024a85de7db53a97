use next_import_map::compose::{
    get_next_build_import_map, get_next_client_fallback_import_map, get_next_client_import_map,
    get_next_client_resolved_map, get_next_edge_import_map, get_next_package, get_next_server_import_map,
    mdx_import_source_file, ClientContextType, ImportMapError, ServerContextType,
};
use next_import_map::config::{insert_alias_option, ConditionalTarget, NextConfig, UserAlias};
use next_import_map::layers::{NextMode, NEXT_EMBED_ROOT, RUNTIME_EMBED_ROOT};
use next_import_map::mapping::{HandlerKind, ImportMapping, ResolvedAnswer, Step, Target};
use next_import_map::matrix::{select_runtime_request, NextRuntime, Phase, RuntimeEntry};
use next_import_map::table::{AliasPattern, ImportMap};

const PROJECT: &str = "/project";
const PACKAGE_JSON: &str = "/project/node_modules/next/package.json";
const NEXT_PACKAGE: &str = "/project/node_modules/next";

fn config(server_actions: bool, aliases: Vec<UserAlias>) -> NextConfig {
    NextConfig { server_actions, mdx_rs: false, resolve_alias: aliases }
}

fn found() -> Option<String> {
    Some(PACKAGE_JSON.to_string())
}

fn direct(m: &ImportMapping) -> (String, String) {
    match m {
        ImportMapping::Direct { request, base } => (request.clone(), base.clone()),
        other => panic!("expected a direct mapping, got {:?}", other),
    }
}

fn looked_up(t: &ImportMap, s: &str) -> ImportMapping {
    match t.lookup(s) {
        Some((_, m)) => m,
        None => panic!("no alias for {}", s),
    }
}

fn user_alias(pattern: AliasPattern, requests: &[(&str, Option<&str>)]) -> UserAlias {
    UserAlias {
        pattern,
        targets: requests
            .iter()
            .map(|(r, c)| ConditionalTarget { condition: c.map(|c| c.to_string()), request: r.to_string() })
            .collect(),
    }
}

fn direct_mapping(request: &str, base: &str) -> ImportMapping {
    ImportMapping::Direct { request: request.to_string(), base: base.to_string() }
}

#[test]
fn exact_alias_outranks_wildcard() {
    let mut t = ImportMap::empty();
    t.insert_wildcard_alias("a/", direct_mapping("wild/*", "/w"));
    t.insert_exact_alias("a/b", direct_mapping("exact", "/e"));
    t.insert_wildcard_alias("a/b", direct_mapping("later-wild/*", "/w"));
    match t.lookup("a/b") {
        Some((AliasPattern::Exact(k), m)) => {
            assert_eq!(k, "a/b");
            assert_eq!(direct(&m), ("exact".to_string(), "/e".to_string()));
        }
        other => panic!("unexpected {:?}", other),
    }
}

#[test]
fn longest_prefix_wins_in_either_order() {
    let mut t = ImportMap::empty();
    t.insert_wildcard_alias("a/", direct_mapping("X", "/"));
    t.insert_wildcard_alias("a/b/", direct_mapping("Y", "/"));
    assert_eq!(direct(&looked_up(&t, "a/b/c")).0, "Y");
    let mut u = ImportMap::empty();
    u.insert_wildcard_alias("a/b/", direct_mapping("Y", "/"));
    u.insert_wildcard_alias("a/", direct_mapping("X", "/"));
    assert_eq!(direct(&looked_up(&u, "a/b/c")).0, "Y");
    assert_eq!(direct(&looked_up(&u, "a/c")).0, "X");
}

#[test]
fn later_insert_replaces_earlier() {
    let mut t = ImportMap::empty();
    t.insert_exact_alias("k", direct_mapping("first", "/"));
    t.insert_exact_alias("k", direct_mapping("second", "/"));
    assert_eq!(direct(&looked_up(&t, "k")).0, "second");
    t.insert_wildcard_alias("p/", direct_mapping("one/*", "/"));
    t.insert_wildcard_alias("p/", direct_mapping("two/*", "/"));
    assert_eq!(direct(&looked_up(&t, "p/x")).0, "two/x");
}

#[test]
fn no_alias_gives_none() {
    let mut t = ImportMap::empty();
    assert!(t.lookup("anything").is_none());
    t.insert_wildcard_alias("a/b/", direct_mapping("Y", "/"));
    assert!(t.lookup("a/").is_none());
    assert!(t.lookup("").is_none());
}

#[test]
fn wildcard_capture_is_substituted() {
    let mut t = ImportMap::empty();
    t.insert_wildcard_alias("pkg/dist/client/", direct_mapping("pkg/dist/esm/client/*", PROJECT));
    match t.lookup("pkg/dist/client/link") {
        Some((AliasPattern::Wildcard(k), m)) => {
            assert_eq!(k, "pkg/dist/client/");
            assert_eq!(direct(&m), ("pkg/dist/esm/client/link".to_string(), PROJECT.to_string()));
        }
        other => panic!("unexpected {:?}", other),
    }
}

#[test]
fn edge_table_rewrites_to_esm_build() {
    let t = get_next_edge_import_map(PROJECT, &ServerContextType::Middleware, NextMode::Build, &config(false, vec![]), &found())
        .unwrap();
    assert_eq!(direct(&looked_up(&t, "next/dist/client/foo")).0, "next/dist/esm/client/foo");
    assert_eq!(direct(&looked_up(&t, "next/link")).0, "next/dist/esm/client/link");
}

#[test]
fn composition_is_deterministic() {
    let aliases = || {
        vec![
            user_alias(AliasPattern::Exact("lib".to_string()), &[("./lib-a", None), ("./lib-b", None)]),
            user_alias(AliasPattern::Wildcard("x/".to_string()), &[("./x/*", None)]),
        ]
    };
    let ty = ClientContextType::App { app_dir: "/project/app".to_string() };
    let a = get_next_client_import_map(PROJECT, &ty, NextMode::Build, &config(true, aliases()), &found()).unwrap();
    let b = get_next_client_import_map(PROJECT, &ty, NextMode::Build, &config(true, aliases()), &found()).unwrap();
    for s in [
        "react", "react/jsx-runtime", "lib", "x/y", "node:crypto", "server-only", "next/head",
        "@vercel/turbopack-next/x", "unknown",
    ] {
        assert_eq!(format!("{:?}", a.lookup(s)), format!("{:?}", b.lookup(s)));
    }
}

#[test]
fn alternatives_short_circuit() {
    let chain = ImportMapping::Alternatives(vec![
        Target::Direct { request: "./_app".to_string(), base: "/pages".to_string() },
        Target::Direct { request: "next/app".to_string(), base: "/pages".to_string() },
    ]);
    let oracle = |base: &str, request: &str| -> Option<String> {
        assert_eq!((base, request), ("/pages", "./_app"), "the oracle was asked for a later alternative");
        Some("/pages/_app.tsx".to_string())
    };
    let mut answers: Vec<Option<String>> = Vec::new();
    let answer = loop {
        match chain.next_step("@vercel/turbopack-next/pages/_app", "/ctx", &answers) {
            Step::Probe { base, request } => answers.push(oracle(&base, &request)),
            Step::Done(a) => break a,
        }
    };
    assert_eq!(answers.len(), 1);
    match answer {
        ResolvedAnswer::ResolvedTo(s) => assert_eq!(s, "/pages/_app.tsx"),
        other => panic!("unexpected {:?}", other),
    }
}

#[test]
fn alternatives_fall_through_and_exhaust() {
    let chain = ImportMapping::Alternatives(vec![
        Target::Direct { request: "./a".to_string(), base: "/b".to_string() },
        Target::Direct { request: "./c".to_string(), base: "/b".to_string() },
    ]);
    match chain.next_step("s", "/ctx", &vec![None]) {
        Step::Probe { request, .. } => assert_eq!(request, "./c"),
        other => panic!("unexpected {:?}", other),
    }
    match chain.next_step("s", "/ctx", &vec![None, Some("/b/c.js".to_string())]) {
        Step::Done(ResolvedAnswer::ResolvedTo(s)) => assert_eq!(s, "/b/c.js"),
        other => panic!("unexpected {:?}", other),
    }
    assert!(matches!(chain.next_step("s", "/ctx", &vec![None, None]), Step::Done(ResolvedAnswer::Unresolved)));
    let with_external = ImportMapping::Alternatives(vec![
        Target::Direct { request: "./_app".to_string(), base: "/b".to_string() },
        Target::External(Some("next/app".to_string())),
    ]);
    match with_external.next_step("s", "/ctx", &vec![None]) {
        Step::Done(ResolvedAnswer::External(n)) => assert_eq!(n, "next/app"),
        other => panic!("unexpected {:?}", other),
    }
}

#[test]
fn direct_external_and_dynamic_steps() {
    let d = direct_mapping("./x", "/base");
    match d.next_step("s", "/ctx", &vec![]) {
        Step::Probe { base, request } => assert_eq!((base.as_str(), request.as_str()), ("/base", "./x")),
        other => panic!("unexpected {:?}", other),
    }
    assert!(matches!(d.next_step("s", "/ctx", &vec![None]), Step::Done(ResolvedAnswer::Unresolved)));
    match ImportMapping::External(None).next_step("styled-jsx/css", "/ctx", &vec![]) {
        Step::Done(ResolvedAnswer::External(n)) => assert_eq!(n, "styled-jsx/css"),
        other => panic!("unexpected {:?}", other),
    }
    match ImportMapping::Dynamic(HandlerKind::FontGoogle).next_step("next/font/google/target.css", "/ctx", &vec![]) {
        Step::Done(ResolvedAnswer::DeferToHandler { handler, specifier, context }) => {
            assert_eq!(handler, HandlerKind::FontGoogle);
            assert_eq!(specifier, "next/font/google/target.css");
            assert_eq!(context, "/ctx");
        }
        other => panic!("unexpected {:?}", other),
    }
}

#[test]
fn safety_alias_survives_user_alias() {
    let aliases = vec![user_alias(AliasPattern::Wildcard("@vercel/turbopack-next/".to_string()), &[("./hijack/*", None)])];
    let ty = ClientContextType::Pages { pages_dir: "/project/pages".to_string() };
    let t = get_next_client_import_map(PROJECT, &ty, NextMode::Build, &config(false, aliases), &found()).unwrap();
    assert_eq!(
        direct(&looked_up(&t, "@vercel/turbopack-next/internal/x")),
        ("./internal/x".to_string(), NEXT_EMBED_ROOT.to_string())
    );
}

#[test]
fn singleton_resolves_to_one_root() {
    let ty = ClientContextType::Pages { pages_dir: "/project/pages".to_string() };
    let t = get_next_client_import_map(PROJECT, &ty, NextMode::Development, &config(false, vec![]), &found()).unwrap();
    let m = looked_up(&t, "styled-jsx");
    let first = m.next_step("styled-jsx", "/project/pages/a", &vec![]);
    let second = m.next_step("styled-jsx", "/project/other/b", &vec![]);
    match (first, second) {
        (Step::Done(ResolvedAnswer::ResolvedTo(a)), Step::Done(ResolvedAnswer::ResolvedTo(b))) => {
            assert_eq!(a, NEXT_PACKAGE);
            assert_eq!(b, NEXT_PACKAGE);
        }
        other => panic!("unexpected {:?}", other),
    }
}

#[test]
fn edge_app_without_server_actions_uses_standard_build() {
    let ty = ServerContextType::AppSSR { app_dir: "/project/app".to_string() };
    let t = get_next_edge_import_map(PROJECT, &ty, NextMode::Build, &config(false, vec![]), &found()).unwrap();
    assert_eq!(direct(&looked_up(&t, "react")), ("next/dist/compiled/react".to_string(), "/project/app".to_string()));
    assert_eq!(direct(&looked_up(&t, "react/jsx-runtime")).0, "next/dist/compiled/react/jsx-runtime");
}

#[test]
fn edge_app_with_server_actions_uses_experimental_build() {
    let ty = ServerContextType::AppRSC { app_dir: "/project/app".to_string() };
    let t = get_next_edge_import_map(PROJECT, &ty, NextMode::Build, &config(true, vec![]), &found()).unwrap();
    assert_eq!(direct(&looked_up(&t, "react")).0, "next/dist/compiled/react-experimental");
    assert_eq!(
        direct(&looked_up(&t, "react-server-dom-webpack/server.edge")).0,
        "next/dist/compiled/react-server-dom-turbopack-experimental/server.edge"
    );
}

#[test]
fn node_app_uses_vendored_build_per_phase() {
    let rsc = ServerContextType::AppRSC { app_dir: "/project/app".to_string() };
    let t = get_next_server_import_map(PROJECT, &rsc, NextMode::Build, &config(true, vec![]), &found()).unwrap();
    assert_eq!(direct(&looked_up(&t, "react")).0, "next/dist/server/future/route-modules/app-page/vendored/rsc/react");
    assert_eq!(
        direct(&looked_up(&t, "react-dom/server.edge")).0,
        "next/dist/server/future/route-modules/app-page/vendored/ssr/react-dom-server-edge"
    );
    let ssr = ServerContextType::AppSSR { app_dir: "/project/app".to_string() };
    let u = get_next_server_import_map(PROJECT, &ssr, NextMode::Build, &config(false, vec![]), &found()).unwrap();
    assert_eq!(
        direct(&looked_up(&u, "react-dom")).0,
        "next/dist/server/future/route-modules/app-page/vendored/ssr/react-dom"
    );
}

#[test]
fn user_alias_overrides_framework_default() {
    let aliases = vec![user_alias(AliasPattern::Exact("react".to_string()), &[("./vendor/my-react", None)])];
    let ty = ClientContextType::Pages { pages_dir: "/project/pages".to_string() };
    let t = get_next_client_import_map(PROJECT, &ty, NextMode::Build, &config(false, aliases), &found()).unwrap();
    assert_eq!(direct(&looked_up(&t, "react")), ("./vendor/my-react".to_string(), PROJECT.to_string()));
}

#[test]
fn user_alias_conditions_follow_the_context() {
    let aliases = vec![user_alias(
        AliasPattern::Exact("fs-shim".to_string()),
        &[("./browser-fs", Some("browser")), ("./node-fs", None)],
    )];
    let ty = ClientContextType::Pages { pages_dir: "/project/pages".to_string() };
    let client = get_next_client_import_map(PROJECT, &ty, NextMode::Build, &config(false, aliases.clone()), &found()).unwrap();
    match looked_up(&client, "fs-shim") {
        ImportMapping::Alternatives(ts) => assert_eq!(ts.len(), 2),
        other => panic!("unexpected {:?}", other),
    }
    let sty = ServerContextType::Pages { pages_dir: "/project/pages".to_string() };
    let server = get_next_server_import_map(PROJECT, &sty, NextMode::Build, &config(false, aliases), &found()).unwrap();
    assert_eq!(direct(&looked_up(&server, "fs-shim")).0, "./node-fs");
}

#[test]
fn alias_without_active_target_is_skipped() {
    let mut t = ImportMap::empty();
    let aliases = vec![user_alias(AliasPattern::Exact("only-edge".to_string()), &[("./e", Some("edge-light"))])];
    insert_alias_option(&mut t, PROJECT, &aliases, &vec!["browser".to_string()]);
    assert!(t.lookup("only-edge").is_none());
}

#[test]
fn missing_next_package_is_fatal() {
    let cty = ClientContextType::Other;
    let sty = ServerContextType::Middleware;
    let c = config(false, vec![]);
    assert!(matches!(
        get_next_client_import_map(PROJECT, &cty, NextMode::Build, &c, &None),
        Err(ImportMapError::NextPackageNotFound)
    ));
    assert!(matches!(
        get_next_server_import_map(PROJECT, &sty, NextMode::Build, &c, &None),
        Err(ImportMapError::NextPackageNotFound)
    ));
    assert!(matches!(
        get_next_edge_import_map(PROJECT, &sty, NextMode::Build, &c, &None),
        Err(ImportMapError::NextPackageNotFound)
    ));
}

#[test]
fn next_package_is_the_directory_of_package_json() {
    assert_eq!(get_next_package(&found()), Ok(NEXT_PACKAGE.to_string()));
    assert_eq!(get_next_package(&Some("package.json".to_string())), Ok(String::new()));
    assert_eq!(get_next_package(&None), Err(ImportMapError::NextPackageNotFound));
}

#[test]
fn mdx_source_is_a_virtual_module() {
    assert_eq!(mdx_import_source_file(), "@vercel/turbopack-next/mdx-import-source");
    let mut c = config(false, vec![]);
    c.mdx_rs = true;
    let t = get_next_client_import_map(PROJECT, &ClientContextType::Other, NextMode::Build, &c, &found()).unwrap();
    match looked_up(&t, "@vercel/turbopack-next/mdx-import-source") {
        ImportMapping::Alternatives(ts) => assert_eq!(ts.len(), 3),
        other => panic!("unexpected {:?}", other),
    }
}

#[test]
fn overlay_hook_replaced_outside_development() {
    let c = config(false, vec![]);
    let key = "next/dist/compiled/@next/react-dev-overlay/dist/client";
    let build = get_next_client_import_map(PROJECT, &ClientContextType::Other, NextMode::Build, &c, &found()).unwrap();
    assert_eq!(direct(&looked_up(&build, key)), ("./overlay/client.ts".to_string(), NEXT_EMBED_ROOT.to_string()));
    let dev = get_next_client_import_map(PROJECT, &ClientContextType::Other, NextMode::Development, &c, &found()).unwrap();
    match dev.lookup(key) {
        Some((AliasPattern::Wildcard(k), m)) => {
            assert_eq!(k, "next/");
            assert_eq!(direct(&m), (key.to_string(), PROJECT.to_string()));
        }
        other => panic!("unexpected {:?}", other),
    }
}

#[test]
fn client_polyfills_and_server_only() {
    let ty = ClientContextType::Pages { pages_dir: "/project/pages".to_string() };
    let t = get_next_client_import_map(PROJECT, &ty, NextMode::Build, &config(false, vec![]), &found()).unwrap();
    assert_eq!(direct(&looked_up(&t, "node:crypto")).0, "next/dist/compiled/crypto-browserify");
    assert_eq!(direct(&looked_up(&t, "server-only")).0, "next/dist/compiled/server-only/index");
    assert_eq!(direct(&looked_up(&t, "url")).0, "next/dist/compiled/native-url");
    let other = get_next_client_import_map(PROJECT, &ClientContextType::Other, NextMode::Build, &config(false, vec![]), &found()).unwrap();
    assert!(other.lookup("node:crypto").is_none());
}

#[test]
fn middleware_allows_client_only() {
    let t = get_next_server_import_map(PROJECT, &ServerContextType::Middleware, NextMode::Build, &config(false, vec![]), &found())
        .unwrap();
    assert_eq!(direct(&looked_up(&t, "client-only")).0, "next/dist/compiled/client-only/index");
    assert_eq!(direct(&looked_up(&t, "server-only")).0, "next/dist/compiled/server-only/empty");
    let rsc = ServerContextType::AppRSC { app_dir: "/project/app".to_string() };
    let u = get_next_server_import_map(PROJECT, &rsc, NextMode::Build, &config(false, vec![]), &found()).unwrap();
    assert_eq!(direct(&looked_up(&u, "client-only")).0, "next/dist/compiled/client-only/error");
}

#[test]
fn node_pages_leave_react_and_fallback_to_host() {
    let ty = ServerContextType::Pages { pages_dir: "/project/pages".to_string() };
    let t = get_next_server_import_map(PROJECT, &ty, NextMode::Build, &config(false, vec![]), &found()).unwrap();
    assert!(matches!(looked_up(&t, "react-dom/server"), ImportMapping::External(None)));
    match looked_up(&t, "@vercel/turbopack-next/pages/_document") {
        ImportMapping::Alternatives(ts) => {
            assert_eq!(ts.len(), 2);
            assert!(matches!(&ts[1], Target::External(Some(n)) if n == "next/document"));
        }
        other => panic!("unexpected {:?}", other),
    }
    assert!(matches!(looked_up(&t, "@vercel/og"), ImportMapping::External(Some(_))));
}

#[test]
fn build_table_leaves_framework_external() {
    let t = get_next_build_import_map();
    assert!(matches!(looked_up(&t, "next/link"), ImportMapping::External(None)));
    assert!(matches!(looked_up(&t, "styled-jsx"), ImportMapping::External(None)));
    assert_eq!(direct(&looked_up(&t, "@vercel/turbopack-next/x.js")), ("./x.js".to_string(), NEXT_EMBED_ROOT.to_string()));
    assert!(t.lookup("react").is_none());
}

#[test]
fn fallback_table_holds_bare_polyfills() {
    let t = get_next_client_fallback_import_map(&ClientContextType::App { app_dir: "/project/app".to_string() });
    assert_eq!(direct(&looked_up(&t, "zlib")), ("next/dist/compiled/browserify-zlib".to_string(), "/project/app".to_string()));
    assert_eq!(direct(&looked_up(&t, "setImmediate")).0, "next/dist/compiled/setimmediate");
    let f = get_next_client_fallback_import_map(&ClientContextType::Fallback);
    assert!(f.lookup("zlib").is_none());
    assert_eq!(direct(&looked_up(&f, "@vercel/turbopack-ecmascript-runtime/dev.js")).1, RUNTIME_EMBED_ROOT);
}

#[test]
fn resolved_map_only_outside_development() {
    assert!(get_next_client_resolved_map("/", "/project", NextMode::Development).by_glob.is_empty());
    let r = get_next_client_resolved_map("/", "/project", NextMode::Build);
    assert_eq!(r.by_glob.len(), 1);
    assert_eq!(r.by_glob[0].glob, "**/next/dist/client/components/react-dev-overlay/hot-reloader-client.js");
    assert_eq!(direct(&r.by_glob[0].mapping), ("@vercel/turbopack-next/dev/hot-reloader.tsx".to_string(), "/project".to_string()));
}

#[test]
fn selection_matrix_values() {
    let e = |entry, rt, sa, ph| select_runtime_request(entry, rt, sa, ph);
    assert_eq!(e(RuntimeEntry::ReactDom, NextRuntime::Edge, false, Phase::Ssr), "next/dist/compiled/react-dom");
    assert_eq!(
        e(RuntimeEntry::JsxDevRuntime, NextRuntime::Edge, true, Phase::Rsc),
        "next/dist/compiled/react-experimental/jsx-dev-runtime"
    );
    assert_eq!(
        e(RuntimeEntry::ServerDomServerNode, NextRuntime::NodeJs, true, Phase::Rsc),
        "next/dist/server/future/route-modules/app-page/vendored/rsc/react-server-dom-turbopack-server-node"
    );
    assert_eq!(
        e(RuntimeEntry::ServerDomServerNode, NextRuntime::NodeJs, false, Phase::Rsc),
        e(RuntimeEntry::ServerDomServerNode, NextRuntime::NodeJs, true, Phase::Rsc)
    );
}

#[test]
fn resolve_step_through_the_table() {
    let ty = ClientContextType::Pages { pages_dir: "/project/pages".to_string() };
    let t = get_next_client_import_map(PROJECT, &ty, NextMode::Build, &config(false, vec![]), &found()).unwrap();
    assert!(matches!(t.resolve_step("left-pad", "/project/pages", &vec![]), Step::Done(ResolvedAnswer::NoMatch)));
    match t.resolve_step("@vercel/turbopack-next/pages/_app", "/project/pages", &vec![]) {
        Step::Probe { base, request } => {
            assert_eq!(base, "/project/pages");
            assert_eq!(request, "./_app");
        }
        other => panic!("unexpected {:?}", other),
    }
    match t.resolve_step("@vercel/turbopack-next/pages/_app", "/project/pages", &vec![None]) {
        Step::Probe { request, .. } => assert_eq!(request, "next/app"),
        other => panic!("unexpected {:?}", other),
    }
    match t.resolve_step("next/dist/client/link", "/project/pages", &vec![Some("/n/link.js".to_string())]) {
        Step::Done(ResolvedAnswer::ResolvedTo(s)) => assert_eq!(s, "/n/link.js"),
        other => panic!("unexpected {:?}", other),
    }
}
