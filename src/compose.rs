use vstd::prelude::*;
use vstd::string::*;
use crate::config::{conditions_view, user_rules, user_rules_of, NextConfig};
use crate::layers::{
    apply, empty_table, exact, external_request_to_import_mapping, lemma_apply_concat,
    package_alias, package_mapping_of, request_to_import_mapping, rules_view, runtime_prefix,
    safety_rules, safety_rules_of, table_of, virtual_package_prefix, virtual_prefix, wildcard,
    NextMode, Rule, RuleModel, NEXT_EMBED_ROOT, RUNTIME_EMBED_ROOT,
    VIRTUAL_PACKAGE_NAME,
};
use crate::mapping::{ImportMapping, MappingModel};
use crate::matrix::{compiled, compiled_of, NextRuntime};
use crate::polyfills::{polyfill_rules, polyfill_rules_of};
use crate::defaults::{
    action_pairs, action_pairs_of, app_styled_jsx_rules, app_styled_jsx_rules_of, edge_esm_pairs,
    edge_esm_pairs_of, edge_public_pairs, edge_public_pairs_of, extend, flavored_server_dom_rules,
    flavored_server_dom_rules_of, head_dynamic_rules, head_dynamic_rules_of, insert_next_shared_aliases,
    insert_optimized_module_aliases, optimized_pairs_of, page_files_rules, page_files_rules_of, pages_external_rules,
    pages_external_rules_of, pair_rules, pair_rules_of, shared_rules_of,
};
use crate::runtime_layer::{matrix_rules, matrix_rules_of, rsc_keys, rsc_keys_of, ssr_keys, ssr_keys_of};
use crate::table::{ImportMap, PatternModel, TableModel};

verus! {

/// The kind of client bundle a table is built for.
#[derive(Clone, Debug)]
pub enum ClientContextType {
    Pages { pages_dir: String },
    App { app_dir: String },
    Fallback,
    Other,
}

/// The kind of server bundle a table is built for.
#[derive(Clone, Debug)]
pub enum ServerContextType {
    Pages { pages_dir: String },
    PagesData { pages_dir: String },
    AppSSR { app_dir: String },
    AppRSC { app_dir: String },
    AppRoute { app_dir: String },
    Middleware,
}

/// Why a table could not be built.
#[derive(PartialEq, Eq, Structural, Clone, Copy, Debug)]
pub enum ImportMapError {
    /// The framework's own package could not be located from the project.
    NextPackageNotFound,
}

/// The table of a layer context: its defaults, then the user's aliases, then the
/// aliases that no user alias may replace.
pub open spec fn composed_of(defaults: Seq<RuleModel>, user: Seq<RuleModel>, mode: NextMode) -> TableModel {
    table_of(defaults + user + safety_rules_of(mode))
}

/// Builds a table from its layers, in order.
pub fn compose(defaults: Vec<Rule>, user: Vec<Rule>, mode: NextMode) -> (r: ImportMap)
    ensures
        r@ == composed_of(rules_view(defaults@), rules_view(user@), mode),
{
    let ghost d = rules_view(defaults@);
    let ghost u = rules_view(user@);
    let mut t = ImportMap::empty();
    apply(&mut t, defaults);
    apply(&mut t, user);
    let safety = safety_rules(mode);
    apply(&mut t, safety);
    proof {
        lemma_apply_concat(empty_table(), d, u);
        lemma_apply_concat(empty_table(), d + u, safety_rules_of(mode));
    }
    t
}

/// The directory that holds the file at `p`: what precedes its last `/`.
pub open spec fn parent_of(p: Seq<char>) -> Seq<char>
    decreases p.len(),
{
    if p.len() == 0 {
        p
    } else if p.last() == '/' {
        p.drop_last()
    } else {
        parent_of(p.drop_last())
    }
}

/// The root of the framework's package, given where the resolution oracle found its
/// `next/package.json` from the project (`None`: not found).
pub fn get_next_package(package_json: &Option<String>) -> (r: Result<String, ImportMapError>)
    ensures
        package_json is None ==> r == Err::<String, ImportMapError>(ImportMapError::NextPackageNotFound),
        package_json is Some ==> r is Ok && r->Ok_0@ == parent_of(package_json->Some_0@),
{
    match package_json {
        None => Err(ImportMapError::NextPackageNotFound),
        Some(p) => {
            let s = p.as_str();
            let mut i: usize = s.unicode_len();
            proof {
                assert(s@.subrange(0, i as int) =~= s@);
            }
            while i > 0
                invariant
                    package_json is Some,
                    s@ == package_json->Some_0@,
                    i <= s@.len(),
                    parent_of(s@) == parent_of(s@.subrange(0, i as int)),
                decreases i,
            {
                proof {
                    assert(s@.subrange(0, i as int).drop_last() =~= s@.subrange(0, i - 1));
                }
                if s.get_char(i - 1) == '/' {
                    return Ok(s.substring_char(0, i - 1).to_owned());
                }
                i = i - 1;
            }
            proof {
                assert(s@.subrange(0, 0) =~= Seq::<char>::empty());
            }
            Ok(String::new())
        },
    }
}

/// The virtual module that MDX pages import their components from.
pub fn mdx_import_source_file() -> (r: String)
    ensures
        r@ == VIRTUAL_PACKAGE_NAME@ + "/mdx-import-source"@,
{
    let mut s = String::from_str(VIRTUAL_PACKAGE_NAME);
    s.append("/mdx-import-source");
    s
}

/// Appends the alias of the bundler's embedded runtime helpers.
fn insert_turbopack_dev_alias(rules: &mut Vec<Rule>)
    ensures
        final(rules)@.len() == old(rules)@.len() + 1,
        forall|j: int| 0 <= j < old(rules)@.len() ==> final(rules)@[j] == old(rules)@[j],
        final(rules)@.last().0@ == PatternModel::Wildcard(runtime_prefix()),
        final(rules)@.last().1@ == package_mapping_of(RUNTIME_EMBED_ROOT@),
{
    rules.push(package_alias("@vercel/turbopack-ecmascript-runtime/", RUNTIME_EMBED_ROOT));
}

/// The matrix-selected layer of a server context: the app router's layers only.
pub open spec fn server_runtime_rules_of(ty: ServerContextType, runtime: NextRuntime, server_actions: bool) -> Seq<RuleModel> {
    match ty {
        ServerContextType::AppSSR { app_dir } => matrix_rules_of(ssr_keys_of(), app_dir@, runtime, server_actions),
        ServerContextType::AppRSC { app_dir } => matrix_rules_of(rsc_keys_of(), app_dir@, runtime, server_actions),
        ServerContextType::AppRoute { app_dir } => matrix_rules_of(rsc_keys_of(), app_dir@, runtime, server_actions),
        _ => Seq::empty(),
    }
}

pub fn server_runtime_rules(ty: &ServerContextType, runtime: NextRuntime, server_actions: bool) -> (r: Vec<Rule>)
    ensures
        rules_view(r@) == server_runtime_rules_of(*ty, runtime, server_actions),
{
    match ty {
        ServerContextType::AppSSR { app_dir } => matrix_rules(&ssr_keys(), app_dir.as_str(), runtime, server_actions),
        ServerContextType::AppRSC { app_dir } => matrix_rules(&rsc_keys(), app_dir.as_str(), runtime, server_actions),
        ServerContextType::AppRoute { app_dir } => matrix_rules(&rsc_keys(), app_dir.as_str(), runtime, server_actions),
        _ => {
            let r: Vec<Rule> = Vec::new();
            proof {
                assert(rules_view(r@) =~= Seq::<RuleModel>::empty());
            }
            r
        },
    }
}

pub open spec fn external_if_node_of(runtime: NextRuntime, base: Seq<char>, request: Seq<char>) -> MappingModel {
    match runtime {
        NextRuntime::Edge => MappingModel::Direct { request, base },
        NextRuntime::NodeJs => MappingModel::External(Some(request)),
    }
}

/// On Node.js the host provides `request`; on Edge it is bundled from `base`.
fn external_if_node(runtime: NextRuntime, base: &str, request: &str) -> (r: ImportMapping)
    ensures
        r@ == external_if_node_of(runtime, base@, request@),
{
    match runtime {
        NextRuntime::Edge => request_to_import_mapping(base, request),
        NextRuntime::NodeJs => external_request_to_import_mapping(request),
    }
}

/// The guard modules of a server context: both load on the pages router and on the app
/// router's server-rendering layer; elsewhere `server-only` is empty and `client-only` fails,
/// except that middleware lets `client-only` load too. Then `@vercel/og`, left to the host on
/// Node.js.
pub open spec fn server_guard_rules_of(ty: ServerContextType, project: Seq<char>, runtime: NextRuntime) -> Seq<RuleModel> {
    let guards = match ty {
        ServerContextType::Pages { .. } | ServerContextType::PagesData { .. } | ServerContextType::AppSSR { .. } =>
            server_only_rules_of(project, "next/dist/compiled/server-only/index"@, "next/dist/compiled/client-only/index"@),
        _ => server_only_rules_of(project, "next/dist/compiled/server-only/empty"@, "next/dist/compiled/client-only/error"@),
    };
    let middleware = if ty is Middleware {
        seq![
            (PatternModel::Exact("client-only"@), MappingModel::Direct { request: "next/dist/compiled/client-only/index"@, base: project }),
            (
                PatternModel::Exact("next/dist/compiled/client-only"@),
                MappingModel::Direct { request: "next/dist/compiled/client-only/index"@, base: project },
            ),
            (
                PatternModel::Exact("next/dist/compiled/client-only/error"@),
                MappingModel::Direct { request: "next/dist/compiled/client-only/index"@, base: project },
            ),
        ]
    } else {
        Seq::empty()
    };
    guards + middleware + seq![
        (
            PatternModel::Exact("@vercel/og"@),
            external_if_node_of(runtime, project, "next/dist/server/web/spec-extension/image-response"@),
        ),
    ]
}

fn server_guard_rules(ty: &ServerContextType, project_path: &str, runtime: NextRuntime) -> (r: Vec<Rule>)
    ensures
        rules_view(r@) == server_guard_rules_of(*ty, project_path@, runtime),
{
    let mut r = match ty {
        ServerContextType::Pages { .. } | ServerContextType::PagesData { .. } | ServerContextType::AppSSR { .. } =>
            server_only_rules(project_path, "next/dist/compiled/server-only/index", "next/dist/compiled/client-only/index"),
        _ => server_only_rules(project_path, "next/dist/compiled/server-only/empty", "next/dist/compiled/client-only/error"),
    };
    let ghost guards = rules_view(r@);
    match ty {
        ServerContextType::Middleware => {
            // client-only code that middleware bundles but never runs must not fail the build
            r.push(exact("client-only", request_to_import_mapping(project_path, "next/dist/compiled/client-only/index")));
            r.push(
                exact(
                    "next/dist/compiled/client-only",
                    request_to_import_mapping(project_path, "next/dist/compiled/client-only/index"),
                ),
            );
            r.push(
                exact(
                    "next/dist/compiled/client-only/error",
                    request_to_import_mapping(project_path, "next/dist/compiled/client-only/index"),
                ),
            );
        },
        _ => {},
    }
    let ghost with_middleware = rules_view(r@);
    r.push(
        exact(
            "@vercel/og",
            external_if_node(runtime, project_path, "next/dist/server/web/spec-extension/image-response"),
        ),
    );
    proof {
        if ty is Middleware {
            assert(with_middleware =~= guards + server_guard_rules_of(*ty, project_path@, runtime).subrange(4, 7));
        } else {
            assert(with_middleware =~= guards);
        }
        assert(rules_view(r@) =~= server_guard_rules_of(*ty, project_path@, runtime));
    }
    r
}

pub open spec fn client_react_rules_of(app_dir: Seq<char>, server_actions: bool) -> Seq<RuleModel> {
    seq![
        (PatternModel::Exact("react"@), MappingModel::Direct { request: compiled_of("react"@, server_actions), base: app_dir }),
        (
            PatternModel::Wildcard("react/"@),
            MappingModel::Direct { request: compiled_of("react"@, server_actions) + "/*"@, base: app_dir },
        ),
        (
            PatternModel::Exact("react-dom"@),
            MappingModel::Direct { request: compiled_of("react-dom"@, server_actions), base: app_dir },
        ),
        (
            PatternModel::Wildcard("react-dom/"@),
            MappingModel::Direct { request: compiled_of("react-dom"@, server_actions) + "/*"@, base: app_dir },
        ),
        (
            PatternModel::Wildcard("react-server-dom-webpack/"@),
            MappingModel::Direct { request: "react-server-dom-turbopack/*"@, base: app_dir },
        ),
        (
            PatternModel::Wildcard("react-server-dom-turbopack/"@),
            MappingModel::Direct {
                request: compiled_of("react-server-dom-turbopack"@, server_actions) + "/*"@,
                base: app_dir,
            },
        ),
    ]
}

fn compiled_subpaths(package: &str, server_actions: bool) -> (r: String)
    ensures
        r@ == compiled_of(package@, server_actions) + "/*"@,
{
    let mut s = compiled(package, server_actions);
    s.append("/*");
    s
}

/// The app router's client build of the UI runtime, its DOM renderer and its streaming
/// client, experimental where server actions are on.
fn client_react_rules(app_dir: &str, server_actions: bool) -> (r: Vec<Rule>)
    ensures
        rules_view(r@) == client_react_rules_of(app_dir@, server_actions),
{
    let mut r: Vec<Rule> = Vec::new();
    r.push(exact("react", request_to_import_mapping(app_dir, compiled("react", server_actions).as_str())));
    r.push(wildcard("react/", request_to_import_mapping(app_dir, compiled_subpaths("react", server_actions).as_str())));
    r.push(exact("react-dom", request_to_import_mapping(app_dir, compiled("react-dom", server_actions).as_str())));
    r.push(
        wildcard("react-dom/", request_to_import_mapping(app_dir, compiled_subpaths("react-dom", server_actions).as_str())),
    );
    r.push(wildcard("react-server-dom-webpack/", request_to_import_mapping(app_dir, "react-server-dom-turbopack/*")));
    r.push(
        wildcard(
            "react-server-dom-turbopack/",
            request_to_import_mapping(app_dir, compiled_subpaths("react-server-dom-turbopack", server_actions).as_str()),
        ),
    );
    proof {
        assert(rules_view(r@) =~= client_react_rules_of(app_dir@, server_actions));
    }
    r
}

pub open spec fn server_only_rules_of(base: Seq<char>, server_only: Seq<char>, client_only: Seq<char>) -> Seq<RuleModel> {
    seq![
        (PatternModel::Exact("server-only"@), MappingModel::Direct { request: server_only, base }),
        (PatternModel::Exact("client-only"@), MappingModel::Direct { request: client_only, base }),
        (PatternModel::Exact("next/dist/compiled/server-only"@), MappingModel::Direct { request: server_only, base }),
        (PatternModel::Exact("next/dist/compiled/client-only"@), MappingModel::Direct { request: client_only, base }),
    ]
}

/// The modules that guard code against running on the wrong side, under both their names.
fn server_only_rules(base: &str, server_only: &str, client_only: &str) -> (r: Vec<Rule>)
    ensures
        rules_view(r@) == server_only_rules_of(base@, server_only@, client_only@),
{
    let mut r: Vec<Rule> = Vec::new();
    r.push(exact("server-only", request_to_import_mapping(base, server_only)));
    r.push(exact("client-only", request_to_import_mapping(base, client_only)));
    r.push(exact("next/dist/compiled/server-only", request_to_import_mapping(base, server_only)));
    r.push(exact("next/dist/compiled/client-only", request_to_import_mapping(base, client_only)));
    proof {
        assert(rules_view(r@) =~= server_only_rules_of(base@, server_only@, client_only@));
    }
    r
}

pub open spec fn runtime_alias_of() -> RuleModel {
    (PatternModel::Wildcard(runtime_prefix()), package_mapping_of(RUNTIME_EMBED_ROOT@))
}

/// The last defaults of a client table: the app router's UI runtime, the guard modules, the
/// `node:` built-ins (but for `Other`) and the bundler's runtime helpers.
pub open spec fn client_tail_of(ty: ClientContextType, project: Seq<char>, server_actions: bool) -> Seq<RuleModel> {
    let react = match ty {
        ClientContextType::App { app_dir } => client_react_rules_of(app_dir@, server_actions),
        _ => Seq::empty(),
    };
    let polyfills = if ty is Other {
        Seq::empty()
    } else {
        polyfill_rules_of("node:"@, project)
    };
    react + server_only_rules_of(
        project,
        "next/dist/compiled/server-only/index"@,
        "next/dist/compiled/client-only/index"@,
    ) + polyfills + seq![runtime_alias_of()]
}

fn client_tail(ty: &ClientContextType, project_path: &str, server_actions: bool) -> (r: Vec<Rule>)
    ensures
        rules_view(r@) == client_tail_of(*ty, project_path@, server_actions),
{
    let mut r: Vec<Rule> = match ty {
        ClientContextType::App { app_dir } => client_react_rules(app_dir.as_str(), server_actions),
        _ => Vec::new(),
    };
    let ghost react = rules_view(r@);
    let guards = server_only_rules(
        project_path,
        "next/dist/compiled/server-only/index",
        "next/dist/compiled/client-only/index",
    );
    let ghost gv = rules_view(guards@);
    extend(&mut r, guards);
    let ghost with_guards = r@;
    let polyfills = match ty {
        ClientContextType::Other => Vec::new(),
        _ => polyfill_rules("node:", project_path),
    };
    let ghost pv = rules_view(polyfills@);
    extend(&mut r, polyfills);
    let ghost with_polyfills = r@;
    insert_turbopack_dev_alias(&mut r);
    proof {
        assert(rules_view(with_guards) =~= react + gv);
        assert(rules_view(with_polyfills) =~= rules_view(with_guards) + pv);
        assert(rules_view(r@) =~= rules_view(with_polyfills) + seq![runtime_alias_of()]);
        assert(rules_view(r@) =~= client_tail_of(*ty, project_path@, server_actions));
    }
    r
}

fn browser_conditions() -> (r: Vec<String>)
    ensures
        conditions_view(r@) == seq!["browser"@],
{
    let r = vec![String::from_str("browser")];
    proof {
        assert(conditions_view(r@) =~= seq!["browser"@]);
    }
    r
}

fn no_conditions() -> (r: Vec<String>)
    ensures
        conditions_view(r@) == Seq::<Seq<char>>::empty(),
{
    let r: Vec<String> = Vec::new();
    proof {
        assert(conditions_view(r@) =~= Seq::<Seq<char>>::empty());
    }
    r
}

/// The defaults of a client table, in order: the shared layer, the module stubs, the routing
/// layer and the client tail.
pub open spec fn client_defaults_of(
    project: Seq<char>,
    ty: ClientContextType,
    mode: NextMode,
    mdx: bool,
    server_actions: bool,
    next_package: Seq<char>,
) -> Seq<RuleModel> {
    let routing = match ty {
        ClientContextType::Pages { pages_dir } => page_files_rules_of(pages_dir@, false),
        ClientContextType::App { .. } => head_dynamic_rules_of(project),
        _ => Seq::empty(),
    };
    shared_rules_of(project, next_package, mode, mdx) + pair_rules_of(true, project, optimized_pairs_of()) + routing
        + client_tail_of(ty, project, server_actions)
}

/// The aliases of a server context that hold on Node.js and Edge alike, before the special ones.
pub open spec fn server_routing_of(ty: ServerContextType, project: Seq<char>, server_actions: bool) -> Seq<RuleModel> {
    match ty {
        ServerContextType::Pages { .. } | ServerContextType::PagesData { .. } => pages_external_rules_of(),
        ServerContextType::Middleware => Seq::empty(),
        _ => pair_rules_of(true, project, action_pairs_of()) + head_dynamic_rules_of(project)
            + flavored_server_dom_rules_of(project, server_actions),
    }
}

/// The app router's aliases of an Edge context, before the special ones.
pub open spec fn edge_routing_of(ty: ServerContextType, project: Seq<char>, server_actions: bool) -> Seq<RuleModel> {
    match ty {
        ServerContextType::AppSSR { .. } | ServerContextType::AppRSC { .. } | ServerContextType::AppRoute { .. } =>
            head_dynamic_rules_of(project) + flavored_server_dom_rules_of(project, server_actions),
        _ => Seq::empty(),
    }
}

/// The special aliases of a server context before its guard modules: the pages router's
/// telemetry API and special files, the app router's telemetry API and `styled-jsx`.
pub open spec fn special_rules_of(ty: ServerContextType, runtime: NextRuntime, next_package: Seq<char>) -> Seq<RuleModel> {
    match ty {
        ServerContextType::Pages { pages_dir } => seq![
            (
                PatternModel::Exact("@opentelemetry/api"@),
                external_if_node_of(runtime, pages_dir@, "next/dist/compiled/@opentelemetry/api"@),
            ),
        ] + page_files_rules_of(pages_dir@, runtime == NextRuntime::NodeJs),
        ServerContextType::AppSSR { app_dir } => app_styled_jsx_rules_of(app_dir@, next_package),
        ServerContextType::AppRSC { app_dir } => app_styled_jsx_rules_of(app_dir@, next_package),
        ServerContextType::AppRoute { app_dir } => app_styled_jsx_rules_of(app_dir@, next_package),
        _ => Seq::empty(),
    }
}

/// The special aliases, the guard modules and the matrix layer of a server context.
pub open spec fn server_tail_of(
    ty: ServerContextType,
    project: Seq<char>,
    runtime: NextRuntime,
    server_actions: bool,
    next_package: Seq<char>,
) -> Seq<RuleModel> {
    special_rules_of(ty, runtime, next_package) + server_guard_rules_of(ty, project, runtime) + server_runtime_rules_of(
        ty,
        runtime,
        server_actions,
    )
}

pub open spec fn require_hook_rule_of() -> RuleModel {
    (PatternModel::Exact("next/dist/server/require-hook"@), MappingModel::External(None))
}

/// The defaults of a Node.js server table, in order.
pub open spec fn server_defaults_of(
    project: Seq<char>,
    ty: ServerContextType,
    mode: NextMode,
    mdx: bool,
    server_actions: bool,
    next_package: Seq<char>,
) -> Seq<RuleModel> {
    shared_rules_of(project, next_package, mode, mdx) + seq![require_hook_rule_of()] + server_routing_of(
        ty,
        project,
        server_actions,
    ) + server_tail_of(ty, project, NextRuntime::NodeJs, server_actions, next_package)
}

/// The defaults of an Edge server table, in order.
pub open spec fn edge_defaults_of(
    project: Seq<char>,
    ty: ServerContextType,
    mode: NextMode,
    mdx: bool,
    server_actions: bool,
    next_package: Seq<char>,
) -> Seq<RuleModel> {
    pair_rules_of(false, project, edge_esm_pairs_of()) + pair_rules_of(true, project, edge_public_pairs_of())
        + shared_rules_of(project, next_package, mode, mdx) + pair_rules_of(true, project, optimized_pairs_of())
        + edge_routing_of(ty, project, server_actions) + server_tail_of(
        ty,
        project,
        NextRuntime::Edge,
        server_actions,
        next_package,
    )
}

/// The special aliases, the guard modules and the matrix layer of a server context.
fn insert_next_server_special_aliases(
    project_path: &str,
    ty: &ServerContextType,
    runtime: NextRuntime,
    server_actions: bool,
    next_package: &str,
) -> (r: Vec<Rule>)
    ensures
        rules_view(r@) == server_tail_of(*ty, project_path@, runtime, server_actions, next_package@),
{
    let mut r: Vec<Rule> = match ty {
        ServerContextType::Pages { pages_dir } => {
            let mut r: Vec<Rule> = Vec::new();
            r.push(
                exact(
                    "@opentelemetry/api",
                    external_if_node(runtime, pages_dir.as_str(), "next/dist/compiled/@opentelemetry/api"),
                ),
            );
            extend(&mut r, page_files_rules(pages_dir.as_str(), runtime == NextRuntime::NodeJs));
            r
        },
        ServerContextType::AppSSR { app_dir } => app_styled_jsx_rules(app_dir.as_str(), next_package),
        ServerContextType::AppRSC { app_dir } => app_styled_jsx_rules(app_dir.as_str(), next_package),
        ServerContextType::AppRoute { app_dir } => app_styled_jsx_rules(app_dir.as_str(), next_package),
        _ => Vec::new(),
    };
    proof {
        assert(rules_view(r@) =~= special_rules_of(*ty, runtime, next_package@));
    }
    extend(&mut r, server_guard_rules(ty, project_path, runtime));
    extend(&mut r, server_runtime_rules(ty, runtime, server_actions));
    r
}

fn server_routing(ty: &ServerContextType, project_path: &str, server_actions: bool) -> (r: Vec<Rule>)
    ensures
        rules_view(r@) == server_routing_of(*ty, project_path@, server_actions),
{
    match ty {
        ServerContextType::Pages { .. } | ServerContextType::PagesData { .. } => pages_external_rules(),
        ServerContextType::Middleware => {
            let r: Vec<Rule> = Vec::new();
            proof {
                assert(rules_view(r@) =~= Seq::<RuleModel>::empty());
            }
            r
        },
        _ => {
            let mut r = pair_rules(true, project_path, action_pairs());
            extend(&mut r, head_dynamic_rules(project_path));
            extend(&mut r, flavored_server_dom_rules(project_path, server_actions));
            r
        },
    }
}

fn edge_routing(ty: &ServerContextType, project_path: &str, server_actions: bool) -> (r: Vec<Rule>)
    ensures
        rules_view(r@) == edge_routing_of(*ty, project_path@, server_actions),
{
    match ty {
        ServerContextType::AppSSR { .. } | ServerContextType::AppRSC { .. } | ServerContextType::AppRoute { .. } => {
            let mut r = head_dynamic_rules(project_path);
            extend(&mut r, flavored_server_dom_rules(project_path, server_actions));
            r
        },
        _ => {
            let r: Vec<Rule> = Vec::new();
            proof {
                assert(rules_view(r@) =~= Seq::<RuleModel>::empty());
            }
            r
        },
    }
}

/// The table of a client context. It fails exactly where the framework's package was not
/// found; else it is built from the client defaults, then the user's aliases resolved under the
/// `browser` condition, then the safety layer.
pub fn get_next_client_import_map(
    project_path: &str,
    ty: &ClientContextType,
    mode: NextMode,
    next_config: &NextConfig,
    next_package_json: &Option<String>,
) -> (r: Result<ImportMap, ImportMapError>)
    ensures
        next_package_json is None ==> r matches Err(ImportMapError::NextPackageNotFound),
        next_package_json is Some ==> r is Ok && r->Ok_0@ == composed_of(
            client_defaults_of(
                project_path@,
                *ty,
                mode,
                next_config.mdx_rs,
                next_config.server_actions,
                parent_of(next_package_json->Some_0@),
            ),
            user_rules_of(next_config.resolve_alias@, seq!["browser"@], project_path@),
            mode,
        ),
{
    let next_package = match get_next_package(next_package_json) {
        Ok(p) => p,
        Err(e) => {
            return Err(e);
        },
    };
    let mut d = insert_next_shared_aliases(project_path, next_package.as_str(), mode, next_config.mdx_rs);
    extend(&mut d, insert_optimized_module_aliases(project_path));
    let routing: Vec<Rule> = match ty {
        ClientContextType::Pages { pages_dir } => page_files_rules(pages_dir.as_str(), false),
        ClientContextType::App { .. } => head_dynamic_rules(project_path),
        _ => Vec::new(),
    };
    proof {
        assert(rules_view(routing@) =~= match *ty {
            ClientContextType::Pages { pages_dir } => page_files_rules_of(pages_dir@, false),
            ClientContextType::App { .. } => head_dynamic_rules_of(project_path@),
            _ => Seq::empty(),
        });
    }
    extend(&mut d, routing);
    extend(&mut d, client_tail(ty, project_path, next_config.server_actions));
    let conditions = browser_conditions();
    let user = user_rules(&next_config.resolve_alias, &conditions, project_path);
    Ok(compose(d, user, mode))
}

/// The table of a Node.js server context. It fails exactly where the framework's package was
/// not found; else it is built from the server defaults, which end with the Node.js column of
/// the matrix, then the user's aliases, then the safety layer.
pub fn get_next_server_import_map(
    project_path: &str,
    ty: &ServerContextType,
    mode: NextMode,
    next_config: &NextConfig,
    next_package_json: &Option<String>,
) -> (r: Result<ImportMap, ImportMapError>)
    ensures
        next_package_json is None ==> r matches Err(ImportMapError::NextPackageNotFound),
        next_package_json is Some ==> r is Ok && r->Ok_0@ == composed_of(
            server_defaults_of(
                project_path@,
                *ty,
                mode,
                next_config.mdx_rs,
                next_config.server_actions,
                parent_of(next_package_json->Some_0@),
            ),
            user_rules_of(next_config.resolve_alias@, Seq::empty(), project_path@),
            mode,
        ),
{
    let next_package = match get_next_package(next_package_json) {
        Ok(p) => p,
        Err(e) => {
            return Err(e);
        },
    };
    let mut d = insert_next_shared_aliases(project_path, next_package.as_str(), mode, next_config.mdx_rs);
    let mut hook: Vec<Rule> = Vec::new();
    hook.push(exact("next/dist/server/require-hook", ImportMapping::External(None)));
    proof {
        assert(rules_view(hook@) =~= seq![require_hook_rule_of()]);
    }
    extend(&mut d, hook);
    extend(&mut d, server_routing(ty, project_path, next_config.server_actions));
    extend(
        &mut d,
        insert_next_server_special_aliases(
            project_path,
            ty,
            NextRuntime::NodeJs,
            next_config.server_actions,
            next_package.as_str(),
        ),
    );
    let conditions = no_conditions();
    let user = user_rules(&next_config.resolve_alias, &conditions, project_path);
    Ok(compose(d, user, mode))
}

/// The table of an Edge server context: as on Node.js, but with the framework's ESM build
/// first and the Edge column of the matrix.
pub fn get_next_edge_import_map(
    project_path: &str,
    ty: &ServerContextType,
    mode: NextMode,
    next_config: &NextConfig,
    next_package_json: &Option<String>,
) -> (r: Result<ImportMap, ImportMapError>)
    ensures
        next_package_json is None ==> r matches Err(ImportMapError::NextPackageNotFound),
        next_package_json is Some ==> r is Ok && r->Ok_0@ == composed_of(
            edge_defaults_of(
                project_path@,
                *ty,
                mode,
                next_config.mdx_rs,
                next_config.server_actions,
                parent_of(next_package_json->Some_0@),
            ),
            user_rules_of(next_config.resolve_alias@, Seq::empty(), project_path@),
            mode,
        ),
{
    let next_package = match get_next_package(next_package_json) {
        Ok(p) => p,
        Err(e) => {
            return Err(e);
        },
    };
    let mut d = pair_rules(false, project_path, edge_esm_pairs());
    extend(&mut d, pair_rules(true, project_path, edge_public_pairs()));
    extend(&mut d, insert_next_shared_aliases(project_path, next_package.as_str(), mode, next_config.mdx_rs));
    extend(&mut d, insert_optimized_module_aliases(project_path));
    extend(&mut d, edge_routing(ty, project_path, next_config.server_actions));
    extend(
        &mut d,
        insert_next_server_special_aliases(
            project_path,
            ty,
            NextRuntime::Edge,
            next_config.server_actions,
            next_package.as_str(),
        ),
    );
    let conditions = no_conditions();
    let user = user_rules(&next_config.resolve_alias, &conditions, project_path);
    Ok(compose(d, user, mode))
}

pub open spec fn build_rules_of() -> Seq<RuleModel> {
    seq![
        (PatternModel::Wildcard(virtual_prefix()), package_mapping_of(NEXT_EMBED_ROOT@)),
        (PatternModel::Exact("next"@), MappingModel::External(None)),
        (PatternModel::Wildcard("next/"@), MappingModel::External(None)),
        (PatternModel::Exact("styled-jsx"@), MappingModel::External(None)),
        (PatternModel::Wildcard("styled-jsx/"@), MappingModel::External(None)),
    ]
}

/// The table of the build-time layer: the framework's virtual package, and the framework and
/// `styled-jsx` left to the host.
pub fn get_next_build_import_map() -> (r: ImportMap)
    ensures
        r@ == table_of(build_rules_of()),
{
    let mut rules: Vec<Rule> = Vec::new();
    let prefix = virtual_package_prefix();
    rules.push(package_alias(prefix.as_str(), NEXT_EMBED_ROOT));
    rules.push(exact("next", ImportMapping::External(None)));
    rules.push(wildcard("next/", ImportMapping::External(None)));
    rules.push(exact("styled-jsx", ImportMapping::External(None)));
    rules.push(wildcard("styled-jsx/", ImportMapping::External(None)));
    proof {
        assert(rules_view(rules@) =~= build_rules_of());
    }
    let mut t = ImportMap::empty();
    apply(&mut t, rules);
    t
}

pub open spec fn fallback_rules_of(ty: ClientContextType) -> Seq<RuleModel> {
    let polyfills = match ty {
        ClientContextType::Pages { pages_dir } => polyfill_rules_of(Seq::empty(), pages_dir@),
        ClientContextType::App { app_dir } => polyfill_rules_of(Seq::empty(), app_dir@),
        _ => Seq::empty(),
    };
    polyfills.push((PatternModel::Wildcard(runtime_prefix()), package_mapping_of(RUNTIME_EMBED_ROOT@)))
}

/// The fallback table of a client context: browser substitutes for the Node.js built-ins
/// (pages and app router only), and the bundler's runtime helpers.
pub fn get_next_client_fallback_import_map(ty: &ClientContextType) -> (r: ImportMap)
    ensures
        r@ == table_of(fallback_rules_of(*ty)),
{
    let mut rules: Vec<Rule> = match ty {
        ClientContextType::Pages { pages_dir } => polyfill_rules("", pages_dir.as_str()),
        ClientContextType::App { app_dir } => polyfill_rules("", app_dir.as_str()),
        _ => Vec::new(),
    };
    proof {
        reveal_strlit("");
        assert(rules_view(rules@) =~= match *ty {
            ClientContextType::Pages { pages_dir } => polyfill_rules_of(Seq::empty(), pages_dir@),
            ClientContextType::App { app_dir } => polyfill_rules_of(Seq::empty(), app_dir@),
            _ => Seq::empty(),
        });
    }
    insert_turbopack_dev_alias(&mut rules);
    proof {
        assert(rules_view(rules@) =~= fallback_rules_of(*ty));
    }
    let mut t = ImportMap::empty();
    apply(&mut t, rules);
    t
}

/// A mapping applied to every resolved file under `root` whose path matches `glob`.
#[derive(Clone, Debug)]
pub struct GlobMapping {
    pub root: String,
    pub glob: String,
    pub mapping: ImportMapping,
}

/// Replacements of already resolved files, by glob.
#[derive(Clone, Debug)]
pub struct ResolvedMap {
    pub by_glob: Vec<GlobMapping>,
}

pub open spec fn hot_reloader_glob() -> Seq<char> {
    "**/next/dist/client/components/react-dev-overlay/hot-reloader-client.js"@
}

pub open spec fn hot_reloader_replacement() -> Seq<char> {
    "@vercel/turbopack-next/dev/hot-reloader.tsx"@
}

/// Outside development, the framework's hot reloader client, wherever it was resolved under
/// `context_root`, is replaced by the bundler's own, resolved from `root`; in development
/// nothing is replaced.
pub fn get_next_client_resolved_map(context_root: &str, root: &str, mode: NextMode) -> (r: ResolvedMap)
    ensures
        mode == NextMode::Development ==> r.by_glob@.len() == 0,
        mode != NextMode::Development ==> {
            &&& r.by_glob@.len() == 1
            &&& r.by_glob@[0].root@ == context_root@
            &&& r.by_glob@[0].glob@ == hot_reloader_glob()
            &&& r.by_glob@[0].mapping@ == (MappingModel::Direct { request: hot_reloader_replacement(), base: root@ })
        },
{
    let mut by_glob: Vec<GlobMapping> = Vec::new();
    if mode != NextMode::Development {
        by_glob.push(
            GlobMapping {
                root: context_root.to_owned(),
                glob: String::from_str("**/next/dist/client/components/react-dev-overlay/hot-reloader-client.js"),
                mapping: request_to_import_mapping(root, "@vercel/turbopack-next/dev/hot-reloader.tsx"),
            },
        );
    }
    ResolvedMap { by_glob }
}

} // verus!
