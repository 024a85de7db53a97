use vstd::prelude::*;
use vstd::string::*;
use crate::layers::{
    exact, overlay_mapping, overlay_path, overlay_rule, package_alias, package_mapping_of,
    request_to_import_mapping, rules_view, runtime_prefix, virtual_package_prefix, virtual_prefix,
    wildcard, NextMode, Rule, RuleModel, NEXT_EMBED_ROOT, NODE_EMBED_ROOT, RUNTIME_EMBED_ROOT,
    VIRTUAL_PACKAGE_NAME,
};
use crate::mapping::{HandlerKind, ImportMapping, MappingModel, Target, TargetModel};
use crate::table::PatternModel;

verus! {

/// A pattern and the request it maps to.
pub type Pair = (&'static str, &'static str);

/// One alias per pair, exact or wildcard, each resolved from `base`.
pub open spec fn pair_rules_of(is_exact: bool, base: Seq<char>, pairs: Seq<Pair>) -> Seq<RuleModel> {
    pairs.map_values(
        |p: Pair|
            (
                if is_exact {
                    PatternModel::Exact(p.0@)
                } else {
                    PatternModel::Wildcard(p.0@)
                },
                MappingModel::Direct { request: p.1@, base },
            ),
    )
}

pub fn pair_rules(is_exact: bool, base: &str, pairs: Vec<Pair>) -> (r: Vec<Rule>)
    ensures
        rules_view(r@) == pair_rules_of(is_exact, base@, pairs@),
{
    let mut r: Vec<Rule> = Vec::new();
    let mut i: usize = 0;
    while i < pairs.len()
        invariant
            i <= pairs@.len(),
            r@.len() == i,
            forall|j: int| 0 <= j < i ==> #[trigger] rules_view(r@)[j] == pair_rules_of(is_exact, base@, pairs@)[j],
        decreases pairs@.len() - i,
    {
        let (pattern, request) = pairs[i];
        let m = request_to_import_mapping(base, request);
        let rule = if is_exact {
            exact(pattern, m)
        } else {
            wildcard(pattern, m)
        };
        let ghost before = r@;
        r.push(rule);
        proof {
            assert forall|j: int| 0 <= j < i + 1 implies #[trigger] rules_view(r@)[j] == pair_rules_of(
                is_exact,
                base@,
                pairs@,
            )[j] by {
                if j < i {
                    assert(r@[j] == before[j]);
                    assert(rules_view(before)[j] == pair_rules_of(is_exact, base@, pairs@)[j]);
                }
            }
        }
        i = i + 1;
    }
    proof {
        assert(rules_view(r@) =~= pair_rules_of(is_exact, base@, pairs@));
    }
    r
}

/// Stubs of fetch, object-assign and url.
pub open spec fn optimized_pairs_of() -> Seq<Pair> {
    seq![
        ("unfetch", "next/dist/build/polyfills/fetch/index.js"),
        ("isomorphic-unfetch", "next/dist/build/polyfills/fetch/index.js"),
        ("whatwg-fetch", "next/dist/build/polyfills/fetch/whatwg-fetch.js"),
        ("object-assign", "next/dist/build/polyfills/object-assign.js"),
        ("object.assign/auto", "next/dist/build/polyfills/object.assign/auto.js"),
        ("object.assign/implementation", "next/dist/build/polyfills/object.assign/implementation.js"),
        ("object.assign/polyfill", "next/dist/build/polyfills/object.assign/polyfill.js"),
        ("object.assign/shim", "next/dist/build/polyfills/object.assign/shim.js"),
        ("url", "next/dist/compiled/native-url"),
    ]
}

pub fn optimized_pairs() -> (r: Vec<Pair>)
    ensures
        r@ == optimized_pairs_of(),
{
    let r = vec![
        ("unfetch", "next/dist/build/polyfills/fetch/index.js"),
        ("isomorphic-unfetch", "next/dist/build/polyfills/fetch/index.js"),
        ("whatwg-fetch", "next/dist/build/polyfills/fetch/whatwg-fetch.js"),
        ("object-assign", "next/dist/build/polyfills/object-assign.js"),
        ("object.assign/auto", "next/dist/build/polyfills/object.assign/auto.js"),
        ("object.assign/implementation", "next/dist/build/polyfills/object.assign/implementation.js"),
        ("object.assign/polyfill", "next/dist/build/polyfills/object.assign/polyfill.js"),
        ("object.assign/shim", "next/dist/build/polyfills/object.assign/shim.js"),
        ("url", "next/dist/compiled/native-url"),
    ];
    proof {
        assert(r@ =~= optimized_pairs_of());
    }
    r
}

/// The stubs of fetch, object-assign and url, resolved from the project.
pub fn insert_optimized_module_aliases(project_path: &str) -> (r: Vec<Rule>)
    ensures
        rules_view(r@) == pair_rules_of(true, project_path@, optimized_pairs_of()),
{
    pair_rules(true, project_path, optimized_pairs())
}

/// On Edge, the framework's internals come from its ESM build.
pub open spec fn edge_esm_pairs_of() -> Seq<Pair> {
    seq![
        ("next/dist/build/", "next/dist/esm/build/*"),
        ("next/dist/client/", "next/dist/esm/client/*"),
        ("next/dist/shared/", "next/dist/esm/shared/*"),
        ("next/dist/pages/", "next/dist/esm/pages/*"),
        ("next/dist/lib/", "next/dist/esm/lib/*"),
        ("next/dist/server/", "next/dist/esm/server/*"),
    ]
}

pub fn edge_esm_pairs() -> (r: Vec<Pair>)
    ensures
        r@ == edge_esm_pairs_of(),
{
    let r = vec![
        ("next/dist/build/", "next/dist/esm/build/*"),
        ("next/dist/client/", "next/dist/esm/client/*"),
        ("next/dist/shared/", "next/dist/esm/shared/*"),
        ("next/dist/pages/", "next/dist/esm/pages/*"),
        ("next/dist/lib/", "next/dist/esm/lib/*"),
        ("next/dist/server/", "next/dist/esm/server/*"),
    ];
    proof {
        assert(r@ =~= edge_esm_pairs_of());
    }
    r
}

/// On Edge, the framework's public modules come from its ESM build.
pub open spec fn edge_public_pairs_of() -> Seq<Pair> {
    seq![
        ("next/app", "next/dist/esm/pages/_app"),
        ("next/document", "next/dist/esm/pages/_document"),
        ("next/dynamic", "next/dist/esm/shared/lib/dynamic"),
        ("next/head", "next/dist/esm/shared/lib/head"),
        ("next/headers", "next/dist/esm/client/components/headers"),
        ("next/image", "next/dist/esm/shared/lib/image-external"),
        ("next/link", "next/dist/esm/client/link"),
        ("next/navigation", "next/dist/esm/client/components/navigation"),
        ("next/router", "next/dist/esm/client/router"),
        ("next/script", "next/dist/esm/client/script"),
        ("next/server", "next/dist/esm/server/web/exports/index"),
        ("next/dist/client/components/headers", "next/dist/esm/client/components/headers"),
        ("next/dist/client/components/navigation", "next/dist/esm/client/components/navigation"),
        ("next/dist/client/link", "next/dist/esm/client/link"),
        ("next/dist/client/router", "next/dist/esm/client/router"),
        ("next/dist/client/script", "next/dist/esm/client/script"),
        ("next/dist/pages/_app", "next/dist/esm/pages/_app"),
        ("next/dist/pages/_document", "next/dist/esm/pages/_document"),
        ("next/dist/shared/lib/dynamic", "next/dist/esm/shared/lib/dynamic"),
        ("next/dist/shared/lib/head", "next/dist/esm/shared/lib/head"),
        ("next/dist/shared/lib/image-external", "next/dist/esm/shared/lib/image-external"),
    ]
}

pub fn edge_public_pairs() -> (r: Vec<Pair>)
    ensures
        r@ == edge_public_pairs_of(),
{
    let r = vec![
        ("next/app", "next/dist/esm/pages/_app"),
        ("next/document", "next/dist/esm/pages/_document"),
        ("next/dynamic", "next/dist/esm/shared/lib/dynamic"),
        ("next/head", "next/dist/esm/shared/lib/head"),
        ("next/headers", "next/dist/esm/client/components/headers"),
        ("next/image", "next/dist/esm/shared/lib/image-external"),
        ("next/link", "next/dist/esm/client/link"),
        ("next/navigation", "next/dist/esm/client/components/navigation"),
        ("next/router", "next/dist/esm/client/router"),
        ("next/script", "next/dist/esm/client/script"),
        ("next/server", "next/dist/esm/server/web/exports/index"),
        ("next/dist/client/components/headers", "next/dist/esm/client/components/headers"),
        ("next/dist/client/components/navigation", "next/dist/esm/client/components/navigation"),
        ("next/dist/client/link", "next/dist/esm/client/link"),
        ("next/dist/client/router", "next/dist/esm/client/router"),
        ("next/dist/client/script", "next/dist/esm/client/script"),
        ("next/dist/pages/_app", "next/dist/esm/pages/_app"),
        ("next/dist/pages/_document", "next/dist/esm/pages/_document"),
        ("next/dist/shared/lib/dynamic", "next/dist/esm/shared/lib/dynamic"),
        ("next/dist/shared/lib/head", "next/dist/esm/shared/lib/head"),
        ("next/dist/shared/lib/image-external", "next/dist/esm/shared/lib/image-external"),
    ];
    proof {
        assert(r@ =~= edge_public_pairs_of());
    }
    r
}

/// The server-action entry points of the app router.
pub open spec fn action_pairs_of() -> Seq<Pair> {
    seq![
        ("private-next-rsc-action-proxy", "next/dist/build/webpack/loaders/next-flight-loader/action-proxy"),
        (
            "private-next-rsc-action-client-wrapper",
            "next/dist/build/webpack/loaders/next-flight-loader/action-client-wrapper",
        ),
        ("private-next-rsc-action-validate", "next/dist/build/webpack/loaders/next-flight-loader/action-validate"),
    ]
}

pub fn action_pairs() -> (r: Vec<Pair>)
    ensures
        r@ == action_pairs_of(),
{
    let r = vec![
        ("private-next-rsc-action-proxy", "next/dist/build/webpack/loaders/next-flight-loader/action-proxy"),
        (
            "private-next-rsc-action-client-wrapper",
            "next/dist/build/webpack/loaders/next-flight-loader/action-client-wrapper",
        ),
        ("private-next-rsc-action-validate", "next/dist/build/webpack/loaders/next-flight-loader/action-validate"),
    ];
    proof {
        assert(r@ =~= action_pairs_of());
    }
    r
}

pub open spec fn direct_of(request: Seq<char>, base: Seq<char>) -> MappingModel {
    MappingModel::Direct { request, base }
}

/// Every requester of `name` gets the copy in `root`, and so does every subpath of it.
pub open spec fn singleton_rules_of(name: Seq<char>, root: Seq<char>) -> Seq<RuleModel> {
    seq![
        (PatternModel::Exact(name), MappingModel::Singleton(root)),
        (PatternModel::Wildcard(name + "/"@), direct_of(name + "/*"@, root)),
    ]
}

pub fn singleton_rules(name: &str, root: &str) -> (r: Vec<Rule>)
    ensures
        rules_view(r@) == singleton_rules_of(name@, root@),
{
    let mut prefix = String::from_str(name);
    prefix.append("/");
    let mut request = String::from_str(name);
    request.append("/*");
    let mut r: Vec<Rule> = Vec::new();
    r.push(exact(name, ImportMapping::Singleton(root.to_owned())));
    r.push(wildcard(prefix.as_str(), request_to_import_mapping(root, request.as_str())));
    proof {
        assert(rules_view(r@) =~= singleton_rules_of(name@, root@));
    }
    r
}

pub open spec fn mdx_source_of() -> Seq<char> {
    VIRTUAL_PACKAGE_NAME@ + "/mdx-import-source"@
}

/// Where MDX enabled, the project's own MDX components, then those under `src/`, then the
/// MDX runtime's.
pub open spec fn mdx_rules_of(enabled: bool, project: Seq<char>) -> Seq<RuleModel> {
    if enabled {
        seq![
            (
                PatternModel::Exact(mdx_source_of()),
                MappingModel::Alternatives(
                    seq![
                        TargetModel::Direct { request: "./mdx-components"@, base: project },
                        TargetModel::Direct { request: "./src/mdx-components"@, base: project },
                        TargetModel::Direct { request: "@mdx-js/react"@, base: project },
                    ],
                ),
            ),
        ]
    } else {
        Seq::empty()
    }
}

pub open spec fn font_rules_of() -> Seq<RuleModel> {
    seq![
        (PatternModel::Exact("next/font/google/target.css"@), MappingModel::Dynamic(HandlerKind::FontGoogle)),
        (PatternModel::Exact("@next/font/google/target.css"@), MappingModel::Dynamic(HandlerKind::FontGoogle)),
        (
            PatternModel::Exact("@vercel/turbopack-next/internal/font/google/cssmodule.module.css"@),
            MappingModel::Dynamic(HandlerKind::FontGoogleCssModule),
        ),
        (PatternModel::Exact("next/font/local/target.css"@), MappingModel::Dynamic(HandlerKind::FontLocal)),
        (PatternModel::Exact("@next/font/local/target.css"@), MappingModel::Dynamic(HandlerKind::FontLocal)),
        (
            PatternModel::Exact("@vercel/turbopack-next/internal/font/local/cssmodule.module.css"@),
            MappingModel::Dynamic(HandlerKind::FontLocalCssModule),
        ),
    ]
}

/// The defaults that every client and server table shares: MDX components, the overlay hook
/// outside development, the virtual package, the font handlers, the single-copy packages and
/// the embedded helpers.
pub open spec fn shared_rules_of(project: Seq<char>, next_package: Seq<char>, mode: NextMode, mdx: bool) -> Seq<RuleModel> {
    mdx_rules_of(mdx, project) + (if mode != NextMode::Development {
        seq![(PatternModel::Exact(overlay_path()), overlay_mapping())]
    } else {
        Seq::empty()
    }) + seq![(PatternModel::Wildcard(virtual_prefix()), package_mapping_of(NEXT_EMBED_ROOT@))] + font_rules_of()
        + singleton_rules_of("@swc/helpers"@, next_package) + singleton_rules_of("styled-jsx"@, next_package)
        + singleton_rules_of("next"@, project) + singleton_rules_of("react"@, project) + singleton_rules_of(
        "react-dom"@,
        project,
    ) + seq![
        (PatternModel::Exact("setimmediate"@), direct_of("next/dist/compiled/setimmediate"@, project)),
        (PatternModel::Wildcard(runtime_prefix()), package_mapping_of(RUNTIME_EMBED_ROOT@)),
        (PatternModel::Wildcard("@vercel/turbopack-node/"@), package_mapping_of(NODE_EMBED_ROOT@)),
    ]
}

fn mdx_rules(enabled: bool, project: &str) -> (r: Vec<Rule>)
    ensures
        rules_view(r@) == mdx_rules_of(enabled, project@),
{
    let mut r: Vec<Rule> = Vec::new();
    if enabled {
        let mut alternatives: Vec<Target> = Vec::new();
        alternatives.push(Target::Direct { request: String::from_str("./mdx-components"), base: project.to_owned() });
        alternatives.push(Target::Direct { request: String::from_str("./src/mdx-components"), base: project.to_owned() });
        alternatives.push(Target::Direct { request: String::from_str("@mdx-js/react"), base: project.to_owned() });
        let name = crate::compose::mdx_import_source_file();
        r.push(exact(name.as_str(), ImportMapping::Alternatives(alternatives)));
        proof {
            assert(alternatives@.map_values(|t: Target| t@) =~= seq![
                TargetModel::Direct { request: "./mdx-components"@, base: project@ },
                TargetModel::Direct { request: "./src/mdx-components"@, base: project@ },
                TargetModel::Direct { request: "@mdx-js/react"@, base: project@ },
            ]);
        }
    }
    proof {
        assert(rules_view(r@) =~= mdx_rules_of(enabled, project@));
    }
    r
}

fn font_rules() -> (r: Vec<Rule>)
    ensures
        rules_view(r@) == font_rules_of(),
{
    let mut r: Vec<Rule> = Vec::new();
    r.push(exact("next/font/google/target.css", ImportMapping::Dynamic(HandlerKind::FontGoogle)));
    r.push(exact("@next/font/google/target.css", ImportMapping::Dynamic(HandlerKind::FontGoogle)));
    r.push(
        exact(
            "@vercel/turbopack-next/internal/font/google/cssmodule.module.css",
            ImportMapping::Dynamic(HandlerKind::FontGoogleCssModule),
        ),
    );
    r.push(exact("next/font/local/target.css", ImportMapping::Dynamic(HandlerKind::FontLocal)));
    r.push(exact("@next/font/local/target.css", ImportMapping::Dynamic(HandlerKind::FontLocal)));
    r.push(
        exact(
            "@vercel/turbopack-next/internal/font/local/cssmodule.module.css",
            ImportMapping::Dynamic(HandlerKind::FontLocalCssModule),
        ),
    );
    proof {
        assert(rules_view(r@) =~= font_rules_of());
    }
    r
}

/// Appends `more` to `rules`.
pub fn extend(rules: &mut Vec<Rule>, more: Vec<Rule>)
    ensures
        rules_view(final(rules)@) == rules_view(old(rules)@) + rules_view(more@),
{
    let ghost start = rules@;
    let ghost added = more@;
    let mut more = more;
    rules.append(&mut more);
    proof {
        assert(rules_view(rules@) =~= rules_view(start) + rules_view(added));
    }
}

pub fn insert_next_shared_aliases(project_path: &str, next_package: &str, mode: NextMode, mdx: bool) -> (r: Vec<Rule>)
    ensures
        rules_view(r@) == shared_rules_of(project_path@, next_package@, mode, mdx),
{
    let mut r = mdx_rules(mdx, project_path);
    let ghost v0 = rules_view(r@);
    let mut head: Vec<Rule> = Vec::new();
    if mode != NextMode::Development {
        head.push(overlay_rule());
    }
    let prefix = virtual_package_prefix();
    head.push(package_alias(prefix.as_str(), NEXT_EMBED_ROOT));
    let ghost hv = rules_view(head@);
    proof {
        assert(hv =~= (if mode != NextMode::Development {
            seq![(PatternModel::Exact(overlay_path()), overlay_mapping())]
        } else {
            Seq::empty()
        }) + seq![(PatternModel::Wildcard(virtual_prefix()), package_mapping_of(NEXT_EMBED_ROOT@))]);
    }
    extend(&mut r, head);
    extend(&mut r, font_rules());
    extend(&mut r, singleton_rules("@swc/helpers", next_package));
    extend(&mut r, singleton_rules("styled-jsx", next_package));
    extend(&mut r, singleton_rules("next", project_path));
    extend(&mut r, singleton_rules("react", project_path));
    extend(&mut r, singleton_rules("react-dom", project_path));
    let mut tail: Vec<Rule> = Vec::new();
    tail.push(exact("setimmediate", request_to_import_mapping(project_path, "next/dist/compiled/setimmediate")));
    tail.push(package_alias("@vercel/turbopack-ecmascript-runtime/", RUNTIME_EMBED_ROOT));
    tail.push(package_alias("@vercel/turbopack-node/", NODE_EMBED_ROOT));
    proof {
        assert(rules_view(tail@) =~= seq![
            (PatternModel::Exact("setimmediate"@), direct_of("next/dist/compiled/setimmediate"@, project_path@)),
            (PatternModel::Wildcard(runtime_prefix()), package_mapping_of(RUNTIME_EMBED_ROOT@)),
            (PatternModel::Wildcard("@vercel/turbopack-node/"@), package_mapping_of(NODE_EMBED_ROOT@)),
        ]);
    }
    extend(&mut r, tail);
    proof {
        assert(v0 + hv =~= mdx_rules_of(mdx, project_path@) + hv);
    }
    r
}

pub open spec fn page_file_rule_of(pages_dir: Seq<char>, name: Seq<char>, fallback: Seq<char>, node_fallback: bool) -> RuleModel {
    (
        PatternModel::Exact(VIRTUAL_PACKAGE_NAME@ + "/pages/"@ + name),
        MappingModel::Alternatives(
            seq![
                TargetModel::Direct { request: "./"@ + name, base: pages_dir },
                if node_fallback {
                    TargetModel::External(Some(fallback))
                } else {
                    TargetModel::Direct { request: fallback, base: pages_dir }
                },
            ],
        ),
    )
}

/// The pages router's special files: the project's own `_app`, `_document` and `_error`
/// first, the framework's after, left to the host where `node_fallback`.
pub open spec fn page_files_rules_of(pages_dir: Seq<char>, node_fallback: bool) -> Seq<RuleModel> {
    seq![
        page_file_rule_of(pages_dir, "_app"@, "next/app"@, node_fallback),
        page_file_rule_of(pages_dir, "_document"@, "next/document"@, node_fallback),
        page_file_rule_of(pages_dir, "_error"@, "next/error"@, node_fallback),
    ]
}

fn page_file_rule(pages_dir: &str, name: &str, fallback: &str, node_fallback: bool) -> (r: Rule)
    ensures
        (r.0@, r.1@) == page_file_rule_of(pages_dir@, name@, fallback@, node_fallback),
{
    let mut local = String::from_str("./");
    local.append(name);
    let mut alias = String::from_str(VIRTUAL_PACKAGE_NAME);
    alias.append("/pages/");
    alias.append(name);
    let mut alternatives: Vec<Target> = Vec::new();
    alternatives.push(Target::Direct { request: local, base: pages_dir.to_owned() });
    if node_fallback {
        alternatives.push(Target::External(Some(fallback.to_owned())));
    } else {
        alternatives.push(Target::Direct { request: fallback.to_owned(), base: pages_dir.to_owned() });
    }
    let r = exact(alias.as_str(), ImportMapping::Alternatives(alternatives));
    proof {
        assert(alternatives@.map_values(|t: Target| t@) =~= seq![
            TargetModel::Direct { request: "./"@ + name@, base: pages_dir@ },
            if node_fallback {
                TargetModel::External(Some(fallback@))
            } else {
                TargetModel::Direct { request: fallback@, base: pages_dir@ }
            },
        ]);
    }
    r
}

pub fn page_files_rules(pages_dir: &str, node_fallback: bool) -> (r: Vec<Rule>)
    ensures
        rules_view(r@) == page_files_rules_of(pages_dir@, node_fallback),
{
    let mut r: Vec<Rule> = Vec::new();
    r.push(page_file_rule(pages_dir, "_app", "next/app", node_fallback));
    r.push(page_file_rule(pages_dir, "_document", "next/document", node_fallback));
    r.push(page_file_rule(pages_dir, "_error", "next/error", node_fallback));
    proof {
        assert(rules_view(r@) =~= page_files_rules_of(pages_dir@, node_fallback));
    }
    r
}

/// The app router replaces `next/head` by a no-op and `next/dynamic` by its own.
pub open spec fn head_dynamic_rules_of(project: Seq<char>) -> Seq<RuleModel> {
    seq![
        (PatternModel::Exact("next/head"@), direct_of("next/dist/client/components/noop-head"@, project)),
        (PatternModel::Exact("next/dynamic"@), direct_of("next/dist/shared/lib/app-dynamic"@, project)),
    ]
}

pub fn head_dynamic_rules(project: &str) -> (r: Vec<Rule>)
    ensures
        rules_view(r@) == head_dynamic_rules_of(project@),
{
    let mut r: Vec<Rule> = Vec::new();
    r.push(exact("next/head", request_to_import_mapping(project, "next/dist/client/components/noop-head")));
    r.push(exact("next/dynamic", request_to_import_mapping(project, "next/dist/shared/lib/app-dynamic")));
    proof {
        assert(rules_view(r@) =~= head_dynamic_rules_of(project@));
    }
    r
}

/// On Node.js the pages router leaves the UI runtime, `styled-jsx` and the build utilities to
/// the host.
pub open spec fn pages_external_rules_of() -> Seq<RuleModel> {
    seq![
        (PatternModel::Exact("react"@), MappingModel::External(None)),
        (PatternModel::Wildcard("react/"@), MappingModel::External(None)),
        (PatternModel::Exact("react-dom"@), MappingModel::External(None)),
        (PatternModel::Wildcard("react-dom/"@), MappingModel::External(None)),
        (PatternModel::Exact("styled-jsx"@), MappingModel::External(None)),
        (PatternModel::Wildcard("styled-jsx/"@), MappingModel::External(None)),
        (PatternModel::Wildcard("next/dist/build/utils"@), MappingModel::External(None)),
    ]
}

pub fn pages_external_rules() -> (r: Vec<Rule>)
    ensures
        rules_view(r@) == pages_external_rules_of(),
{
    let mut r: Vec<Rule> = Vec::new();
    r.push(exact("react", ImportMapping::External(None)));
    r.push(wildcard("react/", ImportMapping::External(None)));
    r.push(exact("react-dom", ImportMapping::External(None)));
    r.push(wildcard("react-dom/", ImportMapping::External(None)));
    r.push(exact("styled-jsx", ImportMapping::External(None)));
    r.push(wildcard("styled-jsx/", ImportMapping::External(None)));
    r.push(wildcard("next/dist/build/utils", ImportMapping::External(None)));
    proof {
        assert(rules_view(r@) =~= pages_external_rules_of());
    }
    r
}

pub open spec fn flavored_pair_of(sub: Seq<char>, project: Seq<char>, server_actions: bool) -> Seq<RuleModel> {
    let m = direct_of(crate::matrix::compiled_of("react-server-dom-turbopack"@, server_actions) + "/"@ + sub, project);
    seq![
        (PatternModel::Exact("react-server-dom-webpack/"@ + sub), m),
        (PatternModel::Exact("react-server-dom-turbopack/"@ + sub), m),
    ]
}

/// The compiled streaming runtime's entries under both of their names, experimental where
/// server actions are on.
pub open spec fn flavored_server_dom_rules_of(project: Seq<char>, server_actions: bool) -> Seq<RuleModel> {
    flavored_pair_of("client"@, project, server_actions) + flavored_pair_of("client.edge"@, project, server_actions)
        + flavored_pair_of("server.edge"@, project, server_actions) + flavored_pair_of(
        "server.node"@,
        project,
        server_actions,
    )
}

fn flavored_pair(sub: &str, project: &str, server_actions: bool) -> (r: Vec<Rule>)
    ensures
        rules_view(r@) == flavored_pair_of(sub@, project@, server_actions),
{
    let mut request = crate::matrix::compiled("react-server-dom-turbopack", server_actions);
    request.append("/");
    request.append(sub);
    let mut webpack_name = String::from_str("react-server-dom-webpack/");
    webpack_name.append(sub);
    let mut turbopack_name = String::from_str("react-server-dom-turbopack/");
    turbopack_name.append(sub);
    let mut r: Vec<Rule> = Vec::new();
    r.push(exact(webpack_name.as_str(), request_to_import_mapping(project, request.as_str())));
    r.push(exact(turbopack_name.as_str(), request_to_import_mapping(project, request.as_str())));
    proof {
        assert(rules_view(r@) =~= flavored_pair_of(sub@, project@, server_actions));
    }
    r
}

pub fn flavored_server_dom_rules(project: &str, server_actions: bool) -> (r: Vec<Rule>)
    ensures
        rules_view(r@) == flavored_server_dom_rules_of(project@, server_actions),
{
    let mut r = flavored_pair("client", project, server_actions);
    extend(&mut r, flavored_pair("client.edge", project, server_actions));
    extend(&mut r, flavored_pair("server.edge", project, server_actions));
    extend(&mut r, flavored_pair("server.node", project, server_actions));
    r
}

/// The app router's telemetry API, and `styled-jsx` from the framework's own package.
pub open spec fn app_styled_jsx_rules_of(app_dir: Seq<char>, next_package: Seq<char>) -> Seq<RuleModel> {
    seq![
        (PatternModel::Exact("@opentelemetry/api"@), direct_of("next/dist/compiled/@opentelemetry/api"@, app_dir)),
        (PatternModel::Exact("styled-jsx"@), direct_of("styled-jsx"@, next_package)),
        (PatternModel::Wildcard("styled-jsx/"@), direct_of("styled-jsx/*"@, next_package)),
    ]
}

pub fn app_styled_jsx_rules(app_dir: &str, next_package: &str) -> (r: Vec<Rule>)
    ensures
        rules_view(r@) == app_styled_jsx_rules_of(app_dir@, next_package@),
{
    let mut r: Vec<Rule> = Vec::new();
    r.push(exact("@opentelemetry/api", request_to_import_mapping(app_dir, "next/dist/compiled/@opentelemetry/api")));
    r.push(exact("styled-jsx", request_to_import_mapping(next_package, "styled-jsx")));
    r.push(wildcard("styled-jsx/", request_to_import_mapping(next_package, "styled-jsx/*")));
    proof {
        assert(rules_view(r@) =~= app_styled_jsx_rules_of(app_dir@, next_package@));
    }
    r
}

} // verus!
