use vstd::prelude::*;
use vstd::string::*;
use crate::layers::{
    last_rule_for, lemma_last_rule_wins, overlay_mapping, overlay_path, package_mapping_of,
    registered, runtime_prefix, safety_rules_of, virtual_prefix, empty_table, NextMode, RuleModel,
    NEXT_EMBED_ROOT, RUNTIME_EMBED_ROOT,
};
use crate::compose::{
    client_defaults_of, composed_of, edge_defaults_of, edge_routing_of, server_defaults_of,
    server_guard_rules_of, server_runtime_rules_of, special_rules_of, ClientContextType, ServerContextType,
};
use crate::defaults::{edge_esm_pairs_of, edge_public_pairs_of, optimized_pairs_of, pair_rules_of, shared_rules_of};
use crate::config::{user_rules_of, NextConfig};
use crate::matrix::{compiled_of, select_of, NextRuntime, Phase, RuntimeEntry};
use crate::runtime_layer::{matrix_rules_of, rsc_keys_of, ssr_keys_of};
use crate::mapping::{AnswerModel, MappingModel, StepModel, TargetModel, mapping_with_capture, step_of};
use crate::table::{insert_of, is_longest_prefix, lookup_of, PatternModel, TableModel};

verus! {

/// An exact alias for a specifier always wins over every wildcard alias that matches it.
pub proof fn exact_outranks_wildcard(t: TableModel, s: Seq<char>)
    requires
        t.exact.contains_key(s),
    ensures
        lookup_of(t, s) == Some((PatternModel::Exact(s), t.exact[s])),
{
}

/// Of two wildcard aliases whose prefixes both start a specifier, the one with the longer
/// prefix decides, whichever was inserted first, where no exact alias and no longer prefix
/// applies.
pub proof fn longest_prefix_wins(
    t: TableModel,
    a: Seq<char>,
    x: MappingModel,
    b: Seq<char>,
    y: MappingModel,
    s: Seq<char>,
)
    requires
        a.is_prefix_of(s),
        b.is_prefix_of(s),
        a.len() < b.len(),
        !t.exact.contains_key(s),
        forall|k: Seq<char>| t.wildcard.contains_key(k) && k.is_prefix_of(s) ==> k.len() <= b.len(),
    ensures
        lookup_of(
            insert_of(insert_of(t, PatternModel::Wildcard(a), x), PatternModel::Wildcard(b), y),
            s,
        ) == Some((PatternModel::Wildcard(b), mapping_with_capture(y, s.subrange(b.len() as int, s.len() as int)))),
{
    let t2 = insert_of(insert_of(t, PatternModel::Wildcard(a), x), PatternModel::Wildcard(b), y);
    assert(is_longest_prefix(t2.wildcard, s, b));
    let k = choose|k: Seq<char>| is_longest_prefix(t2.wildcard, s, k);
    assert(k =~= b);
}

/// Building a table twice from the same context, settings and user aliases gives the same
/// table: each is a function of those inputs alone, with the user's aliases taken in their
/// declared order.
pub proof fn composition_is_deterministic(
    project: Seq<char>,
    client: ClientContextType,
    server: ServerContextType,
    mode: NextMode,
    c1: NextConfig,
    c2: NextConfig,
    next_package: Seq<char>,
)
    requires
        c1.mdx_rs == c2.mdx_rs,
        c1.server_actions == c2.server_actions,
        c1.resolve_alias@ == c2.resolve_alias@,
    ensures
        composed_of(
            client_defaults_of(project, client, mode, c1.mdx_rs, c1.server_actions, next_package),
            user_rules_of(c1.resolve_alias@, seq!["browser"@], project),
            mode,
        ) == composed_of(
            client_defaults_of(project, client, mode, c2.mdx_rs, c2.server_actions, next_package),
            user_rules_of(c2.resolve_alias@, seq!["browser"@], project),
            mode,
        ),
        composed_of(
            server_defaults_of(project, server, mode, c1.mdx_rs, c1.server_actions, next_package),
            user_rules_of(c1.resolve_alias@, Seq::empty(), project),
            mode,
        ) == composed_of(
            server_defaults_of(project, server, mode, c2.mdx_rs, c2.server_actions, next_package),
            user_rules_of(c2.resolve_alias@, Seq::empty(), project),
            mode,
        ),
        composed_of(
            edge_defaults_of(project, server, mode, c1.mdx_rs, c1.server_actions, next_package),
            user_rules_of(c1.resolve_alias@, Seq::empty(), project),
            mode,
        ) == composed_of(
            edge_defaults_of(project, server, mode, c2.mdx_rs, c2.server_actions, next_package),
            user_rules_of(c2.resolve_alias@, Seq::empty(), project),
            mode,
        ),
{
}

/// Once the first alternative of a chain resolves, the resolver is done with that source and
/// asks the oracle nothing more, whatever later answers would have been.
pub proof fn alternatives_short_circuit(
    ts: Seq<TargetModel>,
    s: Seq<char>,
    ctx: Seq<char>,
    answers: Seq<Option<Seq<char>>>,
    src: Seq<char>,
)
    requires
        ts.len() > 0,
        ts[0] is Direct,
        answers.len() > 0,
        answers[0] == Some(src),
    ensures
        step_of(MappingModel::Alternatives(ts), s, ctx, answers) == StepModel::Done(AnswerModel::ResolvedTo(src)),
{
}

/// A singleton resolves to its package root for every requester and every oracle answer.
pub proof fn singleton_is_stable(
    root: Seq<char>,
    s: Seq<char>,
    ctx1: Seq<char>,
    ctx2: Seq<char>,
    a1: Seq<Option<Seq<char>>>,
    a2: Seq<Option<Seq<char>>>,
)
    ensures
        step_of(MappingModel::Singleton(root), s, ctx1, a1) == step_of(MappingModel::Singleton(root), s, ctx2, a2),
        step_of(MappingModel::Singleton(root), s, ctx1, a1) == StepModel::Done(AnswerModel::ResolvedTo(root)),
{
}

proof fn lemma_safety_keys_differ()
    ensures
        virtual_prefix() != runtime_prefix(),
        PatternModel::Wildcard(virtual_prefix()) != PatternModel::Exact(overlay_path()),
        PatternModel::Wildcard(runtime_prefix()) != PatternModel::Exact(overlay_path()),
{
    reveal_strlit("@vercel/turbopack-next");
    reveal_strlit("/");
    reveal_strlit("@vercel/turbopack-ecmascript-runtime/");
    assert(virtual_prefix().len() != runtime_prefix().len());
}

/// Whatever the defaults and the user's aliases, the composed table maps the framework's
/// virtual package namespace and the bundler's runtime helpers to their embedded roots and,
/// outside development, the overlay hook to the bundler's own.
pub proof fn safety_aliases_survive(d: Seq<RuleModel>, u: Seq<RuleModel>, mode: NextMode)
    ensures
        registered(composed_of(d, u, mode), PatternModel::Wildcard(virtual_prefix()))
            == Some(package_mapping_of(NEXT_EMBED_ROOT@)),
        registered(composed_of(d, u, mode), PatternModel::Wildcard(runtime_prefix()))
            == Some(package_mapping_of(RUNTIME_EMBED_ROOT@)),
        mode != NextMode::Development ==> registered(composed_of(d, u, mode), PatternModel::Exact(overlay_path()))
            == Some(overlay_mapping()),
{
    lemma_safety_keys_differ();
    let all = d + u + safety_rules_of(mode);
    let n: int = (d.len() + u.len()) as int;
    assert(all[n] == safety_rules_of(mode)[0]);
    assert(all[n + 1] == safety_rules_of(mode)[1]);
    assert(last_rule_for(all, PatternModel::Wildcard(virtual_prefix()), n));
    lemma_last_rule_wins(empty_table(), all, PatternModel::Wildcard(virtual_prefix()), n);
    assert(last_rule_for(all, PatternModel::Wildcard(runtime_prefix()), n + 1));
    lemma_last_rule_wins(empty_table(), all, PatternModel::Wildcard(runtime_prefix()), n + 1);
    if mode != NextMode::Development {
        assert(all[n + 2] == safety_rules_of(mode)[2]);
        assert(last_rule_for(all, PatternModel::Exact(overlay_path()), n + 2));
        lemma_last_rule_wins(empty_table(), all, PatternModel::Exact(overlay_path()), n + 2);
    }
}

/// A user alias for any pattern outside the safety layer overrides every default for it.
pub proof fn user_alias_overrides_defaults(
    d: Seq<RuleModel>,
    u: Seq<RuleModel>,
    mode: NextMode,
    p: PatternModel,
    i: int,
)
    requires
        last_rule_for(u, p, i),
        forall|j: int| 0 <= j < safety_rules_of(mode).len() ==> (#[trigger] safety_rules_of(mode)[j]).0 != p,
    ensures
        registered(composed_of(d, u, mode), p) == Some(u[i].1),
{
    let sr = safety_rules_of(mode);
    let all = d + u + sr;
    let n: int = d.len() + i;
    assert(all[n] == u[i]);
    assert forall|j: int| n < j < all.len() implies (#[trigger] all[j]).0 != p by {
        if j < d.len() + u.len() {
            assert(all[j] == u[j - d.len()]);
        } else {
            assert(all[j] == sr[j - d.len() - u.len()]);
        }
    }
    lemma_last_rule_wins(empty_table(), all, p, n);
}

/// Looking up a specifier that a user alias names exactly, where the safety layer does not
/// name it, gives the user's last mapping for it, whatever the defaults say.
pub proof fn user_alias_decides_lookup(d: Seq<RuleModel>, u: Seq<RuleModel>, mode: NextMode, s: Seq<char>, i: int)
    requires
        last_rule_for(u, PatternModel::Exact(s), i),
        mode == NextMode::Development || s != overlay_path(),
    ensures
        lookup_of(composed_of(d, u, mode), s) == Some((PatternModel::Exact(s), u[i].1)),
{
    let sr = safety_rules_of(mode);
    assert forall|j: int| 0 <= j < sr.len() implies (#[trigger] sr[j]).0 != PatternModel::Exact(s) by {}
    user_alias_overrides_defaults(d, u, mode, PatternModel::Exact(s), i);
}

pub open spec fn app_phase_of(ty: ServerContextType) -> Phase {
    match ty {
        ServerContextType::AppSSR { .. } => Phase::Ssr,
        _ => Phase::Rsc,
    }
}

pub open spec fn app_dir_of(ty: ServerContextType) -> Seq<char> {
    match ty {
        ServerContextType::AppSSR { app_dir } => app_dir@,
        ServerContextType::AppRSC { app_dir } => app_dir@,
        ServerContextType::AppRoute { app_dir } => app_dir@,
        _ => Seq::empty(),
    }
}

/// On every app-router server layer, where no user alias names `react` exactly, looking up
/// `react` gives the build that the Selection Matrix picks for the runtime, the server-actions
/// switch and the layer's rendering phase, resolved from the app directory.
pub proof fn ui_runtime_follows_matrix(
    d: Seq<RuleModel>,
    ty: ServerContextType,
    runtime: NextRuntime,
    server_actions: bool,
    u: Seq<RuleModel>,
    mode: NextMode,
)
    requires
        ty is AppSSR || ty is AppRSC || ty is AppRoute,
        forall|j: int| 0 <= j < u.len() ==> (#[trigger] u[j]).0 != PatternModel::Exact("react"@),
    ensures
        lookup_of(composed_of(d + server_runtime_rules_of(ty, runtime, server_actions), u, mode), "react"@)
            == Some(
            (
                PatternModel::Exact("react"@),
                MappingModel::Direct {
                    request: select_of(RuntimeEntry::React, runtime, server_actions, app_phase_of(ty)),
                    base: app_dir_of(ty),
                },
            ),
        ),
{
    let react = PatternModel::Exact("react"@);
    let m = server_runtime_rules_of(ty, runtime, server_actions);
    let keys = if ty is AppSSR { ssr_keys_of() } else { rsc_keys_of() };
    assert(m == matrix_rules_of(keys, app_dir_of(ty), runtime, server_actions));
    reveal_strlit("react");
    reveal_strlit("react-dom");
    reveal_strlit("react/jsx-runtime");
    reveal_strlit("react/jsx-dev-runtime");
    reveal_strlit("react-server-dom-webpack/client.edge");
    reveal_strlit("react-server-dom-turbopack/client.edge");
    reveal_strlit("react-server-dom-webpack/server.edge");
    reveal_strlit("react-server-dom-turbopack/server.edge");
    reveal_strlit("react-server-dom-webpack/server.node");
    reveal_strlit("react-server-dom-turbopack/server.node");
    reveal_strlit("react-dom/server");
    reveal_strlit("react-dom/server.edge");
    reveal_strlit("next/dist/compiled/@next/react-dev-overlay/dist/client");
    assert forall|j: int| 2 < j < m.len() implies (#[trigger] m[j]).0 != react by {
        assert(keys[j].0@.len() != "react"@.len());
    }
    let sr = safety_rules_of(mode);
    assert forall|j: int| 0 <= j < sr.len() implies (#[trigger] sr[j]).0 != react by {
        assert(overlay_path().len() != "react"@.len());
    }
    let dm = d + m;
    let all = dm + u + sr;
    let n: int = d.len() + 2int;
    assert(all[n] == m[2]);
    assert forall|j: int| n < j < all.len() implies (#[trigger] all[j]).0 != react by {
        if j < dm.len() {
            assert(all[j] == m[j - d.len()]);
        } else if j < dm.len() + u.len() {
            assert(all[j] == u[j - dm.len()]);
        } else {
            assert(all[j] == sr[j - dm.len() - u.len()]);
        }
    }
    lemma_last_rule_wins(empty_table(), all, react, n);
}

/// In an Edge table of the app router, where no user alias names `react` exactly, looking up
/// `react` gives the compiled build resolved from the app directory: the experimental one
/// exactly where server actions are on.
pub proof fn edge_ui_runtime_follows_server_actions(
    project: Seq<char>,
    ty: ServerContextType,
    mode: NextMode,
    mdx: bool,
    server_actions: bool,
    next_package: Seq<char>,
    u: Seq<RuleModel>,
)
    requires
        ty is AppSSR || ty is AppRSC || ty is AppRoute,
        forall|j: int| 0 <= j < u.len() ==> (#[trigger] u[j]).0 != PatternModel::Exact("react"@),
    ensures
        lookup_of(composed_of(edge_defaults_of(project, ty, mode, mdx, server_actions, next_package), u, mode), "react"@)
            == Some(
            (
                PatternModel::Exact("react"@),
                MappingModel::Direct { request: compiled_of("react"@, server_actions), base: app_dir_of(ty) },
            ),
        ),
{
    let matrix = server_runtime_rules_of(ty, NextRuntime::Edge, server_actions);
    let d = pair_rules_of(false, project, edge_esm_pairs_of()) + pair_rules_of(true, project, edge_public_pairs_of())
        + shared_rules_of(project, next_package, mode, mdx) + pair_rules_of(true, project, optimized_pairs_of())
        + edge_routing_of(ty, project, server_actions) + special_rules_of(ty, NextRuntime::Edge, next_package)
        + server_guard_rules_of(ty, project, NextRuntime::Edge);
    assert(edge_defaults_of(project, ty, mode, mdx, server_actions, next_package) =~= d + matrix);
    ui_runtime_follows_matrix(d, ty, NextRuntime::Edge, server_actions, u, mode);
    reveal_strlit("");
    assert(compiled_of("react"@, server_actions) + ""@ =~= compiled_of("react"@, server_actions));
}

} // verus!
