use vstd::prelude::*;
use vstd::string::*;
use crate::layers::{exact, request_to_import_mapping, Rule, RuleModel, rules_view};
use crate::mapping::MappingModel;
use crate::matrix::{select_of, select_runtime_request, NextRuntime, Phase, RuntimeEntry};
use crate::table::PatternModel;

verus! {

/// An exact alias whose target the Selection Matrix picks.
pub type MatrixKey = (&'static str, RuntimeEntry, Phase);

pub open spec fn matrix_rules_of(
    keys: Seq<MatrixKey>,
    base: Seq<char>,
    runtime: NextRuntime,
    server_actions: bool,
) -> Seq<RuleModel> {
    keys.map_values(
        |k: MatrixKey|
            (
                PatternModel::Exact(k.0@),
                MappingModel::Direct { request: select_of(k.1, runtime, server_actions, k.2), base },
            ),
    )
}

/// The matrix-selected aliases of the server-rendering layer of the app router.
pub open spec fn ssr_keys_of() -> Seq<MatrixKey> {
    seq![
        ("react/jsx-runtime", RuntimeEntry::JsxRuntime, Phase::Ssr),
        ("react/jsx-dev-runtime", RuntimeEntry::JsxDevRuntime, Phase::Ssr),
        ("react", RuntimeEntry::React, Phase::Ssr),
        ("react-dom", RuntimeEntry::ReactDom, Phase::Ssr),
        ("react-server-dom-webpack/client.edge", RuntimeEntry::ServerDomClientEdge, Phase::Ssr),
        ("react-server-dom-turbopack/client.edge", RuntimeEntry::ServerDomClientEdge, Phase::Ssr),
        ("react-dom/server", RuntimeEntry::ReactDomServerEdge, Phase::Ssr),
        ("react-dom/server.edge", RuntimeEntry::ReactDomServerEdge, Phase::Ssr),
    ]
}

/// The matrix-selected aliases of the server-component and route layers of the app router.
/// The server renderer of `react-dom` always comes from the rendering phase.
pub open spec fn rsc_keys_of() -> Seq<MatrixKey> {
    seq![
        ("react/jsx-runtime", RuntimeEntry::JsxRuntime, Phase::Rsc),
        ("react/jsx-dev-runtime", RuntimeEntry::JsxDevRuntime, Phase::Rsc),
        ("react", RuntimeEntry::React, Phase::Rsc),
        ("react-dom", RuntimeEntry::ReactDom, Phase::Rsc),
        ("react-server-dom-webpack/server.edge", RuntimeEntry::ServerDomServerEdge, Phase::Rsc),
        ("react-server-dom-turbopack/server.edge", RuntimeEntry::ServerDomServerEdge, Phase::Rsc),
        ("react-server-dom-webpack/server.node", RuntimeEntry::ServerDomServerNode, Phase::Rsc),
        ("react-server-dom-turbopack/server.node", RuntimeEntry::ServerDomServerNode, Phase::Rsc),
        ("react-dom/server.edge", RuntimeEntry::ReactDomServerEdge, Phase::Ssr),
    ]
}

pub fn ssr_keys() -> (r: Vec<MatrixKey>)
    ensures
        r@ == ssr_keys_of(),
{
    let r = vec![
        ("react/jsx-runtime", RuntimeEntry::JsxRuntime, Phase::Ssr),
        ("react/jsx-dev-runtime", RuntimeEntry::JsxDevRuntime, Phase::Ssr),
        ("react", RuntimeEntry::React, Phase::Ssr),
        ("react-dom", RuntimeEntry::ReactDom, Phase::Ssr),
        ("react-server-dom-webpack/client.edge", RuntimeEntry::ServerDomClientEdge, Phase::Ssr),
        ("react-server-dom-turbopack/client.edge", RuntimeEntry::ServerDomClientEdge, Phase::Ssr),
        ("react-dom/server", RuntimeEntry::ReactDomServerEdge, Phase::Ssr),
        ("react-dom/server.edge", RuntimeEntry::ReactDomServerEdge, Phase::Ssr),
    ];
    proof {
        assert(r@ =~= ssr_keys_of());
    }
    r
}

pub fn rsc_keys() -> (r: Vec<MatrixKey>)
    ensures
        r@ == rsc_keys_of(),
{
    let r = vec![
        ("react/jsx-runtime", RuntimeEntry::JsxRuntime, Phase::Rsc),
        ("react/jsx-dev-runtime", RuntimeEntry::JsxDevRuntime, Phase::Rsc),
        ("react", RuntimeEntry::React, Phase::Rsc),
        ("react-dom", RuntimeEntry::ReactDom, Phase::Rsc),
        ("react-server-dom-webpack/server.edge", RuntimeEntry::ServerDomServerEdge, Phase::Rsc),
        ("react-server-dom-turbopack/server.edge", RuntimeEntry::ServerDomServerEdge, Phase::Rsc),
        ("react-server-dom-webpack/server.node", RuntimeEntry::ServerDomServerNode, Phase::Rsc),
        ("react-server-dom-turbopack/server.node", RuntimeEntry::ServerDomServerNode, Phase::Rsc),
        ("react-dom/server.edge", RuntimeEntry::ReactDomServerEdge, Phase::Ssr),
    ];
    proof {
        assert(r@ =~= rsc_keys_of());
    }
    r
}

/// One exact alias per key, each resolved from `base` to what the matrix selects.
pub fn matrix_rules(keys: &Vec<MatrixKey>, base: &str, runtime: NextRuntime, server_actions: bool) -> (r: Vec<Rule>)
    ensures
        rules_view(r@) == matrix_rules_of(keys@, base@, runtime, server_actions),
{
    let mut r: Vec<Rule> = Vec::new();
    let mut i: usize = 0;
    while i < keys.len()
        invariant
            i <= keys@.len(),
            r@.len() == i,
            forall|j: int| 0 <= j < i ==> #[trigger] rules_view(r@)[j] == matrix_rules_of(
                keys@,
                base@,
                runtime,
                server_actions,
            )[j],
        decreases keys@.len() - i,
    {
        let (key, entry, phase) = keys[i];
        let request = select_runtime_request(entry, runtime, server_actions, phase);
        let ghost before = r@;
        r.push(exact(key, request_to_import_mapping(base, request.as_str())));
        proof {
            assert forall|j: int| 0 <= j < i + 1 implies #[trigger] rules_view(r@)[j] == matrix_rules_of(
                keys@,
                base@,
                runtime,
                server_actions,
            )[j] by {
                if j < i {
                    assert(r@[j] == before[j]);
                    assert(rules_view(before)[j] == matrix_rules_of(keys@, base@, runtime, server_actions)[j]);
                }
            }
        }
        i = i + 1;
    }
    proof {
        assert(rules_view(r@) =~= matrix_rules_of(keys@, base@, runtime, server_actions));
    }
    r
}

} // verus!
