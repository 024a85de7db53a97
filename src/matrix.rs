use vstd::prelude::*;
use vstd::string::*;

verus! {

/// Where server code runs.
#[derive(PartialEq, Eq, Structural, Clone, Copy, Debug)]
pub enum NextRuntime {
    NodeJs,
    Edge,
}

/// The rendering phase of an app-router server layer.
#[derive(PartialEq, Eq, Structural, Clone, Copy, Debug)]
pub enum Phase {
    Ssr,
    Rsc,
}

/// The entry points of the UI runtime, JSX runtime and streaming runtime whose build
/// variant the matrix picks.
#[derive(PartialEq, Eq, Structural, Clone, Copy, Debug)]
pub enum RuntimeEntry {
    React,
    ReactDom,
    JsxRuntime,
    JsxDevRuntime,
    ServerDomClientEdge,
    ServerDomServerEdge,
    ServerDomServerNode,
    ReactDomServerEdge,
}

pub open spec fn compiled_root() -> Seq<char> {
    "next/dist/compiled/"@
}

pub open spec fn vendored_root() -> Seq<char> {
    "next/dist/server/future/route-modules/app-page/vendored/"@
}

pub open spec fn experimental_suffix() -> Seq<char> {
    "-experimental"@
}

/// The suffix of the compiled variant: the experimental one where server actions are on.
pub open spec fn flavor_of(server_actions: bool) -> Seq<char> {
    if server_actions {
        experimental_suffix()
    } else {
        Seq::empty()
    }
}

pub open spec fn package_of(e: RuntimeEntry) -> Seq<char> {
    match e {
        RuntimeEntry::React | RuntimeEntry::JsxRuntime | RuntimeEntry::JsxDevRuntime => "react"@,
        RuntimeEntry::ReactDom | RuntimeEntry::ReactDomServerEdge => "react-dom"@,
        _ => "react-server-dom-turbopack"@,
    }
}

pub open spec fn subpath_of(e: RuntimeEntry) -> Seq<char> {
    match e {
        RuntimeEntry::React | RuntimeEntry::ReactDom => Seq::empty(),
        RuntimeEntry::JsxRuntime => "/jsx-runtime"@,
        RuntimeEntry::JsxDevRuntime => "/jsx-dev-runtime"@,
        RuntimeEntry::ServerDomClientEdge => "/client.edge"@,
        RuntimeEntry::ServerDomServerEdge | RuntimeEntry::ReactDomServerEdge => "/server.edge"@,
        RuntimeEntry::ServerDomServerNode => "/server.node"@,
    }
}

pub open spec fn vendored_name_of(e: RuntimeEntry) -> Seq<char> {
    match e {
        RuntimeEntry::React => "react"@,
        RuntimeEntry::ReactDom => "react-dom"@,
        RuntimeEntry::JsxRuntime => "react-jsx-runtime"@,
        RuntimeEntry::JsxDevRuntime => "react-jsx-dev-runtime"@,
        RuntimeEntry::ServerDomClientEdge => "react-server-dom-turbopack-client-edge"@,
        RuntimeEntry::ServerDomServerEdge => "react-server-dom-turbopack-server-edge"@,
        RuntimeEntry::ServerDomServerNode => "react-server-dom-turbopack-server-node"@,
        RuntimeEntry::ReactDomServerEdge => "react-dom-server-edge"@,
    }
}

pub open spec fn phase_name_of(p: Phase) -> Seq<char> {
    match p {
        Phase::Ssr => "ssr"@,
        Phase::Rsc => "rsc"@,
    }
}

/// The compiled build of `package`, experimental or standard.
pub open spec fn compiled_of(package: Seq<char>, server_actions: bool) -> Seq<char> {
    compiled_root() + package + flavor_of(server_actions)
}

/// The request that the matrix picks for `entry`.
pub open spec fn select_of(entry: RuntimeEntry, runtime: NextRuntime, server_actions: bool, phase: Phase) -> Seq<char> {
    match runtime {
        NextRuntime::Edge => compiled_of(package_of(entry), server_actions) + subpath_of(entry),
        NextRuntime::NodeJs => vendored_root() + phase_name_of(phase) + "/"@ + vendored_name_of(entry),
    }
}

fn package_name(e: RuntimeEntry) -> (r: &'static str)
    ensures
        r@ == package_of(e),
{
    match e {
        RuntimeEntry::React | RuntimeEntry::JsxRuntime | RuntimeEntry::JsxDevRuntime => "react",
        RuntimeEntry::ReactDom | RuntimeEntry::ReactDomServerEdge => "react-dom",
        _ => "react-server-dom-turbopack",
    }
}

fn subpath(e: RuntimeEntry) -> (r: &'static str)
    ensures
        r@ == subpath_of(e),
{
    match e {
        RuntimeEntry::React | RuntimeEntry::ReactDom => {
            proof {
                reveal_strlit("");
            }
            ""
        },
        RuntimeEntry::JsxRuntime => "/jsx-runtime",
        RuntimeEntry::JsxDevRuntime => "/jsx-dev-runtime",
        RuntimeEntry::ServerDomClientEdge => "/client.edge",
        RuntimeEntry::ServerDomServerEdge | RuntimeEntry::ReactDomServerEdge => "/server.edge",
        RuntimeEntry::ServerDomServerNode => "/server.node",
    }
}

fn vendored_name(e: RuntimeEntry) -> (r: &'static str)
    ensures
        r@ == vendored_name_of(e),
{
    match e {
        RuntimeEntry::React => "react",
        RuntimeEntry::ReactDom => "react-dom",
        RuntimeEntry::JsxRuntime => "react-jsx-runtime",
        RuntimeEntry::JsxDevRuntime => "react-jsx-dev-runtime",
        RuntimeEntry::ServerDomClientEdge => "react-server-dom-turbopack-client-edge",
        RuntimeEntry::ServerDomServerEdge => "react-server-dom-turbopack-server-edge",
        RuntimeEntry::ServerDomServerNode => "react-server-dom-turbopack-server-node",
        RuntimeEntry::ReactDomServerEdge => "react-dom-server-edge",
    }
}

/// The compiled build of `package`: `next/dist/compiled/<package>`, with `-experimental`
/// appended where server actions are on.
pub fn compiled(package: &str, server_actions: bool) -> (r: String)
    ensures
        r@ == compiled_of(package@, server_actions),
{
    let mut s = String::from_str("next/dist/compiled/");
    s.append(package);
    if server_actions {
        s.append("-experimental");
    } else {
        proof {
            assert(s@ + flavor_of(false) =~= s@);
        }
    }
    s
}

/// The Selection Matrix: the request for `entry` under the given runtime and server-actions
/// switch. On Edge it is the compiled build, experimental exactly where server actions are on;
/// on Node.js it is the vendored build of the rendering `phase`, whatever the switch.
pub fn select_runtime_request(entry: RuntimeEntry, runtime: NextRuntime, server_actions: bool, phase: Phase) -> (r: String)
    ensures
        r@ == select_of(entry, runtime, server_actions, phase),
{
    match runtime {
        NextRuntime::Edge => {
            let mut s = compiled(package_name(entry), server_actions);
            s.append(subpath(entry));
            s
        },
        NextRuntime::NodeJs => {
            let mut s = String::from_str("next/dist/server/future/route-modules/app-page/vendored/");
            match phase {
                Phase::Ssr => s.append("ssr"),
                Phase::Rsc => s.append("rsc"),
            }
            s.append("/");
            s.append(vendored_name(entry));
            s
        },
    }
}

} // verus!
