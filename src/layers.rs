use vstd::prelude::*;
use vstd::string::*;
use crate::mapping::{ImportMapping, MappingModel};
use crate::table::{insert_of, AliasPattern, ImportMap, PatternModel, TableModel};

verus! {

/// The package name under which the framework's own virtual modules live.
pub const VIRTUAL_PACKAGE_NAME: &'static str = "@vercel/turbopack-next";

/// Root of the framework's embedded files.
pub const NEXT_EMBED_ROOT: &'static str = "[embedded]/next";

/// Root of the bundler's embedded runtime helpers.
pub const RUNTIME_EMBED_ROOT: &'static str = "[embedded]/ecmascript-runtime";

/// Root of the embedded Node.js helpers.
pub const NODE_EMBED_ROOT: &'static str = "[embedded]/node";

/// How the bundle is being built.
#[derive(PartialEq, Eq, Structural, Clone, Copy, Debug)]
pub enum NextMode {
    Development,
    Build,
}

/// One insertion into a table.
pub type Rule = (AliasPattern, ImportMapping);

pub type RuleModel = (PatternModel, MappingModel);

pub open spec fn rules_view(r: Seq<Rule>) -> Seq<RuleModel> {
    r.map_values(|x: Rule| (x.0@, x.1@))
}

/// `t` after inserting `rules` in order.
pub open spec fn apply_rules(t: TableModel, rules: Seq<RuleModel>) -> TableModel
    decreases rules.len(),
{
    if rules.len() == 0 {
        t
    } else {
        insert_of(apply_rules(t, rules.drop_last()), rules.last().0, rules.last().1)
    }
}

pub open spec fn empty_table() -> TableModel {
    TableModel { exact: Map::empty(), wildcard: Map::empty() }
}

/// The table built from `rules`, in order, into an empty one.
pub open spec fn table_of(rules: Seq<RuleModel>) -> TableModel {
    apply_rules(empty_table(), rules)
}

/// What the registry of `p`'s kind maps `p`'s key to.
pub open spec fn registered(t: TableModel, p: PatternModel) -> Option<MappingModel> {
    match p {
        PatternModel::Exact(k) => if t.exact.contains_key(k) {
            Some(t.exact[k])
        } else {
            None
        },
        PatternModel::Wildcard(k) => if t.wildcard.contains_key(k) {
            Some(t.wildcard[k])
        } else {
            None
        },
    }
}

/// `i` is the last rule of `rules` for the pattern `p`.
pub open spec fn last_rule_for(rules: Seq<RuleModel>, p: PatternModel, i: int) -> bool {
    &&& 0 <= i < rules.len()
    &&& rules[i].0 == p
    &&& forall|j: int| i < j < rules.len() ==> (#[trigger] rules[j]).0 != p
}

pub proof fn lemma_apply_concat(t: TableModel, a: Seq<RuleModel>, b: Seq<RuleModel>)
    ensures
        apply_rules(t, a + b) == apply_rules(apply_rules(t, a), b),
    decreases b.len(),
{
    if b.len() > 0 {
        assert((a + b).drop_last() =~= a + b.drop_last());
        lemma_apply_concat(t, a, b.drop_last());
    } else {
        assert(a + b =~= a);
    }
}

/// The last rule for a pattern decides what the table registers for it.
pub proof fn lemma_last_rule_wins(t: TableModel, rules: Seq<RuleModel>, p: PatternModel, i: int)
    requires
        last_rule_for(rules, p, i),
    ensures
        registered(apply_rules(t, rules), p) == Some(rules[i].1),
    decreases rules.len(),
{
    if i < rules.len() - 1 {
        let d = rules.drop_last();
        assert forall|j: int| i < j < d.len() implies (#[trigger] d[j]).0 != p by {
            assert(d[j] == rules[j]);
        }
        lemma_last_rule_wins(t, d, p, i);
        assert(d[i] == rules[i]);
    }
}

/// Inserts `rules` into `map` in order.
pub fn apply(map: &mut ImportMap, rules: Vec<Rule>)
    ensures
        final(map)@ == apply_rules(old(map)@, rules_view(rules@)),
{
    let ghost start = map@;
    let ghost rv = rules_view(rules@);
    let mut i: usize = 0;
    while i < rules.len()
        invariant
            i <= rules@.len(),
            rv == rules_view(rules@),
            map@ == apply_rules(start, rv.subrange(0, i as int)),
        decreases rules@.len() - i,
    {
        let (p, m) = (&rules[i].0, &rules[i].1);
        map.insert_alias(p, m.copy());
        proof {
            assert(rv.subrange(0, i + 1).drop_last() =~= rv.subrange(0, i as int));
        }
        i = i + 1;
    }
    proof {
        assert(rv.subrange(0, i as int) =~= rv);
    }
}

/// Resolve `request` from the directory `base`.
pub fn request_to_import_mapping(base: &str, request: &str) -> (r: ImportMapping)
    ensures
        r@ == (MappingModel::Direct { request: request@, base: base@ }),
{
    ImportMapping::Direct { request: request.to_owned(), base: base.to_owned() }
}

/// Leave the import to the host, under the name `request`.
pub fn external_request_to_import_mapping(request: &str) -> (r: ImportMapping)
    ensures
        r@ == MappingModel::External(Some(request@)),
{
    ImportMapping::External(Some(request.to_owned()))
}

pub fn exact(key: &str, m: ImportMapping) -> (r: Rule)
    ensures
        r.0@ == PatternModel::Exact(key@),
        r.1@ == m@,
{
    (AliasPattern::Exact(key.to_owned()), m)
}

pub fn wildcard(prefix: &str, m: ImportMapping) -> (r: Rule)
    ensures
        r.0@ == PatternModel::Wildcard(prefix@),
        r.1@ == m@,
{
    (AliasPattern::Wildcard(prefix.to_owned()), m)
}

pub open spec fn package_mapping_of(root: Seq<char>) -> MappingModel {
    MappingModel::Direct { request: "./*"@, base: root }
}

/// Maps everything under `prefix` to the same path inside `package_root`.
pub fn package_alias(prefix: &str, package_root: &str) -> (r: Rule)
    ensures
        r.0@ == PatternModel::Wildcard(prefix@),
        r.1@ == package_mapping_of(package_root@),
{
    wildcard(prefix, request_to_import_mapping(package_root, "./*"))
}

pub open spec fn virtual_prefix() -> Seq<char> {
    VIRTUAL_PACKAGE_NAME@ + "/"@
}

pub open spec fn runtime_prefix() -> Seq<char> {
    "@vercel/turbopack-ecmascript-runtime/"@
}

pub open spec fn overlay_path() -> Seq<char> {
    "next/dist/compiled/@next/react-dev-overlay/dist/client"@
}

pub open spec fn overlay_mapping() -> MappingModel {
    MappingModel::Direct { request: "./overlay/client.ts"@, base: NEXT_EMBED_ROOT@ }
}

/// The internal aliases that no user alias may replace: the virtual package namespace, the
/// bundler's runtime helpers and, outside development, the development overlay hook.
pub open spec fn safety_rules_of(mode: NextMode) -> Seq<RuleModel> {
    let base = seq![
        (PatternModel::Wildcard(virtual_prefix()), package_mapping_of(NEXT_EMBED_ROOT@)),
        (PatternModel::Wildcard(runtime_prefix()), package_mapping_of(RUNTIME_EMBED_ROOT@)),
    ];
    if mode == NextMode::Development {
        base
    } else {
        base.push((PatternModel::Exact(overlay_path()), overlay_mapping()))
    }
}

pub fn virtual_package_prefix() -> (r: String)
    ensures
        r@ == virtual_prefix(),
{
    let mut s = String::from_str(VIRTUAL_PACKAGE_NAME);
    s.append("/");
    s
}

pub fn overlay_rule() -> (r: Rule)
    ensures
        r.0@ == PatternModel::Exact(overlay_path()),
        r.1@ == overlay_mapping(),
{
    exact(
        "next/dist/compiled/@next/react-dev-overlay/dist/client",
        request_to_import_mapping(NEXT_EMBED_ROOT, "./overlay/client.ts"),
    )
}

/// The safety layer for `mode`.
pub fn safety_rules(mode: NextMode) -> (r: Vec<Rule>)
    ensures
        rules_view(r@) == safety_rules_of(mode),
{
    let mut r: Vec<Rule> = Vec::new();
    let p = virtual_package_prefix();
    r.push(package_alias(p.as_str(), NEXT_EMBED_ROOT));
    r.push(package_alias("@vercel/turbopack-ecmascript-runtime/", RUNTIME_EMBED_ROOT));
    if mode != NextMode::Development {
        r.push(overlay_rule());
    }
    proof {
        assert(rules_view(r@) =~= safety_rules_of(mode));
    }
    r
}

} // verus!
