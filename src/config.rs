use vstd::prelude::*;
use vstd::string::*;
use crate::layers::{apply, apply_rules, rules_view, Rule, RuleModel};
use crate::mapping::{opt_view, ImportMapping, MappingModel, Target, TargetModel};
use crate::table::{AliasPattern, ImportMap};

verus! {

/// One target of a user alias, used only where its condition (if any) is active.
#[derive(Clone, Debug)]
pub struct ConditionalTarget {
    pub condition: Option<String>,
    pub request: String,
}

/// A user alias from the project's settings: a pattern and its targets, in declared order.
#[derive(Clone, Debug)]
pub struct UserAlias {
    pub pattern: AliasPattern,
    pub targets: Vec<ConditionalTarget>,
}

/// The project's settings that the tables depend on.
#[derive(Clone, Debug)]
pub struct NextConfig {
    pub server_actions: bool,
    pub mdx_rs: bool,
    pub resolve_alias: Vec<UserAlias>,
}

pub open spec fn conditions_view(c: Seq<String>) -> Seq<Seq<char>> {
    c.map_values(|s: String| s@)
}

pub open spec fn is_active(t: ConditionalTarget, conditions: Seq<Seq<char>>) -> bool {
    match opt_view(t.condition) {
        None => true,
        Some(n) => conditions.contains(n),
    }
}

/// The requests of the active targets, in declared order.
pub open spec fn active_requests(ts: Seq<ConditionalTarget>, conditions: Seq<Seq<char>>) -> Seq<Seq<char>>
    decreases ts.len(),
{
    if ts.len() == 0 {
        Seq::empty()
    } else {
        active_requests(ts.drop_last(), conditions) + if is_active(ts.last(), conditions) {
            seq![ts.last().request@]
        } else {
            Seq::empty()
        }
    }
}

/// The mapping a user alias stands for: none where no target is active, a direct request
/// for one, and the chain of all of them, in order, for more.
pub open spec fn export_mapping_of(
    ts: Seq<ConditionalTarget>,
    conditions: Seq<Seq<char>>,
    project: Seq<char>,
) -> Option<MappingModel> {
    let rs = active_requests(ts, conditions);
    if rs.len() == 0 {
        None
    } else if rs.len() == 1 {
        Some(MappingModel::Direct { request: rs[0], base: project })
    } else {
        Some(
            MappingModel::Alternatives(
                rs.map_values(|r: Seq<char>| TargetModel::Direct { request: r, base: project }),
            ),
        )
    }
}

/// The user layer: one rule per alias that has an active target, in declared order.
pub open spec fn user_rules_of(
    aliases: Seq<UserAlias>,
    conditions: Seq<Seq<char>>,
    project: Seq<char>,
) -> Seq<RuleModel>
    decreases aliases.len(),
{
    if aliases.len() == 0 {
        Seq::empty()
    } else {
        let a = aliases.last();
        user_rules_of(aliases.drop_last(), conditions, project) + match export_mapping_of(
            a.targets@,
            conditions,
            project,
        ) {
            Some(m) => seq![(a.pattern@, m)],
            None => Seq::empty(),
        }
    }
}

fn contains_condition(conditions: &Vec<String>, name: &String) -> (r: bool)
    ensures
        r == conditions_view(conditions@).contains(name@),
{
    let ghost cv = conditions_view(conditions@);
    let mut i: usize = 0;
    while i < conditions.len()
        invariant
            i <= conditions@.len(),
            cv == conditions_view(conditions@),
            forall|j: int| 0 <= j < i ==> cv[j] != name@,
        decreases conditions@.len() - i,
    {
        if conditions[i] == *name {
            proof {
                assert(cv[i as int] == name@);
            }
            return true;
        }
        i = i + 1;
    }
    false
}

fn active_target_requests(ts: &Vec<ConditionalTarget>, conditions: &Vec<String>) -> (r: Vec<String>)
    ensures
        r@.map_values(|s: String| s@) == active_requests(ts@, conditions_view(conditions@)),
{
    let ghost cv = conditions_view(conditions@);
    let mut r: Vec<String> = Vec::new();
    let mut i: usize = 0;
    while i < ts.len()
        invariant
            i <= ts@.len(),
            cv == conditions_view(conditions@),
            r@.map_values(|s: String| s@) == active_requests(ts@.subrange(0, i as int), cv),
        decreases ts@.len() - i,
    {
        let t = &ts[i];
        let active = match &t.condition {
            None => true,
            Some(n) => contains_condition(conditions, n),
        };
        let ghost before = r@;
        if active {
            r.push(t.request.clone());
        }
        proof {
            assert(ts@.subrange(0, i + 1).drop_last() =~= ts@.subrange(0, i as int));
            assert(ts@.subrange(0, i + 1).last() == ts@[i as int]);
            if active {
                assert(r@.map_values(|s: String| s@) =~= before.map_values(|s: String| s@) + seq![
                    t.request@,
                ]);
            } else {
                assert(r@.map_values(|s: String| s@) =~= before.map_values(|s: String| s@) + Seq::<
                    Seq<char>,
                >::empty());
            }
        }
        i = i + 1;
    }
    proof {
        assert(ts@.subrange(0, i as int) =~= ts@);
    }
    r
}

/// The mapping that a user alias's targets stand for under the active `conditions`.
pub fn export_value_to_import_mapping(
    targets: &Vec<ConditionalTarget>,
    conditions: &Vec<String>,
    project_path: &str,
) -> (r: Option<ImportMapping>)
    ensures
        match r {
            Some(m) => export_mapping_of(targets@, conditions_view(conditions@), project_path@) == Some(m@),
            None => export_mapping_of(targets@, conditions_view(conditions@), project_path@) is None,
        },
{
    let rs = active_target_requests(targets, conditions);
    let ghost rv = rs@.map_values(|s: String| s@);
    if rs.len() == 0 {
        None
    } else if rs.len() == 1 {
        proof {
            assert(rv[0] == rs@[0]@);
        }
        Some(ImportMapping::Direct { request: rs[0].clone(), base: project_path.to_owned() })
    } else {
        let mut out: Vec<Target> = Vec::new();
        let mut i: usize = 0;
        while i < rs.len()
            invariant
                i <= rs@.len(),
                rv == rs@.map_values(|s: String| s@),
                out@.len() == i,
                forall|j: int| 0 <= j < i ==> #[trigger] out@[j]@ == (TargetModel::Direct {
                    request: rs@[j]@,
                    base: project_path@,
                }),
            decreases rs@.len() - i,
        {
            out.push(Target::Direct { request: rs[i].clone(), base: project_path.to_owned() });
            i = i + 1;
        }
        let m = ImportMapping::Alternatives(out);
        proof {
            assert(out@.map_values(|t: Target| t@) =~= rv.map_values(
                |r: Seq<char>| TargetModel::Direct { request: r, base: project_path@ },
            ));
        }
        Some(m)
    }
}

/// The user layer as rules, in declared order.
pub fn user_rules(aliases: &Vec<UserAlias>, conditions: &Vec<String>, project_path: &str) -> (r: Vec<Rule>)
    ensures
        rules_view(r@) == user_rules_of(aliases@, conditions_view(conditions@), project_path@),
{
    let ghost cv = conditions_view(conditions@);
    let mut r: Vec<Rule> = Vec::new();
    let mut i: usize = 0;
    while i < aliases.len()
        invariant
            i <= aliases@.len(),
            cv == conditions_view(conditions@),
            rules_view(r@) == user_rules_of(aliases@.subrange(0, i as int), cv, project_path@),
        decreases aliases@.len() - i,
    {
        let a = &aliases[i];
        let ghost before = r@;
        proof {
            assert(aliases@.subrange(0, i + 1).drop_last() =~= aliases@.subrange(0, i as int));
            assert(aliases@.subrange(0, i + 1).last() == aliases@[i as int]);
        }
        match export_value_to_import_mapping(&a.targets, conditions, project_path) {
            Some(m) => {
                r.push((a.pattern.clone_pattern(), m));
                proof {
                    assert(rules_view(r@) =~= rules_view(before) + seq![(a.pattern@, m@)]);
                }
            },
            None => {
                proof {
                    assert(rules_view(r@) =~= rules_view(before) + Seq::<RuleModel>::empty());
                }
            },
        }
        i = i + 1;
    }
    proof {
        assert(aliases@.subrange(0, i as int) =~= aliases@);
    }
    r
}

/// Inserts the user's aliases, in declared order, each resolved under `conditions` and
/// from `project_path`.
pub fn insert_alias_option(
    import_map: &mut ImportMap,
    project_path: &str,
    alias_options: &Vec<UserAlias>,
    conditions: &Vec<String>,
)
    ensures
        final(import_map)@ == apply_rules(
            old(import_map)@,
            user_rules_of(alias_options@, conditions_view(conditions@), project_path@),
        ),
{
    let rules = user_rules(alias_options, conditions, project_path);
    apply(import_map, rules);
}

} // verus!
