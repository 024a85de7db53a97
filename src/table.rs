use vstd::prelude::*;
use vstd::string::*;
use crate::mapping::{
    answers_view, mapping_with_capture, step_of, AnswerModel, ImportMapping, MappingModel, ResolvedAnswer, Step,
    StepModel,
};
use crate::text::starts_with;
use crate::text::suffix_after;

verus! {

/// How an alias matches a specifier.
#[derive(Clone, Debug)]
pub enum AliasPattern {
    /// The specifier must equal the string.
    Exact(String),
    /// The specifier must start with the string; the rest of it is captured.
    Wildcard(String),
}

pub enum PatternModel {
    Exact(Seq<char>),
    Wildcard(Seq<char>),
}

impl View for AliasPattern {
    type V = PatternModel;

    open spec fn view(&self) -> PatternModel {
        match self {
            AliasPattern::Exact(s) => PatternModel::Exact(s@),
            AliasPattern::Wildcard(s) => PatternModel::Wildcard(s@),
        }
    }
}

pub type Entry = (String, ImportMapping);

/// The model of one registry, read in insertion order: a later entry for a key replaces
/// an earlier one.
pub open spec fn registry_of(e: Seq<Entry>) -> Map<Seq<char>, MappingModel>
    decreases e.len(),
{
    if e.len() == 0 {
        Map::empty()
    } else {
        registry_of(e.drop_last()).insert(e.last().0@, e.last().1@)
    }
}

pub struct TableModel {
    pub exact: Map<Seq<char>, MappingModel>,
    pub wildcard: Map<Seq<char>, MappingModel>,
}

/// Two registries of aliases: one keyed by exact specifiers, one by wildcard prefixes.
pub struct ImportMap {
    exact: Vec<Entry>,
    wildcard: Vec<Entry>,
}

impl View for ImportMap {
    type V = TableModel;

    closed spec fn view(&self) -> TableModel {
        TableModel { exact: registry_of(self.exact@), wildcard: registry_of(self.wildcard@) }
    }
}

/// `k` is the longest wildcard key of `w` that is a prefix of `s`.
pub open spec fn is_longest_prefix(w: Map<Seq<char>, MappingModel>, s: Seq<char>, k: Seq<char>) -> bool {
    &&& w.contains_key(k)
    &&& k.is_prefix_of(s)
    &&& forall|k2: Seq<char>| w.contains_key(k2) && k2.is_prefix_of(s) ==> k2.len() <= k.len()
}

/// Some wildcard key of `w` is a prefix of `s`.
pub open spec fn has_prefix_key(w: Map<Seq<char>, MappingModel>, s: Seq<char>) -> bool {
    exists|k: Seq<char>| w.contains_key(k) && k.is_prefix_of(s)
}

/// What the table answers for `s`: an exact alias first, else the wildcard alias with the
/// longest prefix of `s`, its mapping given the rest of `s` as the capture.
pub open spec fn lookup_of(t: TableModel, s: Seq<char>) -> Option<(PatternModel, MappingModel)> {
    if t.exact.contains_key(s) {
        Some((PatternModel::Exact(s), t.exact[s]))
    } else if exists|k: Seq<char>| is_longest_prefix(t.wildcard, s, k) {
        let k = choose|k: Seq<char>| is_longest_prefix(t.wildcard, s, k);
        Some(
            (
                PatternModel::Wildcard(k),
                mapping_with_capture(t.wildcard[k], s.subrange(k.len() as int, s.len() as int)),
            ),
        )
    } else {
        None
    }
}

pub open spec fn lookup_view(r: Option<(AliasPattern, ImportMapping)>) -> Option<(PatternModel, MappingModel)> {
    match r {
        Some((p, m)) => Some((p@, m@)),
        None => None,
    }
}

proof fn lemma_registry_has(e: Seq<Entry>, k: Seq<char>)
    ensures
        registry_of(e).contains_key(k) <==> exists|i: int| 0 <= i < e.len() && (#[trigger] e[i]).0@ == k,
    decreases e.len(),
{
    if e.len() > 0 {
        lemma_registry_has(e.drop_last(), k);
        if registry_of(e.drop_last()).contains_key(k) {
            let i = choose|i: int| 0 <= i < e.drop_last().len() && (#[trigger] e.drop_last()[i]).0@ == k;
            assert(e[i] == e.drop_last()[i]);
        }
        if exists|i: int| 0 <= i < e.len() && (#[trigger] e[i]).0@ == k {
            let i = choose|i: int| 0 <= i < e.len() && (#[trigger] e[i]).0@ == k;
            if i < e.len() - 1 {
                assert(e.drop_last()[i] == e[i]);
            }
        }
    }
}

proof fn lemma_registry_last(e: Seq<Entry>, i: int)
    requires
        0 <= i < e.len(),
        forall|j: int| i < j < e.len() ==> (#[trigger] e[j]).0@ != e[i].0@,
    ensures
        registry_of(e).contains_key(e[i].0@),
        registry_of(e)[e[i].0@] == e[i].1@,
    decreases e.len(),
{
    if i < e.len() - 1 {
        let d = e.drop_last();
        assert forall|j: int| i < j < d.len() implies (#[trigger] d[j]).0@ != d[i].0@ by {
            assert(d[j] == e[j]);
        }
        lemma_registry_last(d, i);
        assert(d[i] == e[i]);
    }
}

proof fn lemma_prefixes_equal(a: Seq<char>, b: Seq<char>, s: Seq<char>)
    requires
        a.is_prefix_of(s),
        b.is_prefix_of(s),
        a.len() == b.len(),
    ensures
        a == b,
{
    assert(a =~= b);
}

impl ImportMap {
    pub fn empty() -> (r: ImportMap)
        ensures
            r@.exact == Map::<Seq<char>, MappingModel>::empty(),
            r@.wildcard == Map::<Seq<char>, MappingModel>::empty(),
    {
        ImportMap { exact: Vec::new(), wildcard: Vec::new() }
    }

    /// Maps the specifier `pattern` to `mapping`, replacing what it mapped to before.
    pub fn insert_exact_alias(&mut self, pattern: &str, mapping: ImportMapping)
        ensures
            final(self)@.exact == old(self)@.exact.insert(pattern@, mapping@),
            final(self)@.wildcard == old(self)@.wildcard,
    {
        let ghost e = self.exact@;
        self.exact.push((pattern.to_owned(), mapping));
        proof {
            assert(self.exact@.drop_last() =~= e);
        }
    }

    /// Maps every specifier that starts with `prefix` to `mapping`, the rest of the specifier
    /// filling its placeholder; replaces what `prefix` mapped to before.
    pub fn insert_wildcard_alias(&mut self, prefix: &str, mapping: ImportMapping)
        ensures
            final(self)@.wildcard == old(self)@.wildcard.insert(prefix@, mapping@),
            final(self)@.exact == old(self)@.exact,
    {
        let ghost e = self.wildcard@;
        self.wildcard.push((prefix.to_owned(), mapping));
        proof {
            assert(self.wildcard@.drop_last() =~= e);
        }
    }

    /// Inserts `mapping` into the registry that `pattern` belongs to.
    pub fn insert_alias(&mut self, pattern: &AliasPattern, mapping: ImportMapping)
        ensures
            final(self)@ == insert_of(old(self)@, pattern@, mapping@),
    {
        match pattern {
            AliasPattern::Exact(s) => self.insert_exact_alias(s.as_str(), mapping),
            AliasPattern::Wildcard(s) => self.insert_wildcard_alias(s.as_str(), mapping),
        }
    }

    fn find_exact(&self, s: &str) -> (r: Option<usize>)
        ensures
            match r {
                Some(i) => i < self.exact@.len() && self.exact@[i as int].0@ == s@ && forall|j: int|
                    i < j < self.exact@.len() ==> (#[trigger] self.exact@[j]).0@ != s@,
                None => forall|j: int| 0 <= j < self.exact@.len() ==> (#[trigger] self.exact@[j]).0@ != s@,
            },
    {
        let mut i: usize = self.exact.len();
        while i > 0
            invariant
                i <= self.exact@.len(),
                forall|j: int| i <= j < self.exact@.len() ==> (#[trigger] self.exact@[j]).0@ != s@,
            decreases i,
        {
            let k = &self.exact[i - 1].0;
            if starts_with(k.as_str(), s) && k.unicode_len() == s.unicode_len() {
                proof {
                    assert(s@ =~= k@);
                }
                return Some(i - 1);
            }
            i = i - 1;
        }
        None
    }

    fn find_wildcard(&self, s: &str) -> (r: Option<usize>)
        ensures
            match r {
                Some(b) => {
                    &&& b < self.wildcard@.len()
                    &&& self.wildcard@[b as int].0@.is_prefix_of(s@)
                    &&& forall|j: int|
                        0 <= j < self.wildcard@.len() && (#[trigger] self.wildcard@[j]).0@.is_prefix_of(s@)
                            ==> self.wildcard@[j].0@.len() <= self.wildcard@[b as int].0@.len()
                    &&& forall|j: int|
                        b < j < self.wildcard@.len() && (#[trigger] self.wildcard@[j]).0@.is_prefix_of(s@)
                            ==> self.wildcard@[j].0@.len() < self.wildcard@[b as int].0@.len()
                },
                None => forall|j: int|
                    0 <= j < self.wildcard@.len() ==> !(#[trigger] self.wildcard@[j]).0@.is_prefix_of(s@),
            },
    {
        let w = &self.wildcard;
        let mut best: Option<usize> = None;
        let mut best_len: usize = 0;
        let mut i: usize = 0;
        while i < w.len()
            invariant
                i <= w@.len(),
                match best {
                    Some(b) => {
                        &&& b < i
                        &&& best_len == w@[b as int].0@.len()
                        &&& w@[b as int].0@.is_prefix_of(s@)
                        &&& forall|j: int| 0 <= j < i && (#[trigger] w@[j]).0@.is_prefix_of(s@)
                            ==> w@[j].0@.len() <= best_len
                        &&& forall|j: int| b < j < i && (#[trigger] w@[j]).0@.is_prefix_of(s@)
                            ==> w@[j].0@.len() < best_len
                    },
                    None => forall|j: int| 0 <= j < i ==> !(#[trigger] w@[j]).0@.is_prefix_of(s@),
                },
            decreases w@.len() - i,
        {
            let k = &w[i].0;
            if starts_with(s, k.as_str()) {
                let n = k.unicode_len();
                match best {
                    Some(_) => {
                        if n >= best_len {
                            best = Some(i);
                            best_len = n;
                        }
                    },
                    None => {
                        best = Some(i);
                        best_len = n;
                    },
                }
            }
            i = i + 1;
        }
        best
    }

    /// The alias that applies to `specifier`, if any, with the captured rest of the specifier
    /// filled into a wildcard's mapping.
    pub fn lookup(&self, specifier: &str) -> (r: Option<(AliasPattern, ImportMapping)>)
        ensures
            lookup_view(r) == lookup_of(self@, specifier@),
    {
        let s = specifier;
        match self.find_exact(s) {
            Some(i) => {
                proof {
                    lemma_registry_last(self.exact@, i as int);
                }
                return Some((AliasPattern::Exact(s.to_owned()), self.exact[i].1.copy()));
            },
            None => {
                proof {
                    lemma_registry_has(self.exact@, s@);
                }
            },
        }
        let w = &self.wildcard;
        match self.find_wildcard(s) {
            Some(b) => {
                let k = &w[b].0;
                let n = k.unicode_len();
                let cap = suffix_after(s, n);
                let m = w[b].1.with_capture(cap.as_str());
                proof {
                    lemma_registry_last(w@, b as int);
                    let reg = registry_of(w@);
                    assert forall|k2: Seq<char>| reg.contains_key(k2) && k2.is_prefix_of(s@)
                        implies k2.len() <= k@.len() by {
                        lemma_registry_has(w@, k2);
                        let j = choose|j: int| 0 <= j < w@.len() && (#[trigger] w@[j]).0@ == k2;
                    }
                    assert(is_longest_prefix(reg, s@, k@));
                    let kc = choose|k: Seq<char>| is_longest_prefix(reg, s@, k);
                    lemma_prefixes_equal(kc, k@, s@);
                }
                Some((AliasPattern::Wildcard(k.clone()), m))
            },
            None => {
                proof {
                    let reg = registry_of(w@);
                    assert forall|k: Seq<char>| !is_longest_prefix(reg, s@, k) by {
                        lemma_registry_has(w@, k);
                        if reg.contains_key(k) {
                            let j = choose|j: int| 0 <= j < w@.len() && (#[trigger] w@[j]).0@ == k;
                        }
                    }
                }
                None
            },
        }
    }
}

pub open spec fn insert_of(t: TableModel, p: PatternModel, m: MappingModel) -> TableModel {
    match p {
        PatternModel::Exact(s) => TableModel { exact: t.exact.insert(s, m), wildcard: t.wildcard },
        PatternModel::Wildcard(s) => TableModel { exact: t.exact, wildcard: t.wildcard.insert(s, m) },
    }
}

} // verus!

verus! {

impl AliasPattern {
    pub fn clone_pattern(&self) -> (r: AliasPattern)
        ensures
            r@ == self@,
    {
        match self {
            AliasPattern::Exact(s) => AliasPattern::Exact(s.clone()),
            AliasPattern::Wildcard(s) => AliasPattern::Wildcard(s.clone()),
        }
    }
}

/// The resolver's next step for `s` in table `t`: `NoMatch` where no alias applies, else the
/// step of the alias's mapping.
pub open spec fn table_step_of(
    t: TableModel,
    s: Seq<char>,
    context: Seq<char>,
    answers: Seq<Option<Seq<char>>>,
) -> StepModel {
    match lookup_of(t, s) {
        None => StepModel::Done(AnswerModel::NoMatch),
        Some((_, m)) => step_of(m, s, context, answers),
    }
}

impl ImportMap {
    /// What the bundler gets for `specifier` imported from `context`: `answers` holds the
    /// oracle's replies to the probes asked so far for it, in order.
    pub fn resolve_step(&self, specifier: &str, context: &str, answers: &Vec<Option<String>>) -> (r: Step)
        ensures
            r@ == table_step_of(self@, specifier@, context@, answers_view(answers@)),
    {
        match self.lookup(specifier) {
            None => Step::Done(ResolvedAnswer::NoMatch),
            Some((_, m)) => m.next_step(specifier, context, answers),
        }
    }
}

} // verus!
