use vstd::prelude::*;
use vstd::string::*;
use crate::text::{fill, fill_capture};

verus! {

/// A pluggable resolver that a dynamic mapping defers to.
#[derive(PartialEq, Eq, Structural, Clone, Copy, Debug)]
pub enum HandlerKind {
    FontGoogle,
    FontGoogleCssModule,
    FontLocal,
    FontLocalCssModule,
}

/// One alternative of a fallback chain.
#[derive(Clone, Debug)]
pub enum Target {
    /// Resolve `request` starting from the directory `base`.
    Direct { request: String, base: String },
    /// Leave the import to the host, under the given name or the specifier itself.
    External(Option<String>),
}

pub enum TargetModel {
    Direct { request: Seq<char>, base: Seq<char> },
    External(Option<Seq<char>>),
}

/// What an alias maps a specifier to.
#[derive(Clone, Debug)]
pub enum ImportMapping {
    Direct { request: String, base: String },
    External(Option<String>),
    /// Tried in order; the first one that resolves wins.
    Alternatives(Vec<Target>),
    /// Every requester gets this one package root.
    Singleton(String),
    Dynamic(HandlerKind),
}

pub enum MappingModel {
    Direct { request: Seq<char>, base: Seq<char> },
    External(Option<Seq<char>>),
    Alternatives(Seq<TargetModel>),
    Singleton(Seq<char>),
    Dynamic(HandlerKind),
}

pub open spec fn opt_view(o: Option<String>) -> Option<Seq<char>> {
    match o {
        Some(s) => Some(s@),
        None => None,
    }
}

impl View for Target {
    type V = TargetModel;

    open spec fn view(&self) -> TargetModel {
        match self {
            Target::Direct { request, base } => TargetModel::Direct { request: request@, base: base@ },
            Target::External(name) => TargetModel::External(opt_view(*name)),
        }
    }
}

impl View for ImportMapping {
    type V = MappingModel;

    open spec fn view(&self) -> MappingModel {
        match self {
            ImportMapping::Direct { request, base } => MappingModel::Direct {
                request: request@,
                base: base@,
            },
            ImportMapping::External(name) => MappingModel::External(opt_view(*name)),
            ImportMapping::Alternatives(ts) => MappingModel::Alternatives(ts@.map_values(|t: Target| t@)),
            ImportMapping::Singleton(root) => MappingModel::Singleton(root@),
            ImportMapping::Dynamic(h) => MappingModel::Dynamic(*h),
        }
    }
}

/// The final answer for one specifier.
#[derive(Clone, Debug)]
pub enum ResolvedAnswer {
    NoMatch,
    ResolvedTo(String),
    External(String),
    DeferToHandler { handler: HandlerKind, specifier: String, context: String },
    Unresolved,
}

pub enum AnswerModel {
    NoMatch,
    ResolvedTo(Seq<char>),
    External(Seq<char>),
    DeferToHandler { handler: HandlerKind, specifier: Seq<char>, context: Seq<char> },
    Unresolved,
}

impl View for ResolvedAnswer {
    type V = AnswerModel;

    open spec fn view(&self) -> AnswerModel {
        match self {
            ResolvedAnswer::NoMatch => AnswerModel::NoMatch,
            ResolvedAnswer::ResolvedTo(s) => AnswerModel::ResolvedTo(s@),
            ResolvedAnswer::External(s) => AnswerModel::External(s@),
            ResolvedAnswer::DeferToHandler { handler, specifier, context } => AnswerModel::DeferToHandler {
                handler: *handler,
                specifier: specifier@,
                context: context@,
            },
            ResolvedAnswer::Unresolved => AnswerModel::Unresolved,
        }
    }
}

/// What the resolver wants next: one existence probe, or nothing more.
#[derive(Clone, Debug)]
pub enum Step {
    /// Ask the oracle whether `request` resolves to a source from `base`.
    Probe { base: String, request: String },
    Done(ResolvedAnswer),
}

pub enum StepModel {
    Probe { base: Seq<char>, request: Seq<char> },
    Done(AnswerModel),
}

impl View for Step {
    type V = StepModel;

    open spec fn view(&self) -> StepModel {
        match self {
            Step::Probe { base, request } => StepModel::Probe { base: base@, request: request@ },
            Step::Done(a) => StepModel::Done(a@),
        }
    }
}

pub open spec fn answers_view(a: Seq<Option<String>>) -> Seq<Option<Seq<char>>> {
    a.map_values(|o: Option<String>| opt_view(o))
}

pub open spec fn external_name(name: Option<Seq<char>>, specifier: Seq<char>) -> Seq<char> {
    match name {
        Some(n) => n,
        None => specifier,
    }
}

/// The step after probing alternatives `0..i`, each of which answered `None`.
pub open spec fn alternatives_step(
    ts: Seq<TargetModel>,
    specifier: Seq<char>,
    answers: Seq<Option<Seq<char>>>,
    i: int,
) -> StepModel
    decreases ts.len() - i,
{
    if i < 0 || i >= ts.len() {
        StepModel::Done(AnswerModel::Unresolved)
    } else {
        match ts[i] {
            TargetModel::External(name) => StepModel::Done(
                AnswerModel::External(external_name(name, specifier)),
            ),
            TargetModel::Direct { request, base } => if i >= answers.len() {
                StepModel::Probe { base, request }
            } else {
                match answers[i] {
                    Some(src) => StepModel::Done(AnswerModel::ResolvedTo(src)),
                    None => alternatives_step(ts, specifier, answers, i + 1),
                }
            },
        }
    }
}

/// The resolver's next step for `m`, given the oracle's answers to the probes asked so far,
/// in the order they were asked.
pub open spec fn step_of(
    m: MappingModel,
    specifier: Seq<char>,
    context: Seq<char>,
    answers: Seq<Option<Seq<char>>>,
) -> StepModel {
    match m {
        MappingModel::Direct { request, base } => if answers.len() == 0 {
            StepModel::Probe { base, request }
        } else {
            match answers[0] {
                Some(src) => StepModel::Done(AnswerModel::ResolvedTo(src)),
                None => StepModel::Done(AnswerModel::Unresolved),
            }
        },
        MappingModel::External(name) => StepModel::Done(
            AnswerModel::External(external_name(name, specifier)),
        ),
        MappingModel::Alternatives(ts) => alternatives_step(ts, specifier, answers, 0),
        MappingModel::Singleton(root) => StepModel::Done(AnswerModel::ResolvedTo(root)),
        MappingModel::Dynamic(h) => StepModel::Done(
            AnswerModel::DeferToHandler { handler: h, specifier, context },
        ),
    }
}

pub fn copy_opt(o: &Option<String>) -> (r: Option<String>)
    ensures
        opt_view(r) == opt_view(*o),
{
    match o {
        Some(s) => Some(s.clone()),
        None => None,
    }
}

fn external_answer(name: &Option<String>, specifier: &str) -> (r: ResolvedAnswer)
    ensures
        r@ == AnswerModel::External(external_name(opt_view(*name), specifier@)),
{
    match name {
        Some(n) => ResolvedAnswer::External(n.clone()),
        None => ResolvedAnswer::External(specifier.to_owned()),
    }
}

impl Target {
    pub fn copy(&self) -> (r: Target)
        ensures
            r@ == self@,
    {
        match self {
            Target::Direct { request, base } => Target::Direct {
                request: request.clone(),
                base: base.clone(),
            },
            Target::External(name) => Target::External(copy_opt(name)),
        }
    }

    /// This target with every capture placeholder of its request or name filled with `cap`.
    pub fn with_capture(&self, cap: &str) -> (r: Target)
        ensures
            r@ == target_with_capture(self@, cap@),
    {
        match self {
            Target::Direct { request, base } => Target::Direct {
                request: fill(request.as_str(), cap),
                base: base.clone(),
            },
            Target::External(Some(n)) => Target::External(Some(fill(n.as_str(), cap))),
            Target::External(None) => Target::External(None),
        }
    }
}

pub open spec fn target_with_capture(t: TargetModel, cap: Seq<char>) -> TargetModel {
    match t {
        TargetModel::Direct { request, base } => TargetModel::Direct {
            request: fill_capture(request, cap),
            base,
        },
        TargetModel::External(Some(n)) => TargetModel::External(Some(fill_capture(n, cap))),
        TargetModel::External(None) => TargetModel::External(None),
    }
}

/// `m` with the suffix that a wildcard captured put in place of each placeholder.
pub open spec fn mapping_with_capture(m: MappingModel, cap: Seq<char>) -> MappingModel {
    match m {
        MappingModel::Direct { request, base } => MappingModel::Direct {
            request: fill_capture(request, cap),
            base,
        },
        MappingModel::External(Some(n)) => MappingModel::External(Some(fill_capture(n, cap))),
        MappingModel::Alternatives(ts) => MappingModel::Alternatives(
            ts.map_values(|t: TargetModel| target_with_capture(t, cap)),
        ),
        _ => m,
    }
}

impl ImportMapping {
    pub fn copy(&self) -> (r: ImportMapping)
        ensures
            r@ == self@,
    {
        match self {
            ImportMapping::Direct { request, base } => ImportMapping::Direct {
                request: request.clone(),
                base: base.clone(),
            },
            ImportMapping::External(name) => ImportMapping::External(copy_opt(name)),
            ImportMapping::Alternatives(ts) => {
                let mut out: Vec<Target> = Vec::new();
                let mut i: usize = 0;
                while i < ts.len()
                    invariant
                        i <= ts@.len(),
                        out@.len() == i,
                        forall|j: int| 0 <= j < i ==> #[trigger] out@[j]@ == ts@[j]@,
                    decreases ts@.len() - i,
                {
                    out.push(ts[i].copy());
                    i = i + 1;
                }
                proof {
                    assert(out@.map_values(|t: Target| t@) =~= ts@.map_values(|t: Target| t@));
                }
                ImportMapping::Alternatives(out)
            },
            ImportMapping::Singleton(root) => ImportMapping::Singleton(root.clone()),
            ImportMapping::Dynamic(h) => ImportMapping::Dynamic(*h),
        }
    }

    /// This mapping as a wildcard match that captured `cap` hands it on.
    pub fn with_capture(&self, cap: &str) -> (r: ImportMapping)
        ensures
            r@ == mapping_with_capture(self@, cap@),
    {
        match self {
            ImportMapping::Direct { request, base } => ImportMapping::Direct {
                request: fill(request.as_str(), cap),
                base: base.clone(),
            },
            ImportMapping::External(Some(n)) => ImportMapping::External(Some(fill(n.as_str(), cap))),
            ImportMapping::Alternatives(ts) => {
                let mut out: Vec<Target> = Vec::new();
                let mut i: usize = 0;
                while i < ts.len()
                    invariant
                        i <= ts@.len(),
                        out@.len() == i,
                        forall|j: int| 0 <= j < i ==> #[trigger] out@[j]@ == target_with_capture(ts@[j]@, cap@),
                    decreases ts@.len() - i,
                {
                    out.push(ts[i].with_capture(cap));
                    i = i + 1;
                }
                proof {
                    assert(out@.map_values(|t: Target| t@) =~= ts@.map_values(|t: Target| t@).map_values(
                        |t: TargetModel| target_with_capture(t, cap@),
                    ));
                }
                ImportMapping::Alternatives(out)
            },
            _ => self.copy(),
        }
    }

    /// The resolver's next step for this mapping: `answers` holds the oracle's replies to the
    /// probes asked so far, in order. A caller probes what a `Probe` names, appends the reply,
    /// and asks again until it gets `Done`.
    pub fn next_step(&self, specifier: &str, context: &str, answers: &Vec<Option<String>>) -> (r: Step)
        ensures
            r@ == step_of(self@, specifier@, context@, answers_view(answers@)),
    {
        match self {
            ImportMapping::Direct { request, base } => {
                if answers.len() == 0 {
                    Step::Probe { base: base.clone(), request: request.clone() }
                } else {
                    match &answers[0] {
                        Some(src) => Step::Done(ResolvedAnswer::ResolvedTo(src.clone())),
                        None => Step::Done(ResolvedAnswer::Unresolved),
                    }
                }
            },
            ImportMapping::External(name) => Step::Done(external_answer(name, specifier)),
            ImportMapping::Alternatives(ts) => alternatives_next(ts, specifier, answers),
            ImportMapping::Singleton(root) => Step::Done(ResolvedAnswer::ResolvedTo(root.clone())),
            ImportMapping::Dynamic(h) => Step::Done(
                ResolvedAnswer::DeferToHandler {
                    handler: *h,
                    specifier: specifier.to_owned(),
                    context: context.to_owned(),
                },
            ),
        }
    }
}

fn alternatives_next(ts: &Vec<Target>, specifier: &str, answers: &Vec<Option<String>>) -> (r: Step)
    ensures
        r@ == alternatives_step(
            ts@.map_values(|t: Target| t@),
            specifier@,
            answers_view(answers@),
            0,
        ),
{
    let ghost tm = ts@.map_values(|t: Target| t@);
    let ghost av = answers_view(answers@);
    let mut i: usize = 0;
    while i < ts.len()
        invariant
            i <= ts@.len(),
            tm == ts@.map_values(|t: Target| t@),
            av == answers_view(answers@),
            alternatives_step(tm, specifier@, av, 0) == alternatives_step(tm, specifier@, av, i as int),
        decreases ts@.len() - i,
    {
        match &ts[i] {
            Target::External(name) => {
                return Step::Done(external_answer(name, specifier));
            },
            Target::Direct { request, base } => {
                if i >= answers.len() {
                    return Step::Probe { base: base.clone(), request: request.clone() };
                }
                match &answers[i] {
                    Some(src) => {
                        return Step::Done(ResolvedAnswer::ResolvedTo(src.clone()));
                    },
                    None => {},
                }
            },
        }
        i = i + 1;
    }
    Step::Done(ResolvedAnswer::Unresolved)
}

} // verus!
