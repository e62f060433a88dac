use vstd::prelude::*;

use crate::span::Span;

verus! {

/// Which kind of top-level name a `Call` refers to.
#[derive(Clone, Copy, PartialEq, Eq, Structural, Debug)]
pub enum CallKind {
    Ctor,
    Codef,
    Def,
}

/// A term of the core language, after desugaring; de Bruijn indices for variables.
#[derive(Debug)]
pub enum Exp {
    Variable { span: Option<Span>, idx: usize },
    TypCtor { span: Option<Span>, name: String, args: Vec<Exp> },
    Call { span: Option<Span>, kind: CallKind, name: String, args: Vec<Exp> },
    DotCall { span: Option<Span>, exp: Box<Exp>, name: String, args: Vec<Exp> },
    Anno { span: Option<Span>, exp: Box<Exp>, typ: Box<Exp> },
    TypeUniv { span: Option<Span> },
    LocalMatch { span: Option<Span>, name: String, on_exp: Box<Exp>, body: Match },
    LocalComatch { span: Option<Span>, name: String, is_lambda_sugar: bool, body: Match },
    Hole { span: Option<Span> },
}

/// The body of a local match or comatch: a list of (co)cases.
#[derive(Debug)]
pub struct Match {
    pub span: Option<Span>,
    pub cases: Vec<Case>,
    pub omit_absurd: bool,
}

/// One (co)case: the xtor name, how many variables the pattern binds,
/// and the body; `body == None` declares the case absurd.
#[derive(Debug)]
pub struct Case {
    pub span: Option<Span>,
    pub name: String,
    pub n_params: usize,
    pub body: Option<Box<Exp>>,
}

/// Mathematical model of a term.
pub enum ExpS {
    Variable { span: Option<Span>, idx: usize },
    TypCtor { span: Option<Span>, name: Seq<char>, args: Seq<ExpS> },
    Call { span: Option<Span>, kind: CallKind, name: Seq<char>, args: Seq<ExpS> },
    DotCall { span: Option<Span>, exp: Box<ExpS>, name: Seq<char>, args: Seq<ExpS> },
    Anno { span: Option<Span>, exp: Box<ExpS>, typ: Box<ExpS> },
    TypeUniv { span: Option<Span> },
    LocalMatch { span: Option<Span>, name: Seq<char>, on_exp: Box<ExpS>, body: MatchS },
    LocalComatch { span: Option<Span>, name: Seq<char>, is_lambda_sugar: bool, body: MatchS },
    Hole { span: Option<Span> },
}

/// Mathematical model of a (co)match body.
pub struct MatchS {
    pub span: Option<Span>,
    pub cases: Seq<CaseS>,
    pub omit_absurd: bool,
}

/// Mathematical model of one (co)case.
pub struct CaseS {
    pub span: Option<Span>,
    pub name: Seq<char>,
    pub n_params: usize,
    pub body: Option<Box<ExpS>>,
}

pub open spec fn view_exp(e: Exp) -> ExpS
    decreases e,
{
    match e {
        Exp::Variable { span, idx } => ExpS::Variable { span, idx },
        Exp::TypCtor { span, name, args } => ExpS::TypCtor {
            span,
            name: name@,
            args: view_exps(args@),
        },
        Exp::Call { span, kind, name, args } => ExpS::Call {
            span,
            kind,
            name: name@,
            args: view_exps(args@),
        },
        Exp::DotCall { span, exp, name, args } => ExpS::DotCall {
            span,
            exp: Box::new(view_exp(*exp)),
            name: name@,
            args: view_exps(args@),
        },
        Exp::Anno { span, exp, typ } => ExpS::Anno {
            span,
            exp: Box::new(view_exp(*exp)),
            typ: Box::new(view_exp(*typ)),
        },
        Exp::TypeUniv { span } => ExpS::TypeUniv { span },
        Exp::LocalMatch { span, name, on_exp, body } => ExpS::LocalMatch {
            span,
            name: name@,
            on_exp: Box::new(view_exp(*on_exp)),
            body: view_match(body),
        },
        Exp::LocalComatch { span, name, is_lambda_sugar, body } => ExpS::LocalComatch {
            span,
            name: name@,
            is_lambda_sugar,
            body: view_match(body),
        },
        Exp::Hole { span } => ExpS::Hole { span },
    }
}

pub open spec fn view_exps(v: Seq<Exp>) -> Seq<ExpS>
    decreases v,
{
    if v.len() == 0 {
        Seq::empty()
    } else {
        view_exps(v.drop_last()).push(view_exp(v.last()))
    }
}

pub broadcast proof fn lemma_view_exps(v: Seq<Exp>)
    ensures
        (#[trigger] view_exps(v)).len() == v.len(),
        forall|i: int| 0 <= i < v.len() ==> view_exps(v)[i] == view_exp(v[i]),
    decreases v.len(),
{
    if v.len() > 0 {
        lemma_view_exps(v.drop_last());
    }
}

pub open spec fn view_match(m: Match) -> MatchS
    decreases m,
{
    MatchS { span: m.span, cases: view_cases(m.cases@), omit_absurd: m.omit_absurd }
}

pub open spec fn view_cases(v: Seq<Case>) -> Seq<CaseS>
    decreases v,
{
    if v.len() == 0 {
        Seq::empty()
    } else {
        view_cases(v.drop_last()).push(view_case(v.last()))
    }
}

pub broadcast proof fn lemma_view_cases(v: Seq<Case>)
    ensures
        (#[trigger] view_cases(v)).len() == v.len(),
        forall|i: int| 0 <= i < v.len() ==> view_cases(v)[i] == view_case(v[i]),
    decreases v.len(),
{
    if v.len() > 0 {
        lemma_view_cases(v.drop_last());
    }
}

pub open spec fn view_case(c: Case) -> CaseS
    decreases c,
{
    CaseS {
        span: c.span,
        name: c.name@,
        n_params: c.n_params,
        body: match c.body {
            Some(b) => Some(Box::new(view_exp(*b))),
            None => None,
        },
    }
}

impl View for Exp {
    type V = ExpS;

    open spec fn view(&self) -> ExpS {
        view_exp(*self)
    }
}

impl View for Match {
    type V = MatchS;

    open spec fn view(&self) -> MatchS {
        view_match(*self)
    }
}

impl View for Case {
    type V = CaseS;

    open spec fn view(&self) -> CaseS {
        view_case(*self)
    }
}

impl Clone for Exp {
    fn clone(&self) -> (r: Self)
        ensures
            r@ == self@,
        decreases *self,
    {
        match self {
            Exp::Variable { span, idx } => Exp::Variable { span: *span, idx: *idx },
            Exp::TypCtor { span, name, args } => Exp::TypCtor {
                span: *span,
                name: name.clone(),
                args: clone_exps(args),
            },
            Exp::Call { span, kind, name, args } => Exp::Call {
                span: *span,
                kind: *kind,
                name: name.clone(),
                args: clone_exps(args),
            },
            Exp::DotCall { span, exp, name, args } => Exp::DotCall {
                span: *span,
                exp: Box::new((**exp).clone()),
                name: name.clone(),
                args: clone_exps(args),
            },
            Exp::Anno { span, exp, typ } => Exp::Anno {
                span: *span,
                exp: Box::new((**exp).clone()),
                typ: Box::new((**typ).clone()),
            },
            Exp::TypeUniv { span } => Exp::TypeUniv { span: *span },
            Exp::LocalMatch { span, name, on_exp, body } => Exp::LocalMatch {
                span: *span,
                name: name.clone(),
                on_exp: Box::new((**on_exp).clone()),
                body: body.clone(),
            },
            Exp::LocalComatch { span, name, is_lambda_sugar, body } => Exp::LocalComatch {
                span: *span,
                name: name.clone(),
                is_lambda_sugar: *is_lambda_sugar,
                body: body.clone(),
            },
            Exp::Hole { span } => Exp::Hole { span: *span },
        }
    }
}

/// Clone a list of terms, preserving the model of every element.
pub fn clone_exps(v: &Vec<Exp>) -> (r: Vec<Exp>)
    ensures
        view_exps(r@) == view_exps(v@),
    decreases *v,
{
    let mut r: Vec<Exp> = Vec::new();
    let mut i: usize = 0;
    while i < v.len()
        invariant
            i <= v.len(),
            r@.len() == i,
            forall|j: int| 0 <= j < i ==> view_exp(#[trigger] r@[j]) == view_exp(v@[j]),
        decreases v.len() - i,
    {
        r.push(v[i].clone());
        i += 1;
    }
    proof {
        lemma_view_exps(r@);
        lemma_view_exps(v@);
        assert(view_exps(r@) =~= view_exps(v@));
    }
    r
}

impl Clone for Match {
    fn clone(&self) -> (r: Self)
        ensures
            r@ == self@,
        decreases *self,
    {
        let mut cases: Vec<Case> = Vec::new();
        let mut i: usize = 0;
        while i < self.cases.len()
            invariant
                i <= self.cases.len(),
                cases@.len() == i,
                forall|j: int| 0 <= j < i ==> view_case(#[trigger] cases@[j]) == view_case(
                    self.cases@[j],
                ),
            decreases self.cases.len() - i,
        {
            cases.push(self.cases[i].clone());
            i += 1;
        }
        proof {
            lemma_view_cases(cases@);
            lemma_view_cases(self.cases@);
            assert(view_cases(cases@) =~= view_cases(self.cases@));
        }
        Match { span: self.span, cases, omit_absurd: self.omit_absurd }
    }
}

impl Clone for Case {
    fn clone(&self) -> (r: Self)
        ensures
            r@ == self@,
        decreases *self,
    {
        Case {
            span: self.span,
            name: self.name.clone(),
            n_params: self.n_params,
            body: match &self.body {
                Some(b) => Some(Box::new((**b).clone())),
                None => None,
            },
        }
    }
}

} // verus!

verus! {

/// The source location of a term.
pub open spec fn exp_span_s(e: ExpS) -> Option<Span> {
    match e {
        ExpS::Variable { span, .. } => span,
        ExpS::TypCtor { span, .. } => span,
        ExpS::Call { span, .. } => span,
        ExpS::DotCall { span, .. } => span,
        ExpS::Anno { span, .. } => span,
        ExpS::TypeUniv { span } => span,
        ExpS::LocalMatch { span, .. } => span,
        ExpS::LocalComatch { span, .. } => span,
        ExpS::Hole { span } => span,
    }
}

impl Exp {
    /// The source location of the term.
    pub fn span(&self) -> (s: Option<Span>)
        ensures
            s == exp_span_s(self@),
    {
        match self {
            Exp::Variable { span, .. } => *span,
            Exp::TypCtor { span, .. } => *span,
            Exp::Call { span, .. } => *span,
            Exp::DotCall { span, .. } => *span,
            Exp::Anno { span, .. } => *span,
            Exp::TypeUniv { span } => *span,
            Exp::LocalMatch { span, .. } => *span,
            Exp::LocalComatch { span, .. } => *span,
            Exp::Hole { span } => *span,
        }
    }
}

} // verus!
