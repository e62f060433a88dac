use vstd::prelude::*;

use crate::ast::{view_exp, CallKind, Exp, ExpS};
use crate::span::Span;

verus! {

/// A value: the result of evaluating a term.
#[derive(Debug)]
pub enum Val {
    TypCtor { span: Option<Span>, name: String, args: Vec<Val> },
    Ctor { span: Option<Span>, kind: CallKind, name: String, args: Vec<Val> },
    Comatch { span: Option<Span>, name: String, is_lambda_sugar: bool, body: Match },
    TypeUniv { span: Option<Span> },
    Neu { exp: Neu },
}

/// A neutral term: a computation blocked on a free variable or a hole.
#[derive(Debug)]
pub enum Neu {
    Var { span: Option<Span>, idx: usize },
    Dtor { span: Option<Span>, exp: Box<Neu>, name: String, args: Vec<Val> },
    Match { span: Option<Span>, name: String, on_exp: Box<Neu>, body: Match },
    Hole { span: Option<Span> },
}

/// An evaluated (co)match body: its cases hold closures instead of raw terms.
#[derive(Debug)]
pub struct Match {
    pub span: Option<Span>,
    pub cases: Vec<Case>,
    pub omit_absurd: bool,
}

/// An evaluated (co)case; `body == None` declares the case absurd.
#[derive(Debug)]
pub struct Case {
    pub span: Option<Span>,
    pub name: String,
    pub n_params: usize,
    pub body: Option<Closure>,
}

/// A closure: a captured body term, its arity, and the environment at capture
/// time.  The captured environment is disjoint from the caller's.
#[derive(Debug)]
pub struct Closure {
    pub body: Box<Exp>,
    pub n_args: usize,
    pub env: Env,
}

/// The evaluation environment: a stack of bound values.  A de Bruijn index
/// counts from the innermost binder, so index `i` denotes the value at
/// distance `i` from the top of the stack.
#[derive(Debug)]
pub struct Env {
    pub entries: Vec<Val>,
}

/// Mathematical model of a value.
pub enum ValS {
    TypCtor { span: Option<Span>, name: Seq<char>, args: Seq<ValS> },
    Ctor { span: Option<Span>, kind: CallKind, name: Seq<char>, args: Seq<ValS> },
    Comatch { span: Option<Span>, name: Seq<char>, is_lambda_sugar: bool, body: MatchS },
    TypeUniv { span: Option<Span> },
    Neu { exp: NeuS },
}

/// Mathematical model of a neutral term.
pub enum NeuS {
    Var { span: Option<Span>, idx: usize },
    Dtor { span: Option<Span>, exp: Box<NeuS>, name: Seq<char>, args: Seq<ValS> },
    Match { span: Option<Span>, name: Seq<char>, on_exp: Box<NeuS>, body: MatchS },
    Hole { span: Option<Span> },
}

/// Mathematical model of an evaluated (co)match body.
pub struct MatchS {
    pub span: Option<Span>,
    pub cases: Seq<CaseS>,
    pub omit_absurd: bool,
}

/// Mathematical model of an evaluated (co)case.
pub struct CaseS {
    pub span: Option<Span>,
    pub name: Seq<char>,
    pub n_params: usize,
    pub body: Option<ClosureS>,
}

/// Mathematical model of a closure.  The environment is the stack of captured
/// values, innermost binder last.
pub struct ClosureS {
    pub body: ExpS,
    pub n_args: usize,
    pub env: Seq<ValS>,
}

pub open spec fn view_val(v: Val) -> ValS
    decreases v,
{
    match v {
        Val::TypCtor { span, name, args } => ValS::TypCtor {
            span,
            name: name@,
            args: view_vals(args@),
        },
        Val::Ctor { span, kind, name, args } => ValS::Ctor {
            span,
            kind,
            name: name@,
            args: view_vals(args@),
        },
        Val::Comatch { span, name, is_lambda_sugar, body } => ValS::Comatch {
            span,
            name: name@,
            is_lambda_sugar,
            body: view_match(body),
        },
        Val::TypeUniv { span } => ValS::TypeUniv { span },
        Val::Neu { exp } => ValS::Neu { exp: view_neu(exp) },
    }
}

pub open spec fn view_vals(v: Seq<Val>) -> Seq<ValS>
    decreases v,
{
    if v.len() == 0 {
        Seq::empty()
    } else {
        view_vals(v.drop_last()).push(view_val(v.last()))
    }
}

pub broadcast proof fn lemma_view_vals(v: Seq<Val>)
    ensures
        (#[trigger] view_vals(v)).len() == v.len(),
        forall|i: int| 0 <= i < v.len() ==> view_vals(v)[i] == view_val(v[i]),
    decreases v.len(),
{
    if v.len() > 0 {
        lemma_view_vals(v.drop_last());
    }
}

pub open spec fn view_neu(n: Neu) -> NeuS
    decreases n,
{
    match n {
        Neu::Var { span, idx } => NeuS::Var { span, idx },
        Neu::Dtor { span, exp, name, args } => NeuS::Dtor {
            span,
            exp: Box::new(view_neu(*exp)),
            name: name@,
            args: view_vals(args@),
        },
        Neu::Match { span, name, on_exp, body } => NeuS::Match {
            span,
            name: name@,
            on_exp: Box::new(view_neu(*on_exp)),
            body: view_match(body),
        },
        Neu::Hole { span } => NeuS::Hole { span },
    }
}

pub open spec fn view_match(m: Match) -> MatchS
    decreases m,
{
    MatchS { span: m.span, cases: view_cases(m.cases@), omit_absurd: m.omit_absurd }
}

pub open spec fn view_cases(v: Seq<Case>) -> Seq<CaseS>
    decreases v,
{
    if v.len() == 0 {
        Seq::empty()
    } else {
        view_cases(v.drop_last()).push(view_case(v.last()))
    }
}

pub broadcast proof fn lemma_view_val_cases(v: Seq<Case>)
    ensures
        (#[trigger] view_cases(v)).len() == v.len(),
        forall|i: int| 0 <= i < v.len() ==> view_cases(v)[i] == view_case(v[i]),
    decreases v.len(),
{
    if v.len() > 0 {
        lemma_view_val_cases(v.drop_last());
    }
}

pub open spec fn view_case(c: Case) -> CaseS
    decreases c,
{
    CaseS {
        span: c.span,
        name: c.name@,
        n_params: c.n_params,
        body: match c.body {
            Some(cl) => Some(view_closure(cl)),
            None => None,
        },
    }
}

pub open spec fn view_closure(c: Closure) -> ClosureS
    decreases c,
{
    ClosureS { body: view_exp(*c.body), n_args: c.n_args, env: view_vals(c.env.entries@) }
}

impl View for Val {
    type V = ValS;

    open spec fn view(&self) -> ValS {
        view_val(*self)
    }
}

impl View for Neu {
    type V = NeuS;

    open spec fn view(&self) -> NeuS {
        view_neu(*self)
    }
}

impl View for Match {
    type V = MatchS;

    open spec fn view(&self) -> MatchS {
        view_match(*self)
    }
}

impl View for Case {
    type V = CaseS;

    open spec fn view(&self) -> CaseS {
        view_case(*self)
    }
}

impl View for Closure {
    type V = ClosureS;

    open spec fn view(&self) -> ClosureS {
        view_closure(*self)
    }
}

impl View for Env {
    type V = Seq<ValS>;

    open spec fn view(&self) -> Seq<ValS> {
        view_vals(self.entries@)
    }
}

impl Clone for Val {
    fn clone(&self) -> (r: Self)
        ensures
            r@ == self@,
        decreases *self,
    {
        match self {
            Val::TypCtor { span, name, args } => Val::TypCtor {
                span: *span,
                name: name.clone(),
                args: clone_vals(args),
            },
            Val::Ctor { span, kind, name, args } => Val::Ctor {
                span: *span,
                kind: *kind,
                name: name.clone(),
                args: clone_vals(args),
            },
            Val::Comatch { span, name, is_lambda_sugar, body } => Val::Comatch {
                span: *span,
                name: name.clone(),
                is_lambda_sugar: *is_lambda_sugar,
                body: body.clone(),
            },
            Val::TypeUniv { span } => Val::TypeUniv { span: *span },
            Val::Neu { exp } => Val::Neu { exp: exp.clone() },
        }
    }
}

/// Clone a list of values, preserving the model of every element.
pub fn clone_vals(v: &Vec<Val>) -> (r: Vec<Val>)
    ensures
        view_vals(r@) == view_vals(v@),
    decreases *v,
{
    let mut r: Vec<Val> = Vec::new();
    let mut i: usize = 0;
    while i < v.len()
        invariant
            i <= v.len(),
            r@.len() == i,
            forall|j: int| 0 <= j < i ==> view_val(#[trigger] r@[j]) == view_val(v@[j]),
        decreases v.len() - i,
    {
        r.push(v[i].clone());
        i += 1;
    }
    proof {
        lemma_view_vals(r@);
        lemma_view_vals(v@);
        assert(view_vals(r@) =~= view_vals(v@));
    }
    r
}

impl Clone for Neu {
    fn clone(&self) -> (r: Self)
        ensures
            r@ == self@,
        decreases *self,
    {
        match self {
            Neu::Var { span, idx } => Neu::Var { span: *span, idx: *idx },
            Neu::Dtor { span, exp, name, args } => Neu::Dtor {
                span: *span,
                exp: Box::new((**exp).clone()),
                name: name.clone(),
                args: clone_vals(args),
            },
            Neu::Match { span, name, on_exp, body } => Neu::Match {
                span: *span,
                name: name.clone(),
                on_exp: Box::new((**on_exp).clone()),
                body: body.clone(),
            },
            Neu::Hole { span } => Neu::Hole { span: *span },
        }
    }
}

impl Clone for Match {
    fn clone(&self) -> (r: Self)
        ensures
            r@ == self@,
        decreases *self,
    {
        let mut cases: Vec<Case> = Vec::new();
        let mut i: usize = 0;
        while i < self.cases.len()
            invariant
                i <= self.cases.len(),
                cases@.len() == i,
                forall|j: int| 0 <= j < i ==> view_case(#[trigger] cases@[j]) == view_case(
                    self.cases@[j],
                ),
            decreases self.cases.len() - i,
        {
            cases.push(self.cases[i].clone());
            i += 1;
        }
        proof {
            lemma_view_val_cases(cases@);
            lemma_view_val_cases(self.cases@);
            assert(view_cases(cases@) =~= view_cases(self.cases@));
        }
        Match { span: self.span, cases, omit_absurd: self.omit_absurd }
    }
}

impl Clone for Case {
    fn clone(&self) -> (r: Self)
        ensures
            r@ == self@,
        decreases *self,
    {
        Case {
            span: self.span,
            name: self.name.clone(),
            n_params: self.n_params,
            body: match &self.body {
                Some(cl) => Some(cl.clone()),
                None => None,
            },
        }
    }
}

impl Clone for Closure {
    fn clone(&self) -> (r: Self)
        ensures
            r@ == self@,
        decreases *self,
    {
        Closure { body: Box::new((*self.body).clone()), n_args: self.n_args, env: self.env.clone() }
    }
}

impl Clone for Env {
    fn clone(&self) -> (r: Self)
        ensures
            r@ == self@,
        decreases *self,
    {
        Env { entries: clone_vals(&self.entries) }
    }
}

impl Env {
    /// The empty environment.
    pub fn empty() -> (e: Env)
        ensures
            e@ == Seq::<ValS>::empty(),
    {
        let e = Env { entries: Vec::new() };
        e
    }

    /// The bound value at de Bruijn index `idx`, counted from the innermost
    /// binder.
    pub fn lookup(&self, idx: usize) -> (r: Val)
        requires
            idx < self@.len(),
        ensures
            r@ == self@[self@.len() - 1 - idx],
    {
        proof {
            lemma_view_vals(self.entries@);
        }
        let v = self.entries[self.entries.len() - 1 - idx].clone();
        v
    }

    /// Push one bound value on top of the stack.
    pub fn push(&mut self, v: Val)
        ensures
            final(self)@ == old(self)@.push(v@),
    {
        self.entries.push(v);
        proof {
            lemma_view_vals(self.entries@);
            lemma_view_vals(old(self).entries@);
            assert(view_vals(self.entries@) =~= view_vals(old(self).entries@).push(v@));
        }
    }

    /// Pop `n` values off the top of the stack; the scoped release that every
    /// binding block performs on each exit path.
    pub fn pop_n(&mut self, n: usize)
        requires
            n <= old(self)@.len(),
        ensures
            final(self)@ == old(self)@.take(old(self)@.len() - n),
    {
        proof {
            lemma_view_vals(old(self).entries@);
        }
        let mut i: usize = 0;
        while i < n
            invariant
                i <= n,
                n <= old(self).entries@.len(),
                self.entries@ == old(self).entries@.take(old(self).entries@.len() - i),
            decreases n - i,
        {
            self.entries.pop();
            i += 1;
            proof {
                assert(self.entries@ =~= old(self).entries@.take(
                    old(self).entries@.len() - i,
                ));
            }
        }
        proof {
            lemma_view_vals_take(old(self).entries@, (old(self).entries@.len() - n) as int);
        }
    }

    /// The number of bound values.
    pub fn depth(&self) -> (n: usize)
        ensures
            n == self@.len(),
    {
        proof {
            lemma_view_vals(self.entries@);
        }
        self.entries.len()
    }
}

/// Taking a prefix of the entries takes the same prefix of the model.
pub proof fn lemma_view_vals_take(v: Seq<Val>, n: int)
    requires
        0 <= n <= v.len(),
    ensures
        view_vals(v.take(n)) == view_vals(v).take(n),
    decreases v.len(),
{
    lemma_view_vals(v);
    lemma_view_vals(v.take(n));
    assert(view_vals(v.take(n)) =~= view_vals(v).take(n));
}

} // verus!
