use vstd::prelude::*;

use crate::span::Span;

verus! {

/// A binding occurrence in a pattern: a named variable or a wildcard.
#[derive(Debug)]
pub enum BindingSite {
    Var { span: Span, name: String },
    Wildcard { span: Span },
}

/// A constructor pattern.
#[derive(Debug)]
pub struct Pattern {
    pub name: String,
    pub params: Vec<BindingSite>,
}

/// A destructor copattern.
#[derive(Debug)]
pub struct Copattern {
    pub name: String,
    pub params: Vec<BindingSite>,
}

/// A (co)case of the concrete syntax; `body == None` is an absurd pattern.
#[derive(Debug)]
pub struct Case<P> {
    pub span: Span,
    pub pattern: P,
    pub body: Option<Box<Exp>>,
}

/// An argument in an argument list, either unnamed or named.
#[derive(Debug)]
pub enum Arg {
    UnnamedArg(Box<Exp>),
    NamedArg(String, Box<Exp>),
}

/// A term of the concrete syntax, before desugaring and lowering.
#[derive(Debug)]
pub enum Exp {
    Call(Call),
    DotCall(DotCall),
    Anno(Anno),
    TypeUniv(TypeUniv),
    LocalMatch(LocalMatch),
    LocalComatch(LocalComatch),
    Hole(Hole),
    NatLit(NatLit),
    Fun(Fun),
    Lam(Lam),
}

#[derive(Debug)]
pub struct Call {
    pub span: Span,
    pub name: String,
    pub args: Vec<Arg>,
}

#[derive(Debug)]
pub struct DotCall {
    pub span: Span,
    pub exp: Box<Exp>,
    pub name: String,
    pub args: Vec<Arg>,
}

#[derive(Debug)]
pub struct Anno {
    pub span: Span,
    pub exp: Box<Exp>,
    pub typ: Box<Exp>,
}

#[derive(Debug)]
pub struct TypeUniv {
    pub span: Span,
}

#[derive(Debug)]
pub struct LocalMatch {
    pub span: Span,
    pub name: Option<String>,
    pub on_exp: Box<Exp>,
    pub motive: Option<Motive>,
    pub cases: Vec<Case<Pattern>>,
}

#[derive(Debug)]
pub struct LocalComatch {
    pub span: Span,
    pub name: Option<String>,
    pub is_lambda_sugar: bool,
    pub cases: Vec<Case<Copattern>>,
}

#[derive(Debug)]
pub struct Hole {
    pub span: Span,
}

/// A natural-number literal; its digits are desugared before the core sees
/// them, so the value is carried through untouched.
#[derive(Debug)]
pub struct NatLit {
    pub span: Span,
    pub val: num_bigint::BigUint,
}

/// Arrow-type sugar.
#[derive(Debug)]
pub struct Fun {
    pub span: Span,
    pub from: Box<Exp>,
    pub to: Box<Exp>,
}

/// Lambda sugar for a one-cocase comatch.
#[derive(Debug)]
pub struct Lam {
    pub span: Span,
    pub var: BindingSite,
    pub body: Box<Exp>,
}

/// The motive of a dependent match.
#[derive(Debug)]
pub struct Motive {
    pub span: Span,
    pub param: BindingSite,
    pub ret_typ: Box<Exp>,
}

/// The source location of a term.
pub open spec fn exp_span(e: Exp) -> Span {
    match e {
        Exp::Call(x) => x.span,
        Exp::DotCall(x) => x.span,
        Exp::Anno(x) => x.span,
        Exp::TypeUniv(x) => x.span,
        Exp::LocalMatch(x) => x.span,
        Exp::LocalComatch(x) => x.span,
        Exp::Hole(x) => x.span,
        Exp::NatLit(x) => x.span,
        Exp::Fun(x) => x.span,
        Exp::Lam(x) => x.span,
    }
}

/// The source location of an argument: that of the term it wraps.
pub open spec fn arg_span(a: Arg) -> Span {
    match a {
        Arg::UnnamedArg(e) => exp_span(*e),
        Arg::NamedArg(_, e) => exp_span(*e),
    }
}

impl Exp {
    /// The source location of the term.
    pub fn span(&self) -> (s: Span)
        ensures
            s == exp_span(*self),
    {
        match self {
            Exp::Call(x) => x.span,
            Exp::DotCall(x) => x.span,
            Exp::Anno(x) => x.span,
            Exp::TypeUniv(x) => x.span,
            Exp::LocalMatch(x) => x.span,
            Exp::LocalComatch(x) => x.span,
            Exp::Hole(x) => x.span,
            Exp::NatLit(x) => x.span,
            Exp::Fun(x) => x.span,
            Exp::Lam(x) => x.span,
        }
    }
}

impl Arg {
    /// The source location of the argument.
    pub fn span(&self) -> (s: Span)
        ensures
            s == arg_span(*self),
    {
        match self {
            Arg::UnnamedArg(e) => e.span(),
            Arg::NamedArg(_, e) => e.span(),
        }
    }
}

} // verus!
