use vstd::prelude::*;

use crate::decls::{LookupError, LookupErrorS};
use crate::span::Span;

verus! {

/// An error raised by the normalizer itself: the step budget handed to the
/// evaluator ran out before a value was reached.
#[derive(Clone, Copy, PartialEq, Eq, Structural, Debug)]
pub enum EvalError {
    OutOfFuel,
}

/// An error found while checking or normalizing terms.
#[derive(Debug)]
pub enum TypeError {
    /// A call passes the wrong number of arguments.
    ArgLenMismatch { name: String, expected: usize, actual: usize, span: Option<Span> },
    /// Two terms that had to be convertible are not.
    NotEq { lhs: String, rhs: String, lhs_span: Option<Span>, rhs_span: Option<Span> },
    /// A match eliminates a codata type.
    MatchOnCodata { name: String, span: Option<Span> },
    /// A comatch introduces a data type.
    ComatchOnData { name: String, span: Option<Span> },
    /// A (co)match body has missing, undeclared or duplicate cases.
    InvalidMatch { msg: String, span: Option<Span> },
    /// An xtor does not belong to the expected type.
    NotInType { expected: String, actual: String, span: Option<Span> },
    /// A pattern was declared absurd but could not be shown unreachable.
    PatternIsNotAbsurd { name: String, span: Option<Span> },
    /// A pattern is unreachable and must be declared absurd.
    PatternIsAbsurd { name: String, span: Option<Span> },
    /// A match expression needs a type annotation.
    CannotInferMatch { span: Option<Span> },
    /// A comatch expression needs a type annotation.
    CannotInferComatch { span: Option<Span> },
    /// A type constructor application was expected.
    ExpectedTypApp { got: String, span: Option<Span> },
    /// An internal invariant was violated; such an error should never be
    /// reachable from well-typed input.
    Impossible { message: String, span: Option<Span> },
    /// A unification error, carried through transparently.
    Unify(UnifyError),
    /// A normalizer error, carried through transparently.
    Eval(EvalError),
    /// A declaration-table error, carried through transparently.
    Lookup(LookupError),
}

/// An error raised while unifying two terms.
#[derive(Debug)]
pub enum UnifyError {
    /// The variable occurs in the term it would be bound to.
    OccursCheckFailed { idx: usize, exp: String, span: Option<Span> },
    /// Annotated terms cannot be unified.
    UnsupportedAnnotation { exp: String, span: Option<Span> },
    /// Neither side determines the other.
    CannotDecide { lhs: String, rhs: String, lhs_span: Option<Span>, rhs_span: Option<Span> },
}

/// Mathematical model of a type error.
pub enum TypeErrorS {
    ArgLenMismatch { name: Seq<char>, expected: usize, actual: usize, span: Option<Span> },
    NotEq { lhs: Seq<char>, rhs: Seq<char>, lhs_span: Option<Span>, rhs_span: Option<Span> },
    MatchOnCodata { name: Seq<char>, span: Option<Span> },
    ComatchOnData { name: Seq<char>, span: Option<Span> },
    InvalidMatch { msg: Seq<char>, span: Option<Span> },
    NotInType { expected: Seq<char>, actual: Seq<char>, span: Option<Span> },
    PatternIsNotAbsurd { name: Seq<char>, span: Option<Span> },
    PatternIsAbsurd { name: Seq<char>, span: Option<Span> },
    CannotInferMatch { span: Option<Span> },
    CannotInferComatch { span: Option<Span> },
    ExpectedTypApp { got: Seq<char>, span: Option<Span> },
    Impossible { message: Seq<char>, span: Option<Span> },
    Unify(UnifyErrorS),
    Eval(EvalError),
    Lookup(LookupErrorS),
}

/// Mathematical model of a unification error.
pub enum UnifyErrorS {
    OccursCheckFailed { idx: usize, exp: Seq<char>, span: Option<Span> },
    UnsupportedAnnotation { exp: Seq<char>, span: Option<Span> },
    CannotDecide { lhs: Seq<char>, rhs: Seq<char>, lhs_span: Option<Span>, rhs_span: Option<Span> },
}

impl View for UnifyError {
    type V = UnifyErrorS;

    open spec fn view(&self) -> UnifyErrorS {
        match self {
            UnifyError::OccursCheckFailed { idx, exp, span } => UnifyErrorS::OccursCheckFailed {
                idx: *idx,
                exp: exp@,
                span: *span,
            },
            UnifyError::UnsupportedAnnotation { exp, span } => UnifyErrorS::UnsupportedAnnotation {
                exp: exp@,
                span: *span,
            },
            UnifyError::CannotDecide { lhs, rhs, lhs_span, rhs_span } => UnifyErrorS::CannotDecide {
                lhs: lhs@,
                rhs: rhs@,
                lhs_span: *lhs_span,
                rhs_span: *rhs_span,
            },
        }
    }
}

impl View for TypeError {
    type V = TypeErrorS;

    open spec fn view(&self) -> TypeErrorS {
        match self {
            TypeError::ArgLenMismatch { name, expected, actual, span } => {
                TypeErrorS::ArgLenMismatch {
                    name: name@,
                    expected: *expected,
                    actual: *actual,
                    span: *span,
                }
            },
            TypeError::NotEq { lhs, rhs, lhs_span, rhs_span } => TypeErrorS::NotEq {
                lhs: lhs@,
                rhs: rhs@,
                lhs_span: *lhs_span,
                rhs_span: *rhs_span,
            },
            TypeError::MatchOnCodata { name, span } => TypeErrorS::MatchOnCodata {
                name: name@,
                span: *span,
            },
            TypeError::ComatchOnData { name, span } => TypeErrorS::ComatchOnData {
                name: name@,
                span: *span,
            },
            TypeError::InvalidMatch { msg, span } => TypeErrorS::InvalidMatch {
                msg: msg@,
                span: *span,
            },
            TypeError::NotInType { expected, actual, span } => TypeErrorS::NotInType {
                expected: expected@,
                actual: actual@,
                span: *span,
            },
            TypeError::PatternIsNotAbsurd { name, span } => TypeErrorS::PatternIsNotAbsurd {
                name: name@,
                span: *span,
            },
            TypeError::PatternIsAbsurd { name, span } => TypeErrorS::PatternIsAbsurd {
                name: name@,
                span: *span,
            },
            TypeError::CannotInferMatch { span } => TypeErrorS::CannotInferMatch { span: *span },
            TypeError::CannotInferComatch { span } => TypeErrorS::CannotInferComatch {
                span: *span,
            },
            TypeError::ExpectedTypApp { got, span } => TypeErrorS::ExpectedTypApp {
                got: got@,
                span: *span,
            },
            TypeError::Impossible { message, span } => TypeErrorS::Impossible {
                message: message@,
                span: *span,
            },
            TypeError::Unify(e) => TypeErrorS::Unify(e@),
            TypeError::Eval(e) => TypeErrorS::Eval(*e),
            TypeError::Lookup(e) => TypeErrorS::Lookup(e@),
        }
    }
}

} // verus!

verus! {

use crate::ast;
use crate::ast::exp_span_s;
use crate::nf;
use crate::nf::{neu_info_s, nf_info_s};
use crate::printer::{print_exp_s, print_nf_s};
use crate::strings::{comma_separated, join_sep, separated};
use vstd::string::StringExecFns;

/// The message of an invalid pattern match: the missing, undeclared and
/// duplicate case names, each group comma-separated, groups separated by
/// `"; "`, empty groups left out.
pub open spec fn invalid_match_msg_s(
    missing: Seq<Seq<char>>,
    undeclared: Seq<Seq<char>>,
    duplicate: Seq<Seq<char>>,
) -> Seq<char> {
    let m1: Seq<Seq<char>> = if missing.len() > 0 {
        seq!["missing "@ + join_sep(", "@, missing)]
    } else {
        Seq::empty()
    };
    let m2: Seq<Seq<char>> = if undeclared.len() > 0 {
        seq!["undeclared "@ + join_sep(", "@, undeclared)]
    } else {
        Seq::empty()
    };
    let m3: Seq<Seq<char>> = if duplicate.len() > 0 {
        seq!["duplicate "@ + join_sep(", "@, duplicate)]
    } else {
        Seq::empty()
    };
    join_sep("; "@, m1 + m2 + m3)
}

impl TypeError {
    /// Two normal forms that had to be convertible are not: both sides are
    /// printed, and each carries the span of its source.
    pub fn not_eq(lhs: &nf::Nf, rhs: &nf::Nf) -> (r: TypeError)
        ensures
            r@ == (TypeErrorS::NotEq {
                lhs: print_nf_s(lhs@),
                rhs: print_nf_s(rhs@),
                lhs_span: nf_info_s(lhs@).span,
                rhs_span: nf_info_s(rhs@).span,
            }),
    {
        TypeError::NotEq {
            lhs: lhs.print_to_string(),
            rhs: rhs.print_to_string(),
            lhs_span: lhs.info().span,
            rhs_span: rhs.info().span,
        }
    }

    /// A pattern match with missing, undeclared or duplicate cases.
    pub fn invalid_match(
        missing: &Vec<String>,
        undeclared: &Vec<String>,
        duplicate: &Vec<String>,
        info: &crate::info::Info,
    ) -> (r: TypeError)
        ensures
            r@ == (TypeErrorS::InvalidMatch {
                msg: invalid_match_msg_s(
                    missing.deep_view(),
                    undeclared.deep_view(),
                    duplicate.deep_view(),
                ),
                span: info.span,
            }),
    {
        let mut msgs: Vec<String> = Vec::new();
        if missing.len() > 0 {
            let mut m = "missing ".to_owned();
            m.append(comma_separated(missing).as_str());
            msgs.push(m);
        }
        if undeclared.len() > 0 {
            let mut m = "undeclared ".to_owned();
            m.append(comma_separated(undeclared).as_str());
            msgs.push(m);
        }
        if duplicate.len() > 0 {
            let mut m = "duplicate ".to_owned();
            m.append(comma_separated(duplicate).as_str());
            msgs.push(m);
        }
        proof {
            let m1: Seq<Seq<char>> = if missing.deep_view().len() > 0 {
                seq!["missing "@ + join_sep(", "@, missing.deep_view())]
            } else {
                Seq::empty()
            };
            let m2: Seq<Seq<char>> = if undeclared.deep_view().len() > 0 {
                seq!["undeclared "@ + join_sep(", "@, undeclared.deep_view())]
            } else {
                Seq::empty()
            };
            let m3: Seq<Seq<char>> = if duplicate.deep_view().len() > 0 {
                seq!["duplicate "@ + join_sep(", "@, duplicate.deep_view())]
            } else {
                Seq::empty()
            };
            assert(msgs.deep_view() =~= m1 + m2 + m3);
        }
        TypeError::InvalidMatch { msg: separated("; ", &msgs), span: info.span }
    }

    /// A type constructor application was expected.
    pub fn expected_typ_app(got: &nf::Nf) -> (r: TypeError)
        ensures
            r@ == (TypeErrorS::ExpectedTypApp {
                got: print_nf_s(got@),
                span: nf_info_s(got@).span,
            }),
    {
        TypeError::ExpectedTypApp { got: got.print_to_string(), span: got.info().span }
    }
}

impl UnifyError {
    /// The variable occurs in the term it would be bound to.
    pub fn occurs_check_failed(idx: usize, exp: &ast::Exp) -> (r: UnifyError)
        ensures
            r@ == (UnifyErrorS::OccursCheckFailed {
                idx,
                exp: print_exp_s(exp@),
                span: exp_span_s(exp@),
            }),
    {
        UnifyError::OccursCheckFailed { idx, exp: exp.print_to_string(), span: exp.span() }
    }

    /// Annotated terms cannot be unified.
    pub fn unsupported_annotation(exp: &ast::Exp) -> (r: UnifyError)
        ensures
            r@ == (UnifyErrorS::UnsupportedAnnotation {
                exp: print_exp_s(exp@),
                span: exp_span_s(exp@),
            }),
    {
        UnifyError::UnsupportedAnnotation { exp: exp.print_to_string(), span: exp.span() }
    }

    /// Neither side determines the other.
    pub fn cannot_decide(lhs: &ast::Exp, rhs: &ast::Exp) -> (r: UnifyError)
        ensures
            r@ == (UnifyErrorS::CannotDecide {
                lhs: print_exp_s(lhs@),
                rhs: print_exp_s(rhs@),
                lhs_span: exp_span_s(lhs@),
                rhs_span: exp_span_s(rhs@),
            }),
    {
        UnifyError::CannotDecide {
            lhs: lhs.print_to_string(),
            rhs: rhs.print_to_string(),
            lhs_span: lhs.span(),
            rhs_span: rhs.span(),
        }
    }
}

} // verus!
