use vstd::prelude::*;

use crate::ast;
use crate::ast::{CallKind, ExpS};
use crate::decls;
use crate::decls::{DeclS, TypeS};
use crate::errors::{EvalError, TypeErrorS};
use crate::span::Span;
use crate::val;
use crate::val::{ClosureS, NeuS, ValS};

verus! {

/// A structural measure on terms, used to order the evaluator's recursion:
/// within one step budget, evaluation only descends into smaller terms.
pub open spec fn size_exp(e: ExpS) -> nat
    decreases e,
{
    match e {
        ExpS::Variable { .. } => 1,
        ExpS::TypCtor { args, .. } => 1 + size_exps(args),
        ExpS::Call { args, .. } => 1 + size_exps(args),
        ExpS::DotCall { exp, args, .. } => 3 + size_exp(*exp) + size_exps(args),
        ExpS::Anno { exp, .. } => 1 + size_exp(*exp),
        ExpS::TypeUniv { .. } => 1,
        ExpS::LocalMatch { on_exp, .. } => 2 + size_exp(*on_exp),
        ExpS::LocalComatch { .. } => 1,
        ExpS::Hole { .. } => 1,
    }
}

/// The joint measure of a list of terms.
pub open spec fn size_exps(es: Seq<ExpS>) -> nat
    decreases es,
{
    if es.len() == 0 {
        0
    } else {
        1 + size_exps(es.drop_last()) + size_exp(es.last())
    }
}

/// Evaluating one (co)case only captures the environment: the body becomes a
/// closure of the case's arity over the environment at capture time.
pub open spec fn eval_case_s(c: ast::CaseS, env: Seq<ValS>) -> val::CaseS {
    val::CaseS {
        span: c.span,
        name: c.name,
        n_params: c.n_params,
        body: match c.body {
            Some(b) => Some(ClosureS { body: *b, n_args: c.n_params, env }),
            None => None,
        },
    }
}

/// Evaluating a list of (co)cases, in order.
pub open spec fn eval_cases_s(cs: Seq<ast::CaseS>, env: Seq<ValS>) -> Seq<val::CaseS>
    decreases cs.len(),
{
    if cs.len() == 0 {
        Seq::empty()
    } else {
        eval_cases_s(cs.drop_last(), env).push(eval_case_s(cs.last(), env))
    }
}

/// Evaluating a (co)match body captures a closure for every case.
pub open spec fn eval_match_s(m: ast::MatchS, env: Seq<ValS>) -> val::MatchS {
    val::MatchS { span: m.span, cases: eval_cases_s(m.cases, env), omit_absurd: m.omit_absurd }
}

/// The first case bearing `name`; case selection is by name, not by source
/// order of the scrutinee's type.
pub open spec fn find_case_s(cs: Seq<val::CaseS>, name: Seq<char>) -> Option<val::CaseS>
    decreases cs.len(),
{
    if cs.len() == 0 {
        None
    } else if cs[0].name == name {
        Some(cs[0])
    } else {
        find_case_s(cs.drop_first(), name)
    }
}

/// A case scan that has rejected a prefix may go on from the rest alone.
pub proof fn lemma_find_case_skip(cs: Seq<val::CaseS>, name: Seq<char>, i: int)
    requires
        0 <= i <= cs.len(),
        forall|j: int| 0 <= j < i ==> (#[trigger] cs[j]).name != name,
    ensures
        find_case_s(cs, name) == find_case_s(cs.skip(i), name),
    decreases i,
{
    if i > 0 {
        assert(cs.drop_first() =~= cs.skip(1));
        lemma_find_case_skip(cs.drop_first(), name, i - 1);
        assert(cs.drop_first().skip(i - 1) =~= cs.skip(i));
    } else {
        assert(cs.skip(0) =~= cs);
    }
}

/// What evaluation returns: the value of the term, or the first error raised.
/// Evaluation is deterministic and left-to-right in argument lists; a step
/// budget bounds how many β-reductions may fire, and exhausting it raises
/// `EvalError::OutOfFuel`.
pub open spec fn eval_s(ds: Seq<DeclS>, e: ExpS, env: Seq<ValS>, fuel: nat) -> Result<
    ValS,
    TypeErrorS,
>
    decreases fuel, size_exp(e),
{
    match e {
        ExpS::Variable { span, idx } => {
            if idx < env.len() {
                Ok(env[env.len() - 1 - idx])
            } else {
                Err(TypeErrorS::Impossible { message: "unbound variable"@, span })
            }
        },
        ExpS::TypCtor { span, name, args } => match eval_args_s(ds, args, env, fuel) {
            Err(e0) => Err(e0),
            Ok(vs) => Ok(ValS::TypCtor { span, name, args: vs }),
        },
        ExpS::Call { span, kind, name, args } => match eval_args_s(ds, args, env, fuel) {
            Err(e0) => Err(e0),
            Ok(vs) => match kind {
                CallKind::Ctor => Ok(ValS::Ctor { span, kind: CallKind::Ctor, name, args: vs }),
                CallKind::Codef => match decls::codef_res_s(ds, name, None) {
                    Err(le) => Err(TypeErrorS::Lookup(le)),
                    Ok(cd) => Ok(ValS::Comatch {
                        span,
                        name,
                        is_lambda_sugar: false,
                        body: eval_match_s(cd.body, vs),
                    }),
                },
                CallKind::Def => Err(TypeErrorS::Impossible {
                    message: "top-level definition called without a receiver"@,
                    span,
                }),
            },
        },
        ExpS::DotCall { span, exp, name, args } => match eval_s(ds, *exp, env, fuel) {
            Err(e0) => Err(e0),
            Ok(v) => match eval_args_s(ds, args, env, fuel) {
                Err(e0) => Err(e0),
                Ok(vs) => dot_call_step_s(ds, span, v, name, vs, fuel),
            },
        },
        ExpS::Anno { exp, .. } => eval_s(ds, *exp, env, fuel),
        ExpS::TypeUniv { span } => Ok(ValS::TypeUniv { span }),
        ExpS::LocalMatch { span, name, on_exp, body } => match eval_s(ds, *on_exp, env, fuel) {
            Err(e0) => Err(e0),
            Ok(v) => match v {
                ValS::Ctor { name: cname, args: cargs, .. } => beta_match_s(
                    ds,
                    eval_match_s(body, env),
                    cname,
                    cargs,
                    fuel,
                ),
                ValS::Neu { exp: n } => Ok(ValS::Neu {
                    exp: NeuS::Match {
                        span: None,
                        name,
                        on_exp: Box::new(n),
                        body: eval_match_s(body, env),
                    },
                }),
                _ => Err(TypeErrorS::Impossible {
                    message: "match on a value that is not a constructor"@,
                    span,
                }),
            },
        },
        ExpS::LocalComatch { span, name, is_lambda_sugar, body } => Ok(ValS::Comatch {
            span,
            name,
            is_lambda_sugar,
            body: eval_match_s(body, env),
        }),
        ExpS::Hole { span } => Ok(ValS::Neu { exp: NeuS::Hole { span } }),
    }
}

/// Evaluating a list of arguments, left to right; the first error wins.
pub open spec fn eval_args_s(ds: Seq<DeclS>, es: Seq<ExpS>, env: Seq<ValS>, fuel: nat) -> Result<
    Seq<ValS>,
    TypeErrorS,
>
    decreases fuel, size_exps(es),
{
    if es.len() == 0 {
        Ok(Seq::empty())
    } else {
        match eval_args_s(ds, es.drop_last(), env, fuel) {
            Err(e0) => Err(e0),
            Ok(vs) => match eval_s(ds, es.last(), env, fuel) {
                Err(e0) => Err(e0),
                Ok(v) => Ok(vs.push(v)),
            },
        }
    }
}

/// Dispatch of a dot call on the value of its receiver.
pub open spec fn dot_call_step_s(
    ds: Seq<DeclS>,
    span: Option<Span>,
    v: ValS,
    name: Seq<char>,
    args: Seq<ValS>,
    fuel: nat,
) -> Result<ValS, TypeErrorS>
    decreases fuel, 2nat,
{
    match v {
        ValS::Ctor { span: cspan, name: cname, args: cargs, .. } => {
            match decls::type_decl_for_member_res_s(ds, cname, cspan) {
                Err(le) => Err(TypeErrorS::Lookup(le)),
                Ok(TypeS::Data(_)) => match decls::def_res_s(ds, name, None) {
                    Err(le) => Err(TypeErrorS::Lookup(le)),
                    Ok(df) => beta_match_s(ds, eval_match_s(df.body, args), cname, cargs, fuel),
                },
                Ok(TypeS::Codata(_)) => match decls::codef_res_s(ds, cname, None) {
                    Err(le) => Err(TypeErrorS::Lookup(le)),
                    Ok(cd) => beta_comatch_s(ds, eval_match_s(cd.body, cargs), name, args, fuel),
                },
            }
        },
        ValS::Comatch { body, .. } => beta_comatch_s(ds, body, name, args, fuel),
        ValS::Neu { exp: n } => Ok(ValS::Neu {
            exp: NeuS::Dtor { span, exp: Box::new(n), name, args },
        }),
        _ => Err(TypeErrorS::Impossible {
            message: "dot call on a value that cannot be eliminated"@,
            span,
        }),
    }
}

/// β-match: select the case bearing the constructor's name and apply its
/// closure to the constructor's arguments.  A missing case, an absurd case or
/// an arity mismatch violates a type-checker invariant and surfaces as
/// `Impossible`.
pub open spec fn beta_match_s(
    ds: Seq<DeclS>,
    body: val::MatchS,
    ctor_name: Seq<char>,
    args: Seq<ValS>,
    fuel: nat,
) -> Result<ValS, TypeErrorS>
    decreases fuel, 1nat,
{
    match find_case_s(body.cases, ctor_name) {
        None => Err(TypeErrorS::Impossible {
            message: "missing case for "@ + ctor_name,
            span: body.span,
        }),
        Some(c) => match c.body {
            None => Err(TypeErrorS::Impossible {
                message: "absurd case for "@ + ctor_name + " taken"@,
                span: body.span,
            }),
            Some(cl) => {
                if args.len() == cl.n_args {
                    apply_s(ds, cl, args, fuel)
                } else {
                    Err(TypeErrorS::Impossible {
                        message: "wrong number of arguments for case "@ + ctor_name,
                        span: body.span,
                    })
                }
            },
        },
    }
}

/// β-comatch: the dual of β-match, selecting by destructor name.
pub open spec fn beta_comatch_s(
    ds: Seq<DeclS>,
    body: val::MatchS,
    dtor_name: Seq<char>,
    args: Seq<ValS>,
    fuel: nat,
) -> Result<ValS, TypeErrorS>
    decreases fuel, 1nat,
{
    match find_case_s(body.cases, dtor_name) {
        None => Err(TypeErrorS::Impossible {
            message: "missing cocase for "@ + dtor_name,
            span: body.span,
        }),
        Some(c) => match c.body {
            None => Err(TypeErrorS::Impossible {
                message: "absurd cocase for "@ + dtor_name + " taken"@,
                span: body.span,
            }),
            Some(cl) => {
                if args.len() == cl.n_args {
                    apply_s(ds, cl, args, fuel)
                } else {
                    Err(TypeErrorS::Impossible {
                        message: "wrong number of arguments for cocase "@ + dtor_name,
                        span: body.span,
                    })
                }
            },
        },
    }
}

/// Applying a closure: bind the arguments on top of the captured environment
/// and evaluate the captured body there, spending one unit of the budget.
pub open spec fn apply_s(ds: Seq<DeclS>, cl: ClosureS, args: Seq<ValS>, fuel: nat) -> Result<
    ValS,
    TypeErrorS,
>
    decreases fuel, 0nat,
{
    if fuel == 0 {
        Err(TypeErrorS::Eval(EvalError::OutOfFuel))
    } else {
        eval_s(ds, cl.body, cl.env + args, (fuel - 1) as nat)
    }
}

} // verus!

verus! {

use crate::ast::{view_exp, view_exps, lemma_view_exps};
use crate::errors::TypeError;
use crate::outside::str_eq;
use crate::val::{view_vals, lemma_view_vals, lemma_view_vals_take, lemma_view_val_cases};
use vstd::string::StringExecFns;

/// Every term in a list weighs less than the list.
proof fn lemma_size_exps_bound(es: Seq<ExpS>, i: int)
    requires
        0 <= i < es.len(),
    ensures
        size_exp(es[i]) < size_exps(es),
    decreases es.len(),
{
    if i == es.len() - 1 {
        assert(es.last() == es[i]);
    } else {
        lemma_size_exps_bound(es.drop_last(), i);
        assert(es.drop_last()[i] == es[i]);
    }
}

/// Once a prefix of an argument list fails, the whole list fails the same way.
proof fn lemma_eval_args_err_extend(
    ds: Seq<DeclS>,
    es: Seq<ExpS>,
    env: Seq<ValS>,
    fuel: nat,
    j: int,
)
    requires
        0 <= j <= es.len(),
        eval_args_s(ds, es.take(j), env, fuel) is Err,
    ensures
        eval_args_s(ds, es, env, fuel) == eval_args_s(ds, es.take(j), env, fuel),
    decreases es.len() - j,
{
    if j < es.len() {
        assert(es.take(j + 1).drop_last() =~= es.take(j));
        assert(eval_args_s(ds, es.take(j + 1), env, fuel) == eval_args_s(
            ds,
            es.take(j),
            env,
            fuel,
        ));
        lemma_eval_args_err_extend(ds, es, env, fuel, j + 1);
    } else {
        assert(es.take(j) =~= es);
    }
}

impl ast::Match {
    /// Evaluate a (co)match body: capture the environment in a closure for
    /// every case.  This never fails and consumes no budget.
    pub fn eval(&self, env: &val::Env) -> (r: val::Match)
        ensures
            r@ == eval_match_s(self@, env@),
    {
        let mut cases: Vec<val::Case> = Vec::new();
        proof {
            assert(crate::ast::view_cases(self.cases@).take(0) =~= Seq::<ast::CaseS>::empty());
            assert(val::view_cases(cases@) =~= eval_cases_s(
                crate::ast::view_cases(self.cases@).take(0),
                env@,
            ));
        }
        let mut i: usize = 0;
        while i < self.cases.len()
            invariant
                i <= self.cases@.len(),
                val::view_cases(cases@) == eval_cases_s(
                    crate::ast::view_cases(self.cases@).take(i as int),
                    env@,
                ),
            decreases self.cases@.len() - i,
        {
            let c = &self.cases[i];
            let body = match &c.body {
                Some(b) => Some(
                    val::Closure {
                        body: Box::new((**b).clone()),
                        n_args: c.n_params,
                        env: env.clone(),
                    },
                ),
                None => None,
            };
            let ghost prev = cases@;
            cases.push(val::Case { span: c.span, name: c.name.clone(), n_params: c.n_params, body });
            i += 1;
            proof {
                let cs = crate::ast::view_cases(self.cases@);
                crate::ast::lemma_view_cases(self.cases@);
                assert(cs.take(i as int).drop_last() =~= cs.take(i - 1));
                assert(cs.take(i as int).last() == cs[i - 1]);
                assert(cases@.drop_last() =~= prev);
                assert(val::view_cases(cases@) == val::view_cases(prev).push(
                    val::view_case(cases@.last()),
                ));
                assert(val::view_case(cases@.last()) == eval_case_s(cs[i - 1], env@));
                assert(val::view_cases(cases@) =~= eval_cases_s(cs.take(i as int), env@));
            }
        }
        proof {
            crate::ast::lemma_view_cases(self.cases@);
            assert(crate::ast::view_cases(self.cases@).take(self.cases@.len() as int)
                =~= crate::ast::view_cases(self.cases@));
        }
        val::Match { span: self.span, cases, omit_absurd: self.omit_absurd }
    }
}

impl ast::Exp {
    /// Evaluate a term under an environment and a step budget.  The
    /// environment is exactly as deep on exit as on entry, on every path,
    /// error paths included.
    pub fn eval(&self, prg: &decls::Decls, env: &mut val::Env, fuel: u64) -> (r: Result<
        val::Val,
        TypeError,
    >)
        ensures
            final(env)@ == old(env)@,
            (match r {
                Ok(v) => Ok::<ValS, TypeErrorS>(v@),
                Err(e0) => Err(e0@),
            }) == eval_s(prg@, self@, old(env)@, fuel as nat),
        decreases fuel, size_exp(view_exp(*self)),
    {
        match self {
            ast::Exp::Variable { span, idx } => {
                if *idx < env.depth() {
                    Ok(env.lookup(*idx))
                } else {
                    Err(
                        TypeError::Impossible {
                            message: "unbound variable".to_owned(),
                            span: *span,
                        },
                    )
                }
            },
            ast::Exp::TypCtor { span, name, args } => match eval_args(prg, args, env, fuel) {
                Err(e0) => Err(e0),
                Ok(vs) => Ok(val::Val::TypCtor { span: *span, name: name.clone(), args: vs }),
            },
            ast::Exp::Call { span, kind, name, args } => match eval_args(prg, args, env, fuel) {
                Err(e0) => Err(e0),
                Ok(vs) => match kind {
                    CallKind::Ctor => Ok(
                        val::Val::Ctor {
                            span: *span,
                            kind: CallKind::Ctor,
                            name: name.clone(),
                            args: vs,
                        },
                    ),
                    CallKind::Codef => match prg.codef(name.as_str(), None) {
                        Err(le) => Err(TypeError::Lookup(le)),
                        Ok(cd) => {
                            let fresh = val::Env { entries: vs };
                            Ok(
                                val::Val::Comatch {
                                    span: *span,
                                    name: name.clone(),
                                    is_lambda_sugar: false,
                                    body: cd.body.eval(&fresh),
                                },
                            )
                        },
                    },
                    CallKind::Def => Err(
                        TypeError::Impossible {
                            message: "top-level definition called without a receiver".to_owned(),
                            span: *span,
                        },
                    ),
                },
            },
            ast::Exp::DotCall { span, exp, name, args } => match (**exp).eval(prg, env, fuel) {
                Err(e0) => Err(e0),
                Ok(v) => match eval_args(prg, args, env, fuel) {
                    Err(e0) => Err(e0),
                    Ok(vs) => dot_call_step(prg, *span, v, name, vs, fuel),
                },
            },
            ast::Exp::Anno { exp, .. } => (**exp).eval(prg, env, fuel),
            ast::Exp::TypeUniv { span } => Ok(val::Val::TypeUniv { span: *span }),
            ast::Exp::LocalMatch { span, name, on_exp, body } => {
                match (**on_exp).eval(prg, env, fuel) {
                    Err(e0) => Err(e0),
                    Ok(v) => {
                        let mbody = body.eval(env);
                        match v {
                            val::Val::Ctor { name: cname, args: cargs, .. } => beta_match(
                                prg,
                                mbody,
                                &cname,
                                cargs,
                                fuel,
                            ),
                            val::Val::Neu { exp: nexp } => Ok(
                                val::Val::Neu {
                                    exp: val::Neu::Match {
                                        span: None,
                                        name: name.clone(),
                                        on_exp: Box::new(nexp),
                                        body: mbody,
                                    },
                                },
                            ),
                            _ => Err(
                                TypeError::Impossible {
                                    message: "match on a value that is not a constructor"
                                        .to_owned(),
                                    span: *span,
                                },
                            ),
                        }
                    },
                }
            },
            ast::Exp::LocalComatch { span, name, is_lambda_sugar, body } => {
                let mbody = body.eval(env);
                Ok(
                    val::Val::Comatch {
                        span: *span,
                        name: name.clone(),
                        is_lambda_sugar: *is_lambda_sugar,
                        body: mbody,
                    },
                )
            },
            ast::Exp::Hole { span } => Ok(val::Val::Neu { exp: val::Neu::Hole { span: *span } }),
        }
    }
}

/// Evaluate an argument list, left to right; the first error wins.
fn eval_args(prg: &decls::Decls, args: &Vec<ast::Exp>, env: &mut val::Env, fuel: u64) -> (r: Result<
    Vec<val::Val>,
    TypeError,
>)
    ensures
        final(env)@ == old(env)@,
        (match r {
            Ok(vs) => Ok::<Seq<ValS>, TypeErrorS>(view_vals(vs@)),
            Err(e0) => Err(e0@),
        }) == eval_args_s(prg@, view_exps(args@), old(env)@, fuel as nat),
    decreases fuel, size_exps(view_exps(args@)),
{
    let mut out: Vec<val::Val> = Vec::new();
    proof {
        assert(view_exps(args@).take(0) =~= Seq::<ExpS>::empty());
        assert(view_vals(out@) =~= Seq::<ValS>::empty());
    }
    let mut i: usize = 0;
    while i < args.len()
        invariant
            i <= args@.len(),
            env@ == old(env)@,
            eval_args_s(prg@, view_exps(args@).take(i as int), old(env)@, fuel as nat) == Ok::<
                Seq<ValS>,
                TypeErrorS,
            >(view_vals(out@)),
        decreases args@.len() - i,
    {
        proof {
            lemma_view_exps(args@);
            lemma_size_exps_bound(view_exps(args@), i as int);
        }
        match args[i].eval(prg, env, fuel) {
            Err(e0) => {
                proof {
                    let es = view_exps(args@);
                    assert(es.take(i + 1).drop_last() =~= es.take(i as int));
                    assert(es.take(i + 1).last() == es[i as int]);
                    lemma_eval_args_err_extend(prg@, es, old(env)@, fuel as nat, i + 1);
                }
                return Err(e0);
            },
            Ok(v) => {
                let ghost prev = out@;
                out.push(v);
                i += 1;
                proof {
                    let es = view_exps(args@);
                    assert(es.take(i as int).drop_last() =~= es.take(i - 1));
                    assert(es.take(i as int).last() == es[i - 1]);
                    assert(out@.drop_last() =~= prev);
                    assert(view_vals(out@) == view_vals(prev).push(val::view_val(out@.last())));
                }
            },
        }
    }
    proof {
        lemma_view_exps(args@);
        assert(view_exps(args@).take(args@.len() as int) =~= view_exps(args@));
    }
    Ok(out)
}

/// Dispatch a dot call on the value of its receiver: a def on a data
/// constructor, a codef's cocase on a codata-shaped constructor, a cocase of
/// a comatch, or a blocked destructor on a neutral receiver.
fn dot_call_step(
    prg: &decls::Decls,
    span: Option<Span>,
    v: val::Val,
    name: &String,
    args: Vec<val::Val>,
    fuel: u64,
) -> (r: Result<val::Val, TypeError>)
    ensures
        (match r {
            Ok(rv) => Ok::<ValS, TypeErrorS>(rv@),
            Err(e0) => Err(e0@),
        }) == dot_call_step_s(prg@, span, v@, name@, view_vals(args@), fuel as nat),
    decreases fuel, 2nat,
{
    match v {
        val::Val::Ctor { span: cspan, name: cname, args: cargs, .. } => {
            match prg.type_decl_for_member(cname.as_str(), cspan) {
                Err(le) => Err(TypeError::Lookup(le)),
                Ok(decls::Type::Data(_)) => match prg.def(name.as_str(), None) {
                    Err(le) => Err(TypeError::Lookup(le)),
                    Ok(df) => {
                        let fresh = val::Env { entries: args };
                        let body = df.body.eval(&fresh);
                        beta_match(prg, body, &cname, cargs, fuel)
                    },
                },
                Ok(decls::Type::Codata(_)) => match prg.codef(cname.as_str(), None) {
                    Err(le) => Err(TypeError::Lookup(le)),
                    Ok(cd) => {
                        let fresh = val::Env { entries: cargs };
                        let body = cd.body.eval(&fresh);
                        beta_comatch(prg, body, name, args, fuel)
                    },
                },
            }
        },
        val::Val::Comatch { body, .. } => beta_comatch(prg, body, name, args, fuel),
        val::Val::Neu { exp } => Ok(
            val::Val::Neu {
                exp: val::Neu::Dtor { span, exp: Box::new(exp), name: name.clone(), args },
            },
        ),
        _ => Err(
            TypeError::Impossible {
                message: "dot call on a value that cannot be eliminated".to_owned(),
                span,
            },
        ),
    }
}

/// Select the case bearing `name` in an evaluated (co)match body.
fn find_case(body: &val::Match, name: &String) -> (r: Option<usize>)
    ensures
        (match r {
            Some(i) => i < body.cases@.len() && find_case_s(body@.cases, name@) == Some(
                body@.cases[i as int],
            ),
            None => find_case_s(body@.cases, name@) is None,
        }),
{
    let mut i: usize = 0;
    proof {
        lemma_view_val_cases(body.cases@);
    }
    while i < body.cases.len()
        invariant
            i <= body.cases@.len(),
            body@.cases.len() == body.cases@.len(),
            forall|j: int| 0 <= j < i ==> (#[trigger] body@.cases[j]).name != name@,
            forall|j: int|
                0 <= j < body.cases@.len() ==> body@.cases[j] == val::view_case(body.cases@[j]),
        decreases body.cases@.len() - i,
    {
        if str_eq(body.cases[i].name.as_str(), name.as_str()) {
            proof {
                lemma_find_case_skip(body@.cases, name@, i as int);
                assert(body@.cases.skip(i as int)[0] == body@.cases[i as int]);
            }
            return Some(i);
        }
        i += 1;
    }
    proof {
        lemma_find_case_skip(body@.cases, name@, body@.cases.len() as int);
        assert(body@.cases.skip(body@.cases.len() as int) =~= Seq::<val::CaseS>::empty());
    }
    None
}

/// β-match: find the case for the constructor and apply its closure to the
/// constructor's arguments.
#[verifier::rlimit(60)]
pub fn beta_match(
    prg: &decls::Decls,
    body: val::Match,
    ctor_name: &String,
    args: Vec<val::Val>,
    fuel: u64,
) -> (r: Result<val::Val, TypeError>)
    ensures
        (match r {
            Ok(rv) => Ok::<ValS, TypeErrorS>(rv@),
            Err(e0) => Err(e0@),
        }) == beta_match_s(prg@, body@, ctor_name@, view_vals(args@), fuel as nat),
    decreases fuel, 1nat,
{
    proof {
        lemma_view_val_cases(body.cases@);
        lemma_view_vals(args@);
    }
    match find_case(&body, ctor_name) {
        None => {
            let mut message = "missing case for ".to_owned();
            message.append(ctor_name.as_str());
            Err(TypeError::Impossible { message, span: body.span })
        },
        Some(i) => match &body.cases[i].body {
            None => {
                let mut message = "absurd case for ".to_owned();
                message.append(ctor_name.as_str());
                message.append(" taken");
                Err(TypeError::Impossible { message, span: body.span })
            },
            Some(cl) => {
                if args.len() == cl.n_args {
                    cl.clone().apply(prg, args, fuel)
                } else {
                    let mut message = "wrong number of arguments for case ".to_owned();
                    message.append(ctor_name.as_str());
                    Err(TypeError::Impossible { message, span: body.span })
                }
            },
        },
    }
}

/// β-comatch: the dual of β-match, selecting by destructor name.
#[verifier::rlimit(60)]
pub fn beta_comatch(
    prg: &decls::Decls,
    body: val::Match,
    dtor_name: &String,
    args: Vec<val::Val>,
    fuel: u64,
) -> (r: Result<val::Val, TypeError>)
    ensures
        (match r {
            Ok(rv) => Ok::<ValS, TypeErrorS>(rv@),
            Err(e0) => Err(e0@),
        }) == beta_comatch_s(prg@, body@, dtor_name@, view_vals(args@), fuel as nat),
    decreases fuel, 1nat,
{
    proof {
        lemma_view_val_cases(body.cases@);
        lemma_view_vals(args@);
    }
    match find_case(&body, dtor_name) {
        None => {
            let mut message = "missing cocase for ".to_owned();
            message.append(dtor_name.as_str());
            Err(TypeError::Impossible { message, span: body.span })
        },
        Some(i) => match &body.cases[i].body {
            None => {
                let mut message = "absurd cocase for ".to_owned();
                message.append(dtor_name.as_str());
                message.append(" taken");
                Err(TypeError::Impossible { message, span: body.span })
            },
            Some(cl) => {
                if args.len() == cl.n_args {
                    cl.clone().apply(prg, args, fuel)
                } else {
                    let mut message = "wrong number of arguments for cocase ".to_owned();
                    message.append(dtor_name.as_str());
                    Err(TypeError::Impossible { message, span: body.span })
                }
            },
        },
    }
}

impl val::Closure {
    /// Apply a closure to exactly as many arguments as it binds: push them on
    /// the captured environment and evaluate the captured body there, within
    /// the remaining budget.
    pub fn apply(self, prg: &decls::Decls, args: Vec<val::Val>, fuel: u64) -> (r: Result<
        val::Val,
        TypeError,
    >)
        requires
            args@.len() == self.n_args,
        ensures
            (match r {
                Ok(rv) => Ok::<ValS, TypeErrorS>(rv@),
                Err(e0) => Err(e0@),
            }) == apply_s(prg@, self@, view_vals(args@), fuel as nat),
        decreases fuel, 0nat,
    {
        if fuel == 0 {
            Err(TypeError::Eval(EvalError::OutOfFuel))
        } else {
            let val::Closure { body, n_args: _, env } = self;
            let ghost env0 = env@;
            let mut env = env;
            let mut i: usize = 0;
            proof {
                assert(view_vals(args@.take(0)) =~= Seq::<ValS>::empty());
                assert(env@ =~= env0 + view_vals(args@.take(0)));
            }
            while i < args.len()
                invariant
                    i <= args@.len(),
                    env@ == env0 + view_vals(args@.take(i as int)),
                decreases args@.len() - i,
            {
                env.push(args[i].clone());
                i += 1;
                proof {
                    lemma_view_vals(args@.take(i as int));
                    assert(args@.take(i as int).drop_last() =~= args@.take(i - 1));
                    assert(args@.take(i as int).last() == args@[i - 1]);
                    assert(env@ =~= env0 + view_vals(args@.take(i as int)));
                }
            }
            proof {
                assert(args@.take(args@.len() as int) =~= args@);
            }
            (*body).eval(prg, &mut env, fuel - 1)
        }
    }
}

} // verus!

verus! {

/// When some case bears the name, case selection finds one, and what it
/// finds bears that name.
pub proof fn lemma_find_case_some(cs: Seq<val::CaseS>, c: Seq<char>)
    requires
        exists|i: int| 0 <= i < cs.len() && (#[trigger] cs[i]).name == c,
    ensures
        find_case_s(cs, c) is Some,
        (match find_case_s(cs, c) {
            Some(sel) => sel.name == c,
            None => false,
        }),
    decreases cs.len(),
{
    if cs[0].name != c {
        let i = choose|i: int| 0 <= i < cs.len() && (#[trigger] cs[i]).name == c;
        assert(cs.drop_first()[i - 1] == cs[i]);
        lemma_find_case_some(cs.drop_first(), c);
    }
}

/// β-match totality, given coverage: when the evaluated match body holds a
/// case for the constructor — as every body produced by a well-typed
/// definition does — β-match selects such a case and never reports a missing
/// one; when the selected case has a body of matching arity, the result is
/// exactly the application of that case's closure.
pub proof fn lemma_beta_match_totality(
    ds: Seq<DeclS>,
    body: val::MatchS,
    c: Seq<char>,
    args: Seq<ValS>,
    fuel: nat,
)
    requires
        exists|i: int| 0 <= i < body.cases.len() && (#[trigger] body.cases[i]).name == c,
    ensures
        find_case_s(body.cases, c) is Some,
        (match find_case_s(body.cases, c) {
            Some(sel) => sel.name == c && (match sel.body {
                Some(cl) => args.len() == cl.n_args ==> beta_match_s(ds, body, c, args, fuel)
                    == apply_s(ds, cl, args, fuel),
                None => true,
            }),
            None => false,
        }),
{
    lemma_find_case_some(body.cases, c);
}

/// The dual of β-match totality, for cocases.
pub proof fn lemma_beta_comatch_totality(
    ds: Seq<DeclS>,
    body: val::MatchS,
    d: Seq<char>,
    args: Seq<ValS>,
    fuel: nat,
)
    requires
        exists|i: int| 0 <= i < body.cases.len() && (#[trigger] body.cases[i]).name == d,
    ensures
        find_case_s(body.cases, d) is Some,
        (match find_case_s(body.cases, d) {
            Some(sel) => sel.name == d && (match sel.body {
                Some(cl) => args.len() == cl.n_args ==> beta_comatch_s(ds, body, d, args, fuel)
                    == apply_s(ds, cl, args, fuel),
                None => true,
            }),
            None => false,
        }),
{
    lemma_find_case_some(body.cases, d);
}

/// Neutral receivers block reduction: a dot call whose receiver evaluated to
/// a neutral value yields the blocked destructor application, untouched; no
/// β-step is attempted.
pub proof fn lemma_neutral_dot_call_blocks(
    ds: Seq<DeclS>,
    span: Option<Span>,
    n: NeuS,
    name: Seq<char>,
    args: Seq<ValS>,
    fuel: nat,
)
    ensures
        dot_call_step_s(ds, span, ValS::Neu { exp: n }, name, args, fuel) == Ok::<
            ValS,
            TypeErrorS,
        >(ValS::Neu { exp: NeuS::Dtor { span, exp: Box::new(n), name, args } }),
{
}

/// Neutral scrutinees block reduction: a local match whose scrutinee
/// evaluates to a neutral value yields the blocked match, with the cases
/// captured but none selected.
pub proof fn lemma_neutral_match_blocks(
    ds: Seq<DeclS>,
    span: Option<Span>,
    mname: Seq<char>,
    on_exp: Box<ExpS>,
    body: ast::MatchS,
    env: Seq<ValS>,
    fuel: nat,
)
    requires
        (match eval_s(ds, *on_exp, env, fuel) {
            Ok(v) => v is Neu,
            Err(_) => false,
        }),
    ensures
        (match eval_s(ds, *on_exp, env, fuel) {
            Ok(ValS::Neu { exp: n }) => eval_s(
                ds,
                ExpS::LocalMatch { span, name: mname, on_exp, body },
                env,
                fuel,
            ) == Ok::<ValS, TypeErrorS>(
                ValS::Neu {
                    exp: NeuS::Match {
                        span: None,
                        name: mname,
                        on_exp: Box::new(n),
                        body: eval_match_s(body, env),
                    },
                },
            ),
            _ => false,
        }),
{
}

} // verus!

verus! {

/// A first-order closed value: built from constructor values, type
/// constructors, the universe and blocked destructor chains over holes alone
/// — no captured closure and no free variable.
pub open spec fn fo_closed_val(v: ValS) -> bool
    decreases v,
{
    match v {
        ValS::TypCtor { args, .. } => fo_closed_vals(args),
        ValS::Ctor { kind, args, .. } => kind == CallKind::Ctor && fo_closed_vals(args),
        ValS::Comatch { .. } => false,
        ValS::TypeUniv { .. } => true,
        ValS::Neu { exp } => fo_closed_neu(exp),
    }
}

pub open spec fn fo_closed_vals(vs: Seq<ValS>) -> bool
    decreases vs,
{
    if vs.len() == 0 {
        true
    } else {
        fo_closed_vals(vs.drop_last()) && fo_closed_val(vs.last())
    }
}

pub open spec fn fo_closed_neu(n: NeuS) -> bool
    decreases n,
{
    match n {
        NeuS::Var { .. } => false,
        NeuS::Dtor { exp, args, .. } => fo_closed_neu(*exp) && fo_closed_vals(args),
        NeuS::Match { .. } => false,
        NeuS::Hole { .. } => true,
    }
}

/// The value-printing readback of a value: the term that denotes it.  On
/// values that are not first-order closed the readback is a hole; the
/// round-trip law below never reaches that arm.
pub open spec fn quote_val_s(v: ValS) -> ExpS
    decreases v,
{
    match v {
        ValS::TypCtor { span, name, args } => ExpS::TypCtor {
            span,
            name,
            args: quote_vals_s(args),
        },
        ValS::Ctor { span, name, args, .. } => ExpS::Call {
            span,
            kind: CallKind::Ctor,
            name,
            args: quote_vals_s(args),
        },
        ValS::Comatch { span, .. } => ExpS::Hole { span },
        ValS::TypeUniv { span } => ExpS::TypeUniv { span },
        ValS::Neu { exp } => quote_neu_s(exp),
    }
}

pub open spec fn quote_vals_s(vs: Seq<ValS>) -> Seq<ExpS>
    decreases vs,
{
    if vs.len() == 0 {
        Seq::empty()
    } else {
        quote_vals_s(vs.drop_last()).push(quote_val_s(vs.last()))
    }
}

pub open spec fn quote_neu_s(n: NeuS) -> ExpS
    decreases n,
{
    match n {
        NeuS::Var { span, idx } => ExpS::Variable { span, idx },
        NeuS::Dtor { span, exp, name, args } => ExpS::DotCall {
            span,
            exp: Box::new(quote_neu_s(*exp)),
            name,
            args: quote_vals_s(args),
        },
        NeuS::Match { span, .. } => ExpS::Hole { span },
        NeuS::Hole { span } => ExpS::Hole { span },
    }
}

/// Evaluating the readback of a first-order closed value gives back exactly
/// that value, in any environment, under any declarations and any budget:
/// the print-then-evaluate round trip is the identity.
pub proof fn lemma_eval_quote(ds: Seq<DeclS>, v: ValS, env: Seq<ValS>, fuel: nat)
    requires
        fo_closed_val(v),
    ensures
        eval_s(ds, quote_val_s(v), env, fuel) == Ok::<ValS, TypeErrorS>(v),
    decreases v,
{
    match v {
        ValS::TypCtor { span, name, args } => {
            lemma_eval_quote_args(ds, args, env, fuel);
        },
        ValS::Ctor { span, kind, name, args } => {
            lemma_eval_quote_args(ds, args, env, fuel);
        },
        ValS::Comatch { .. } => {},
        ValS::TypeUniv { .. } => {},
        ValS::Neu { exp } => {
            lemma_eval_quote_neu(ds, exp, env, fuel);
        },
    }
}

/// The readback round trip on a list of first-order closed values.
pub proof fn lemma_eval_quote_args(ds: Seq<DeclS>, vs: Seq<ValS>, env: Seq<ValS>, fuel: nat)
    requires
        fo_closed_vals(vs),
    ensures
        eval_args_s(ds, quote_vals_s(vs), env, fuel) == Ok::<Seq<ValS>, TypeErrorS>(vs),
    decreases vs,
{
    if vs.len() == 0 {
        assert(quote_vals_s(vs) =~= Seq::<ExpS>::empty());
        assert(vs =~= Seq::<ValS>::empty());
    } else {
        lemma_eval_quote_args(ds, vs.drop_last(), env, fuel);
        lemma_eval_quote(ds, vs.last(), env, fuel);
        let qs = quote_vals_s(vs);
        assert(qs.drop_last() =~= quote_vals_s(vs.drop_last()));
        assert(qs.last() == quote_val_s(vs.last()));
        assert(vs.drop_last().push(vs.last()) =~= vs);
    }
}

/// The readback round trip on a first-order closed neutral value.
pub proof fn lemma_eval_quote_neu(ds: Seq<DeclS>, n: NeuS, env: Seq<ValS>, fuel: nat)
    requires
        fo_closed_neu(n),
    ensures
        eval_s(ds, quote_neu_s(n), env, fuel) == Ok::<ValS, TypeErrorS>(ValS::Neu { exp: n }),
    decreases n,
{
    match n {
        NeuS::Var { .. } => {},
        NeuS::Dtor { span, exp, name, args } => {
            lemma_eval_quote_neu(ds, *exp, env, fuel);
            lemma_eval_quote_args(ds, args, env, fuel);
            assert(Box::new(*exp) == exp);
            assert(dot_call_step_s(ds, span, ValS::Neu { exp: *exp }, name, args, fuel) == Ok::<
                ValS,
                TypeErrorS,
            >(ValS::Neu { exp: NeuS::Dtor { span, exp, name, args } }));
        },
        NeuS::Match { .. } => {},
        NeuS::Hole { .. } => {},
    }
}

} // verus!

verus! {

/// Every value in a first-order closed list is first-order closed.
pub proof fn lemma_fo_closed_vals_index(vs: Seq<ValS>)
    requires
        fo_closed_vals(vs),
    ensures
        forall|i: int| 0 <= i < vs.len() ==> fo_closed_val(vs[i]),
    decreases vs.len(),
{
    if vs.len() > 0 {
        lemma_fo_closed_vals_index(vs.drop_last());
        assert forall|i: int| 0 <= i < vs.len() implies fo_closed_val(vs[i]) by {
            if i < vs.len() - 1 {
                assert(vs.drop_last()[i] == vs[i]);
            } else {
                assert(vs.last() == vs[i]);
            }
        }
    }
}

impl val::Val {
    /// The value-printing readback of a first-order closed value: the term
    /// that evaluates back to exactly this value.
    pub fn quote(&self) -> (r: ast::Exp)
        requires
            fo_closed_val(self@),
        ensures
            r@ == quote_val_s(self@),
        decreases *self,
    {
        match self {
            val::Val::TypCtor { span, name, args } => ast::Exp::TypCtor {
                span: *span,
                name: name.clone(),
                args: quote_vals(args),
            },
            val::Val::Ctor { span, name, args, .. } => ast::Exp::Call {
                span: *span,
                kind: CallKind::Ctor,
                name: name.clone(),
                args: quote_vals(args),
            },
            val::Val::Comatch { span, .. } => ast::Exp::Hole { span: *span },
            val::Val::TypeUniv { span } => ast::Exp::TypeUniv { span: *span },
            val::Val::Neu { exp } => exp.quote(),
        }
    }
}

impl val::Neu {
    /// The readback of a first-order closed neutral value.
    pub fn quote(&self) -> (r: ast::Exp)
        requires
            fo_closed_neu(self@),
        ensures
            r@ == quote_neu_s(self@),
        decreases *self,
    {
        match self {
            val::Neu::Var { span, idx } => ast::Exp::Variable { span: *span, idx: *idx },
            val::Neu::Dtor { span, exp, name, args } => ast::Exp::DotCall {
                span: *span,
                exp: Box::new((**exp).quote()),
                name: name.clone(),
                args: quote_vals(args),
            },
            val::Neu::Match { span, .. } => ast::Exp::Hole { span: *span },
            val::Neu::Hole { span } => ast::Exp::Hole { span: *span },
        }
    }
}

/// Read back every value in a first-order closed list.
fn quote_vals(vs: &Vec<val::Val>) -> (r: Vec<ast::Exp>)
    requires
        fo_closed_vals(view_vals(vs@)),
    ensures
        view_exps(r@) == quote_vals_s(view_vals(vs@)),
    decreases *vs,
{
    proof {
        lemma_view_vals(vs@);
    }
    let mut r: Vec<ast::Exp> = Vec::new();
    proof {
        assert(view_exps(r@) =~= quote_vals_s(view_vals(vs@).take(0)));
    }
    let mut i: usize = 0;
    while i < vs.len()
        invariant
            i <= vs@.len(),
            fo_closed_vals(view_vals(vs@)),
            view_vals(vs@).len() == vs@.len(),
            forall|j: int| 0 <= j < vs@.len() ==> view_vals(vs@)[j] == val::view_val(vs@[j]),
            view_exps(r@) == quote_vals_s(view_vals(vs@).take(i as int)),
        decreases vs@.len() - i,
    {
        proof {
            lemma_fo_closed_vals_index(view_vals(vs@));
            assert(view_vals(vs@)[i as int] == val::view_val(vs@[i as int]));
            assert(fo_closed_val(view_vals(vs@)[i as int]));
        }
        let ghost prev = r@;
        r.push(vs[i].quote());
        i += 1;
        proof {
            let ws = view_vals(vs@);
            assert(ws.take(i as int).drop_last() =~= ws.take(i - 1));
            assert(ws.take(i as int).last() == ws[i - 1]);
            assert(r@.drop_last() =~= prev);
            assert(view_exps(r@) == view_exps(prev).push(view_exp(r@.last())));
        }
    }
    proof {
        assert(view_vals(vs@).take(vs@.len() as int) =~= view_vals(vs@));
    }
    r
}

} // verus!
