use polarity::ast::{CallKind, Case, Exp, Match};
use polarity::decls::{Codata, Codef, Ctor, Data, Decl, Decls, Def, Dtor, TypAbs};
use polarity::errors::{EvalError, TypeError};
use polarity::val::{Env, Neu, Val};

fn ctor_call(name: &str) -> Exp {
    Exp::Call { span: None, kind: CallKind::Ctor, name: name.to_owned(), args: Vec::new() }
}

fn bool_decls() -> Decls {
    let not_body = Match {
        span: None,
        cases: vec![
            Case {
                span: None,
                name: "True".to_owned(),
                n_params: 0,
                body: Some(Box::new(ctor_call("False"))),
            },
            Case {
                span: None,
                name: "False".to_owned(),
                n_params: 0,
                body: Some(Box::new(ctor_call("True"))),
            },
        ],
        omit_absurd: false,
    };
    Decls {
        decls: vec![
            Decl::Data(Data {
                span: None,
                name: "Bool".to_owned(),
                hidden: false,
                typ: TypAbs { n_params: 0 },
                ctors: vec!["True".to_owned(), "False".to_owned()],
            }),
            Decl::Ctor(Ctor { span: None, name: "True".to_owned(), n_params: 0 }),
            Decl::Ctor(Ctor { span: None, name: "False".to_owned(), n_params: 0 }),
            Decl::Def(Def {
                span: None,
                name: "not".to_owned(),
                hidden: false,
                self_typ: "Bool".to_owned(),
                n_params: 0,
                body: not_body,
            }),
        ],
    }
}

fn pair_decls() -> Decls {
    let pair_body = Match {
        span: None,
        cases: vec![
            Case {
                span: None,
                name: "fst".to_owned(),
                n_params: 0,
                body: Some(Box::new(ctor_call("One"))),
            },
            Case {
                span: None,
                name: "snd".to_owned(),
                n_params: 0,
                body: Some(Box::new(ctor_call("Two"))),
            },
        ],
        omit_absurd: false,
    };
    Decls {
        decls: vec![
            Decl::Data(Data {
                span: None,
                name: "U".to_owned(),
                hidden: false,
                typ: TypAbs { n_params: 0 },
                ctors: vec!["One".to_owned(), "Two".to_owned()],
            }),
            Decl::Ctor(Ctor { span: None, name: "One".to_owned(), n_params: 0 }),
            Decl::Ctor(Ctor { span: None, name: "Two".to_owned(), n_params: 0 }),
            Decl::Codata(Codata {
                span: None,
                name: "Prod".to_owned(),
                hidden: false,
                typ: TypAbs { n_params: 0 },
                dtors: vec!["fst".to_owned(), "snd".to_owned()],
            }),
            Decl::Dtor(Dtor {
                span: None,
                name: "fst".to_owned(),
                self_typ: "Prod".to_owned(),
                n_params: 0,
            }),
            Decl::Dtor(Dtor {
                span: None,
                name: "snd".to_owned(),
                self_typ: "Prod".to_owned(),
                n_params: 0,
            }),
            Decl::Codef(Codef {
                span: None,
                name: "Pair".to_owned(),
                hidden: false,
                typ_name: "Prod".to_owned(),
                n_params: 0,
                body: pair_body,
            }),
        ],
    }
}

fn eval_closed(decls: &Decls, e: &Exp) -> Result<Val, TypeError> {
    let mut env = Env::empty();
    e.eval(decls, &mut env, 1000)
}

#[test]
fn constant_codef_applied_to_fst() {
    let decls = pair_decls();
    let e = Exp::DotCall {
        span: None,
        exp: Box::new(Exp::Call {
            span: None,
            kind: CallKind::Codef,
            name: "Pair".to_owned(),
            args: Vec::new(),
        }),
        name: "fst".to_owned(),
        args: Vec::new(),
    };
    match eval_closed(&decls, &e) {
        Ok(Val::Ctor { name, args, .. }) => {
            assert_eq!(name, "One");
            assert!(args.is_empty());
        }
        other => panic!("expected the first component, got {:?}", other),
    }
}

#[test]
fn constant_codef_applied_to_snd() {
    let decls = pair_decls();
    let e = Exp::DotCall {
        span: None,
        exp: Box::new(Exp::Call {
            span: None,
            kind: CallKind::Codef,
            name: "Pair".to_owned(),
            args: Vec::new(),
        }),
        name: "snd".to_owned(),
        args: Vec::new(),
    };
    match eval_closed(&decls, &e) {
        Ok(Val::Ctor { name, .. }) => assert_eq!(name, "Two"),
        other => panic!("expected the second component, got {:?}", other),
    }
}

#[test]
fn def_on_data_true_not_is_false() {
    let decls = bool_decls();
    let e = Exp::DotCall {
        span: None,
        exp: Box::new(ctor_call("True")),
        name: "not".to_owned(),
        args: Vec::new(),
    };
    match eval_closed(&decls, &e) {
        Ok(Val::Ctor { name, args, .. }) => {
            assert_eq!(name, "False");
            assert!(args.is_empty());
        }
        other => panic!("expected False, got {:?}", other),
    }
}

#[test]
fn neutral_propagation_free_variable() {
    let decls = bool_decls();
    let e = Exp::DotCall {
        span: None,
        exp: Box::new(Exp::Variable { span: None, idx: 0 }),
        name: "not".to_owned(),
        args: Vec::new(),
    };
    let mut env = Env::empty();
    env.push(Val::Neu { exp: Neu::Var { span: None, idx: 0 } });
    match e.eval(&decls, &mut env, 1000) {
        Ok(Val::Neu { exp: Neu::Dtor { exp, name, args, .. } }) => {
            assert!(matches!(*exp, Neu::Var { idx: 0, .. }));
            assert_eq!(name, "not");
            assert!(args.is_empty());
        }
        other => panic!("expected a blocked destructor, got {:?}", other),
    }
}

#[test]
fn empty_argument_lists_give_empty_argument_vectors() {
    let decls = bool_decls();
    match eval_closed(&decls, &ctor_call("True")) {
        Ok(Val::Ctor { name, args, kind, .. }) => {
            assert_eq!(name, "True");
            assert!(args.is_empty());
            assert!(matches!(kind, CallKind::Ctor));
        }
        other => panic!("expected a constructor value, got {:?}", other),
    }
}

#[test]
fn hole_evaluates_to_neutral_hole() {
    let decls = bool_decls();
    match eval_closed(&decls, &Exp::Hole { span: None }) {
        Ok(Val::Neu { exp: Neu::Hole { .. } }) => {}
        other => panic!("expected a neutral hole, got {:?}", other),
    }
}

#[test]
fn match_on_hole_stays_neutral() {
    let decls = bool_decls();
    let e = Exp::LocalMatch {
        span: None,
        name: "m".to_owned(),
        on_exp: Box::new(Exp::Hole { span: None }),
        body: Match {
            span: None,
            cases: vec![Case {
                span: None,
                name: "True".to_owned(),
                n_params: 0,
                body: Some(Box::new(ctor_call("False"))),
            }],
            omit_absurd: false,
        },
    };
    match eval_closed(&decls, &e) {
        Ok(Val::Neu { exp: Neu::Match { on_exp, .. } }) => {
            assert!(matches!(*on_exp, Neu::Hole { .. }));
        }
        other => panic!("expected a blocked match, got {:?}", other),
    }
}

#[test]
fn absurd_case_selected_is_impossible() {
    let decls = bool_decls();
    let e = Exp::LocalMatch {
        span: None,
        name: "m".to_owned(),
        on_exp: Box::new(ctor_call("True")),
        body: Match {
            span: None,
            cases: vec![Case { span: None, name: "True".to_owned(), n_params: 0, body: None }],
            omit_absurd: false,
        },
    };
    match eval_closed(&decls, &e) {
        Err(TypeError::Impossible { message, .. }) => {
            assert_eq!(message, "absurd case for True taken");
        }
        other => panic!("expected an impossible error, got {:?}", other),
    }
}

#[test]
fn missing_case_is_impossible() {
    let decls = bool_decls();
    let e = Exp::LocalMatch {
        span: None,
        name: "m".to_owned(),
        on_exp: Box::new(ctor_call("True")),
        body: Match { span: None, cases: Vec::new(), omit_absurd: false },
    };
    match eval_closed(&decls, &e) {
        Err(TypeError::Impossible { message, .. }) => {
            assert_eq!(message, "missing case for True");
        }
        other => panic!("expected an impossible error, got {:?}", other),
    }
}

#[test]
fn looping_codef_runs_out_of_fuel() {
    let loop_call = Exp::Call {
        span: None,
        kind: CallKind::Codef,
        name: "Forever".to_owned(),
        args: Vec::new(),
    };
    let decls = Decls {
        decls: vec![
            Decl::Codata(Codata {
                span: None,
                name: "Stream".to_owned(),
                hidden: false,
                typ: TypAbs { n_params: 0 },
                dtors: vec!["head".to_owned()],
            }),
            Decl::Dtor(Dtor {
                span: None,
                name: "head".to_owned(),
                self_typ: "Stream".to_owned(),
                n_params: 0,
            }),
            Decl::Codef(Codef {
                span: None,
                name: "Forever".to_owned(),
                hidden: false,
                typ_name: "Stream".to_owned(),
                n_params: 0,
                body: Match {
                    span: None,
                    cases: vec![Case {
                        span: None,
                        name: "head".to_owned(),
                        n_params: 0,
                        body: Some(Box::new(Exp::DotCall {
                            span: None,
                            exp: Box::new(loop_call.clone()),
                            name: "head".to_owned(),
                            args: Vec::new(),
                        })),
                    }],
                    omit_absurd: false,
                },
            }),
        ],
    };
    let e = Exp::DotCall {
        span: None,
        exp: Box::new(loop_call),
        name: "head".to_owned(),
        args: Vec::new(),
    };
    let mut env = Env::empty();
    match e.eval(&decls, &mut env, 50) {
        Err(TypeError::Eval(EvalError::OutOfFuel)) => {}
        other => panic!("expected the budget to run out, got {:?}", other),
    }
}

#[test]
fn annotation_is_erased_and_env_depth_is_kept() {
    let decls = bool_decls();
    let e = Exp::Anno {
        span: None,
        exp: Box::new(ctor_call("True")),
        typ: Box::new(Exp::TypeUniv { span: None }),
    };
    let mut env = Env::empty();
    env.push(Val::TypeUniv { span: None });
    let before = env.depth();
    let r = e.eval(&decls, &mut env, 10);
    assert_eq!(env.depth(), before);
    match r {
        Ok(Val::Ctor { name, .. }) => assert_eq!(name, "True"),
        other => panic!("expected True, got {:?}", other),
    }
}

#[test]
fn unbound_variable_is_impossible() {
    let decls = bool_decls();
    let e = Exp::Variable { span: None, idx: 3 };
    match eval_closed(&decls, &e) {
        Err(TypeError::Impossible { message, .. }) => {
            assert_eq!(message, "unbound variable");
        }
        other => panic!("expected an impossible error, got {:?}", other),
    }
}

#[test]
fn env_lookup_counts_from_innermost_binder() {
    let mut env = Env::empty();
    env.push(Val::TypeUniv { span: None });
    env.push(Val::Neu { exp: Neu::Hole { span: None } });
    assert!(matches!(env.lookup(0), Val::Neu { .. }));
    assert!(matches!(env.lookup(1), Val::TypeUniv { .. }));
    env.pop_n(1);
    assert_eq!(env.depth(), 1);
    assert!(matches!(env.lookup(0), Val::TypeUniv { .. }));
}

#[test]
fn closure_apply_binds_arguments() {
    // a local match selecting a unary constructor hands its argument to the case body
    let decls = Decls {
        decls: vec![
            Decl::Data(Data {
                span: None,
                name: "Wrap".to_owned(),
                hidden: false,
                typ: TypAbs { n_params: 0 },
                ctors: vec!["MkWrap".to_owned()],
            }),
            Decl::Ctor(Ctor { span: None, name: "MkWrap".to_owned(), n_params: 1 }),
            Decl::Ctor(Ctor { span: None, name: "Unit".to_owned(), n_params: 0 }),
        ],
    };
    let scrutinee = Exp::Call {
        span: None,
        kind: CallKind::Ctor,
        name: "MkWrap".to_owned(),
        args: vec![ctor_call("Unit")],
    };
    let e = Exp::LocalMatch {
        span: None,
        name: "m".to_owned(),
        on_exp: Box::new(scrutinee),
        body: Match {
            span: None,
            cases: vec![Case {
                span: None,
                name: "MkWrap".to_owned(),
                n_params: 1,
                body: Some(Box::new(Exp::Variable { span: None, idx: 0 })),
            }],
            omit_absurd: false,
        },
    };
    match eval_closed(&decls, &e) {
        Ok(Val::Ctor { name, .. }) => assert_eq!(name, "Unit"),
        other => panic!("expected the wrapped value, got {:?}", other),
    }
}

#[test]
fn evaluating_the_readback_gives_the_value_back() {
    // a closed first-order value: MkWrap(Unit)
    let v = Val::Ctor {
        span: None,
        kind: CallKind::Ctor,
        name: "MkWrap".to_owned(),
        args: vec![Val::Ctor {
            span: None,
            kind: CallKind::Ctor,
            name: "Unit".to_owned(),
            args: Vec::new(),
        }],
    };
    let printed = v.quote();
    let decls = Decls { decls: Vec::new() };
    match eval_closed(&decls, &printed) {
        Ok(Val::Ctor { name, args, .. }) => {
            assert_eq!(name, "MkWrap");
            assert_eq!(args.len(), 1);
            match &args[0] {
                Val::Ctor { name, args, .. } => {
                    assert_eq!(name, "Unit");
                    assert!(args.is_empty());
                }
                other => panic!("unexpected {:?}", other),
            }
        }
        other => panic!("expected the value back, got {:?}", other),
    }
}

#[test]
fn readback_of_a_blocked_destructor_chain() {
    let v = Val::Neu {
        exp: Neu::Dtor {
            span: None,
            exp: Box::new(Neu::Hole { span: None }),
            name: "head".to_owned(),
            args: Vec::new(),
        },
    };
    let printed = v.quote();
    assert_eq!(printed.print_to_string(), "?.head");
    let decls = Decls { decls: Vec::new() };
    match eval_closed(&decls, &printed) {
        Ok(Val::Neu { exp: Neu::Dtor { exp, name, .. } }) => {
            assert!(matches!(*exp, Neu::Hole { .. }));
            assert_eq!(name, "head");
        }
        other => panic!("expected the neutral back, got {:?}", other),
    }
}
