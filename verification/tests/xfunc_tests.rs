use polarity::ast::{CallKind, Case, Exp, Match};
use polarity::decls::{Codata, Codef, Ctor, Data, Decl, Decls, Def, Dtor, TypAbs};
use polarity::matrix::{as_matrix, repr, Repr};
use polarity::nf;
use polarity::nf::ShiftRange;
use polarity::printer::dec;
use polarity::span::Span;
use polarity::xfunc::xfunc;

fn ctor_call(name: &str) -> Exp {
    Exp::Call { span: None, kind: CallKind::Ctor, name: name.to_owned(), args: Vec::new() }
}

fn bool_module() -> Decls {
    let not_body = Match {
        span: None,
        cases: vec![
            Case {
                span: None,
                name: "True".to_owned(),
                n_params: 0,
                body: Some(Box::new(ctor_call("False"))),
            },
            Case {
                span: None,
                name: "False".to_owned(),
                n_params: 0,
                body: Some(Box::new(ctor_call("True"))),
            },
        ],
        omit_absurd: false,
    };
    Decls {
        decls: vec![
            Decl::Data(Data {
                span: Some(Span { start: 0, end: 30 }),
                name: "Bool".to_owned(),
                hidden: false,
                typ: TypAbs { n_params: 0 },
                ctors: vec!["True".to_owned(), "False".to_owned()],
            }),
            Decl::Ctor(Ctor { span: None, name: "True".to_owned(), n_params: 0 }),
            Decl::Ctor(Ctor { span: None, name: "False".to_owned(), n_params: 0 }),
            Decl::Def(Def {
                span: Some(Span { start: 40, end: 90 }),
                name: "not".to_owned(),
                hidden: false,
                self_typ: "Bool".to_owned(),
                n_params: 0,
                body: not_body,
            }),
        ],
    }
}

#[test]
fn matrix_of_bool_has_one_row() {
    let decls = bool_module();
    let mat = as_matrix(&decls).expect("the matrix builds");
    assert_eq!(mat.rows.len(), 1);
    let row = &mat.rows[0];
    assert_eq!(row.name, "Bool");
    assert!(matches!(row.repr, Repr::Data));
    assert_eq!(row.xtors.len(), 2);
    assert_eq!(row.xtors[0].name, "True");
    assert_eq!(row.xtors[1].name, "False");
    assert_eq!(row.xdefs.len(), 1);
    assert_eq!(row.xdefs[0].name, "not");
    assert!(matches!(repr(&mat, "Bool"), Ok(Repr::Data)));
}

#[test]
fn refunctionalize_bool() {
    let decls = bool_module();
    let x = xfunc(&decls, "Bool").expect("xfunc succeeds");
    assert_eq!(x.title, "Refunctionalize Bool");
    assert_eq!(x.edits.len(), 2);
    // the type's span is replaced by the pivoted declaration group
    assert_eq!(x.edits[0].span, Span { start: 0, end: 30 });
    assert_eq!(
        x.edits[0].text,
        "codata Bool { not }\n\ndtor Bool.not\n\ncodef True: Bool { not => False }\n\ncodef False: Bool { not => True }",
    );
    // the absorbed def is deleted
    assert_eq!(x.edits[1].span, Span { start: 40, end: 90 });
    assert_eq!(x.edits[1].text, "");
}

#[test]
fn edits_are_pairwise_disjoint() {
    let decls = bool_module();
    let x = xfunc(&decls, "Bool").expect("xfunc succeeds");
    for i in 0..x.edits.len() {
        for j in (i + 1)..x.edits.len() {
            let a = x.edits[i].span;
            let b = x.edits[j].span;
            assert!(a.end <= b.start || b.end <= a.start);
        }
    }
}

#[test]
fn defunctionalize_the_refunctionalized_module() {
    // the codata module that refunctionalizing Bool produces, written out
    let codata_module = Decls {
        decls: vec![
            Decl::Codata(Codata {
                span: Some(Span { start: 0, end: 30 }),
                name: "Bool".to_owned(),
                hidden: false,
                typ: TypAbs { n_params: 0 },
                dtors: vec!["not".to_owned()],
            }),
            Decl::Dtor(Dtor {
                span: Some(Span { start: 40, end: 55 }),
                name: "not".to_owned(),
                self_typ: "Bool".to_owned(),
                n_params: 0,
            }),
            Decl::Codef(Codef {
                span: Some(Span { start: 60, end: 80 }),
                name: "True".to_owned(),
                hidden: false,
                typ_name: "Bool".to_owned(),
                n_params: 0,
                body: Match {
                    span: None,
                    cases: vec![Case {
                        span: None,
                        name: "not".to_owned(),
                        n_params: 0,
                        body: Some(Box::new(ctor_call("False"))),
                    }],
                    omit_absurd: false,
                },
            }),
            Decl::Codef(Codef {
                span: Some(Span { start: 85, end: 105 }),
                name: "False".to_owned(),
                hidden: false,
                typ_name: "Bool".to_owned(),
                n_params: 0,
                body: Match {
                    span: None,
                    cases: vec![Case {
                        span: None,
                        name: "not".to_owned(),
                        n_params: 0,
                        body: Some(Box::new(ctor_call("True"))),
                    }],
                    omit_absurd: false,
                },
            }),
        ],
    };
    let x = xfunc(&codata_module, "Bool").expect("xfunc succeeds");
    assert_eq!(x.title, "Defunctionalize Bool");
    // the data declaration and its defs come back
    assert_eq!(
        x.edits[0].text,
        "data Bool { True, False }\n\nctor True\n\nctor False\n\ndef Bool.not { True => False, False => True }",
    );
    // one deletion per absorbed codef
    assert_eq!(x.edits.len(), 3);
    assert_eq!(x.edits[1].text, "");
    assert_eq!(x.edits[2].text, "");
}

#[test]
fn unknown_type_cannot_be_resolved() {
    let decls = bool_module();
    match xfunc(&decls, "Missing") {
        Err(polarity::matrix::XfuncError::Impossible { message, .. }) => {
            assert_eq!(message, "Could not resolve Missing");
        }
        other => panic!("expected an impossible error, got {:?}", other),
    }
}

#[test]
fn decimal_printing() {
    assert_eq!(dec(0), "0");
    assert_eq!(dec(7), "7");
    assert_eq!(dec(10), "10");
    assert_eq!(dec(409), "409");
}

#[test]
fn print_terms() {
    let e = Exp::DotCall {
        span: None,
        exp: Box::new(Exp::Variable { span: None, idx: 2 }),
        name: "not".to_owned(),
        args: vec![ctor_call("True")],
    };
    assert_eq!(e.print_to_string(), "@2.not(True)");
    let h = Exp::Hole { span: None };
    assert_eq!(h.print_to_string(), "?");
    let u = Exp::TypeUniv { span: None };
    assert_eq!(u.print_to_string(), "Type");
}

#[test]
fn shift_moves_indices_in_range_only() {
    let v = nf::Neu::Var { info: polarity::info::Info { span: None }, name: "x".to_owned(), idx: 3 };
    let range = ShiftRange { lo: 2, hi: None };
    let shifted = v.shift_in_range(range, 4);
    assert!(matches!(shifted, nf::Neu::Var { idx: 7, .. }));
    let low = nf::Neu::Var { info: polarity::info::Info { span: None }, name: "y".to_owned(), idx: 1 };
    let stays = low.shift_in_range(range, 4);
    assert!(matches!(stays, nf::Neu::Var { idx: 1, .. }));
}

#[test]
fn shift_under_a_binder_moves_the_cutoff() {
    // a case body under one binder: index 0 is the bound variable, index 1 is free
    let info = polarity::info::Info { span: None };
    let case = nf::Case {
        info,
        name: "MkWrap".to_owned(),
        n_args: 1,
        body: Box::new(nf::Nf::Neu {
            exp: nf::Neu::Var { info, name: "x".to_owned(), idx: 0 },
        }),
    };
    let range = ShiftRange { lo: 0, hi: None };
    let shifted = case.shift_in_range(range, 5);
    // the bound variable lies below the shifted cutoff and stays put
    match *shifted.body {
        nf::Nf::Neu { exp: nf::Neu::Var { idx, .. } } => assert_eq!(idx, 0),
        ref other => panic!("unexpected {:?}", other),
    }
    let free_case = nf::Case {
        info,
        name: "MkWrap".to_owned(),
        n_args: 1,
        body: Box::new(nf::Nf::Neu {
            exp: nf::Neu::Var { info, name: "y".to_owned(), idx: 1 },
        }),
    };
    let shifted_free = free_case.shift_in_range(range, 5);
    match *shifted_free.body {
        nf::Nf::Neu { exp: nf::Neu::Var { idx, .. } } => assert_eq!(idx, 6),
        ref other => panic!("unexpected {:?}", other),
    }
}

#[test]
fn print_normal_forms() {
    let info = polarity::info::Info { span: None };
    let n = nf::Nf::Ctor {
        info,
        name: "Cons".to_owned(),
        args: vec![nf::Nf::Neu { exp: nf::Neu::Var { info, name: "x".to_owned(), idx: 0 } }],
    };
    assert_eq!(n.print_to_string(), "Cons(@0)");
}
