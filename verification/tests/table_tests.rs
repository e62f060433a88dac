use polarity::ast::{CallKind, Case, Exp, Match};
use polarity::decls::{
    AnyOf, Codata, Ctor, Data, Decl, DeclKind, Decls, Def, Dtor, Item, LookupError, TypAbs, Type,
};
use polarity::errors::TypeError;
use polarity::info::Info;
use polarity::parse::{ParseError, RawParseError};
use polarity::span::Span;
use polarity::strings::{comma_separated, separated};

fn ctor_call(name: &str) -> Exp {
    Exp::Call { span: None, kind: CallKind::Ctor, name: name.to_owned(), args: Vec::new() }
}

fn bool_decls_with_spans() -> Decls {
    let not_body = Match {
        span: None,
        cases: vec![
            Case {
                span: None,
                name: "True".to_owned(),
                n_params: 0,
                body: Some(Box::new(ctor_call("False"))),
            },
            Case {
                span: None,
                name: "False".to_owned(),
                n_params: 0,
                body: Some(Box::new(ctor_call("True"))),
            },
        ],
        omit_absurd: false,
    };
    Decls {
        decls: vec![
            Decl::Data(Data {
                span: Some(Span { start: 0, end: 30 }),
                name: "Bool".to_owned(),
                hidden: false,
                typ: TypAbs { n_params: 0 },
                ctors: vec!["True".to_owned(), "False".to_owned()],
            }),
            Decl::Ctor(Ctor { span: None, name: "True".to_owned(), n_params: 0 }),
            Decl::Ctor(Ctor { span: None, name: "False".to_owned(), n_params: 0 }),
            Decl::Def(Def {
                span: Some(Span { start: 40, end: 90 }),
                name: "not".to_owned(),
                hidden: false,
                self_typ: "Bool".to_owned(),
                n_params: 0,
                body: not_body,
            }),
        ],
    }
}

#[test]
fn lookup_mismatch_data_on_a_def() {
    let decls = bool_decls_with_spans();
    match decls.data("not", None) {
        Err(LookupError::InvalidDeclarationKind { name, expected, actual, .. }) => {
            assert_eq!(name, "not");
            assert_eq!(expected.0, vec![DeclKind::Data]);
            assert_eq!(actual, DeclKind::Def);
        }
        other => panic!("expected a kind mismatch, got {:?}", other),
    }
}

#[test]
fn lookup_undefined_declaration() {
    let decls = bool_decls_with_spans();
    match decls.codata("Missing", None) {
        Err(LookupError::UndefinedDeclaration { name, .. }) => assert_eq!(name, "Missing"),
        other => panic!("expected an undefined declaration, got {:?}", other),
    }
}

#[test]
fn lookup_accessors_find_their_kinds() {
    let decls = bool_decls_with_spans();
    assert!(matches!(decls.data("Bool", None), Ok(Data { .. })));
    assert!(matches!(decls.ctor("True", None), Ok(Ctor { .. })));
    assert!(matches!(decls.def("not", None), Ok(Def { .. })));
    assert!(matches!(decls.typ("Bool", None), Ok(Type::Data(_))));
    let d = decls.dtor_or_def("not", None).expect("a def acts as a destructor");
    assert_eq!(d.name, "not");
    assert_eq!(d.self_typ, "Bool");
}

#[test]
fn type_decl_for_member_goes_through_both_indices() {
    let decls = bool_decls_with_spans();
    let t1 = decls.type_decl_for_member("True", None).expect("a ctor has an owner");
    assert_eq!(t1.name(), "Bool");
    let t2 = decls.type_decl_for_member("not", None).expect("a def has a target");
    assert_eq!(t2.name(), "Bool");
    match decls.type_decl_for_member("ghost_name", None) {
        Err(LookupError::MissingTypeDeclaration { name, .. }) => assert_eq!(name, "ghost_name"),
        other => panic!("expected a missing type declaration, got {:?}", other),
    }
}

#[test]
fn xtors_and_xdefs_for_type() {
    let decls = bool_decls_with_spans();
    assert_eq!(decls.xtors_for_type("Bool"), vec!["True".to_owned(), "False".to_owned()]);
    assert_eq!(decls.xdefs_for_type("Bool"), vec!["not".to_owned()]);
    assert!(decls.xtors_for_type("not").is_empty());
}

#[test]
fn iter_walks_types_and_definitions_in_order() {
    let decls = bool_decls_with_spans();
    let items = decls.iter();
    assert_eq!(items.len(), 2);
    assert!(matches!(items[0], Item::Data(_)));
    assert!(matches!(items[1], Item::Def(_)));
    assert!(!items[0].hidden());
}

#[test]
fn empty_table_is_empty() {
    let decls = Decls::empty();
    assert!(decls.is_empty());
    assert!(!bool_decls_with_spans().is_empty());
}

#[test]
fn any_of_renders_alternatives() {
    let one: AnyOf<DeclKind> = AnyOf::one(DeclKind::Data);
    assert_eq!(one.0.len(), 1);
    let two: AnyOf<DeclKind> = AnyOf::two(DeclKind::Ctor, DeclKind::Codef);
    assert_eq!(two.0, vec![DeclKind::Ctor, DeclKind::Codef]);
}

#[test]
fn separated_and_comma_separated_join() {
    let items = vec!["a".to_owned(), "b".to_owned(), "c".to_owned()];
    assert_eq!(separated("; ", &items), "a; b; c");
    assert_eq!(comma_separated(&items), "a, b, c");
    let empty: Vec<String> = Vec::new();
    assert_eq!(comma_separated(&empty), "");
    let single = vec!["x".to_owned()];
    assert_eq!(separated(" or ", &single), "x");
}

#[test]
fn invalid_match_reports_duplicate_case() {
    let missing: Vec<String> = Vec::new();
    let undeclared: Vec<String> = Vec::new();
    let duplicate = vec!["True".to_owned()];
    let info = Info { span: Some(Span { start: 5, end: 25 }) };
    match TypeError::invalid_match(&missing, &undeclared, &duplicate, &info) {
        TypeError::InvalidMatch { msg, span } => {
            assert_eq!(msg, "duplicate True");
            assert_eq!(span, Some(Span { start: 5, end: 25 }));
        }
        other => panic!("expected an invalid match, got {:?}", other),
    }
}

#[test]
fn invalid_match_joins_groups() {
    let missing = vec!["A".to_owned(), "B".to_owned()];
    let undeclared = vec!["C".to_owned()];
    let duplicate: Vec<String> = Vec::new();
    let info = Info { span: None };
    match TypeError::invalid_match(&missing, &undeclared, &duplicate, &info) {
        TypeError::InvalidMatch { msg, .. } => {
            assert_eq!(msg, "missing A, B; undeclared C");
        }
        other => panic!("expected an invalid match, got {:?}", other),
    }
}

#[test]
fn parse_error_conversion_joins_expected_tokens() {
    let raw = RawParseError::UnrecognizedToken {
        start: 3,
        token: "=>".to_owned(),
        end: 5,
        expected: vec!["\"(\"".to_owned(), "\")\"".to_owned()],
    };
    match ParseError::from_raw(raw) {
        ParseError::UnrecognizedToken { token, span, expected } => {
            assert_eq!(token, "=>");
            assert_eq!(span, Span { start: 3, end: 5 });
            assert_eq!(expected, "\"(\", \")\"");
        }
        other => panic!("expected an unrecognized token, got {:?}", other),
    }
}

#[test]
fn parse_error_conversion_other_variants() {
    match ParseError::from_raw(RawParseError::InvalidToken { location: 7 }) {
        ParseError::InvalidToken { location } => assert_eq!(location, 7),
        other => panic!("unexpected {:?}", other),
    }
    match ParseError::from_raw(RawParseError::UnrecognizedEof {
        location: 11,
        expected: vec!["ident".to_owned()],
    }) {
        ParseError::UnrecognizedEOF { location, expected } => {
            assert_eq!(location, 11);
            assert_eq!(expected, "ident");
        }
        other => panic!("unexpected {:?}", other),
    }
    match ParseError::from_raw(RawParseError::ExtraToken {
        start: 1,
        token: "}".to_owned(),
        end: 2,
    }) {
        ParseError::ExtraToken { token, span } => {
            assert_eq!(token, "}");
            assert_eq!(span, Span { start: 1, end: 2 });
        }
        other => panic!("unexpected {:?}", other),
    }
    match ParseError::from_raw(RawParseError::User { error: "boom".to_owned() }) {
        ParseError::User { error } => assert_eq!(error, "boom"),
        other => panic!("unexpected {:?}", other),
    }
}

#[test]
fn codef_to_ctor_and_def_to_dtor_keep_signatures() {
    let cd = polarity::decls::Codef {
        span: None,
        name: "Pair".to_owned(),
        hidden: false,
        typ_name: "Prod".to_owned(),
        n_params: 2,
        body: Match { span: None, cases: Vec::new(), omit_absurd: false },
    };
    let c = cd.to_ctor();
    assert_eq!(c.name, "Pair");
    assert_eq!(c.n_params, 2);
    let df = Def {
        span: None,
        name: "not".to_owned(),
        hidden: false,
        self_typ: "Bool".to_owned(),
        n_params: 0,
        body: Match { span: None, cases: Vec::new(), omit_absurd: false },
    };
    let d = df.to_dtor();
    assert_eq!(d.name, "not");
    assert_eq!(d.self_typ, "Bool");
}

#[test]
fn codata_lookup_finds_codata() {
    let decls = Decls {
        decls: vec![Decl::Codata(Codata {
            span: None,
            name: "Stream".to_owned(),
            hidden: false,
            typ: TypAbs { n_params: 0 },
            dtors: vec!["head".to_owned()],
        }),
        Decl::Dtor(Dtor {
            span: None,
            name: "head".to_owned(),
            self_typ: "Stream".to_owned(),
            n_params: 0,
        })],
    };
    assert!(matches!(decls.codata("Stream", None), Ok(Codata { .. })));
    assert!(matches!(decls.dtor("head", None), Ok(Dtor { .. })));
    let t = decls.type_decl_for_member("head", None).expect("a dtor has an owner");
    assert_eq!(t.name(), "Stream");
}

#[test]
fn any_of_to_text_renders_disjunctions() {
    let none: AnyOf<DeclKind> = AnyOf(Vec::new());
    assert_eq!(none.to_text(), "");
    let one: AnyOf<DeclKind> = AnyOf::one(DeclKind::Data);
    assert_eq!(one.to_text(), "data");
    let two: AnyOf<DeclKind> = AnyOf::two(DeclKind::Ctor, DeclKind::Codef);
    assert_eq!(two.to_text(), "constructor or codef");
    let three: AnyOf<DeclKind> =
        AnyOf(vec![DeclKind::Data, DeclKind::Codata, DeclKind::Dtor]);
    assert_eq!(three.to_text(), "data, codata or destructor");
}
