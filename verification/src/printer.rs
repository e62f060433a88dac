use vstd::prelude::*;

use crate::ast;
use crate::ast::{view_exps, lemma_view_exps, ExpS};
use crate::strings::{join_sep, separated};
use vstd::string::StringExecFns;

verus! {

/// One decimal digit.
pub open spec fn digit_s(d: nat) -> Seq<char> {
    if d == 0 {
        "0"@
    } else if d == 1 {
        "1"@
    } else if d == 2 {
        "2"@
    } else if d == 3 {
        "3"@
    } else if d == 4 {
        "4"@
    } else if d == 5 {
        "5"@
    } else if d == 6 {
        "6"@
    } else if d == 7 {
        "7"@
    } else if d == 8 {
        "8"@
    } else {
        "9"@
    }
}

/// The decimal spelling of a number.
pub open spec fn dec_s(n: nat) -> Seq<char>
    decreases n,
{
    if n < 10 {
        digit_s(n)
    } else {
        dec_s(n / 10) + digit_s(n % 10)
    }
}

fn digit(d: usize) -> (r: &'static str)
    requires
        d < 10,
    ensures
        r@ == digit_s(d as nat),
{
    if d == 0 {
        "0"
    } else if d == 1 {
        "1"
    } else if d == 2 {
        "2"
    } else if d == 3 {
        "3"
    } else if d == 4 {
        "4"
    } else if d == 5 {
        "5"
    } else if d == 6 {
        "6"
    } else if d == 7 {
        "7"
    } else if d == 8 {
        "8"
    } else {
        "9"
    }
}

/// Write a number in decimal.
pub fn dec(n: usize) -> (r: String)
    ensures
        r@ == dec_s(n as nat),
    decreases n,
{
    if n < 10 {
        digit(n).to_owned()
    } else {
        let mut s = dec(n / 10);
        s.append(digit(n % 10));
        s
    }
}

/// The printed form of a term.  Variables are written as `@` followed by
/// their de Bruijn index; an empty argument list prints as the bare name.
pub open spec fn print_exp_s(e: ExpS) -> Seq<char>
    decreases e, 0nat,
{
    match e {
        ExpS::Variable { idx, .. } => "@"@ + dec_s(idx as nat),
        ExpS::TypCtor { name, args, .. } => name + print_args_s(args),
        ExpS::Call { name, args, .. } => name + print_args_s(args),
        ExpS::DotCall { exp, name, args, .. } => print_exp_s(*exp) + "."@ + name + print_args_s(
            args,
        ),
        ExpS::Anno { exp, typ, .. } => "("@ + print_exp_s(*exp) + ": "@ + print_exp_s(*typ)
            + ")"@,
        ExpS::TypeUniv { .. } => "Type"@,
        ExpS::LocalMatch { on_exp, body, .. } => print_exp_s(*on_exp) + ".match { "@
            + join_sep(", "@, print_cases_s(body.cases)) + " }"@,
        ExpS::LocalComatch { body, .. } => "comatch { "@ + join_sep(
            ", "@,
            print_cases_s(body.cases),
        ) + " }"@,
        ExpS::Hole { .. } => "?"@,
    }
}

/// The printed forms of a list of terms.
pub open spec fn print_exps_s(es: Seq<ExpS>) -> Seq<Seq<char>>
    decreases es, 0nat,
{
    if es.len() == 0 {
        Seq::empty()
    } else {
        print_exps_s(es.drop_last()).push(print_exp_s(es.last()))
    }
}

/// The printed form of an argument list: nothing when it is empty, else the
/// comma-separated arguments in parentheses.
pub open spec fn print_args_s(es: Seq<ExpS>) -> Seq<char>
    decreases es, 1nat,
{
    if es.len() == 0 {
        ""@
    } else {
        "("@ + join_sep(", "@, print_exps_s(es)) + ")"@
    }
}

/// The printed form of one (co)case: the pattern name, its arity in
/// parentheses when it binds anything, and the body, or `absurd`.
pub open spec fn print_case_s(c: ast::CaseS) -> Seq<char>
    decreases c, 0nat,
{
    (if c.n_params == 0 {
        c.name
    } else {
        c.name + "("@ + dec_s(c.n_params as nat) + ")"@
    }) + (match c.body {
        Some(b) => " => "@ + print_exp_s(*b),
        None => " absurd"@,
    })
}

/// The printed forms of a list of (co)cases.
pub open spec fn print_cases_s(cs: Seq<ast::CaseS>) -> Seq<Seq<char>>
    decreases cs, 0nat,
{
    if cs.len() == 0 {
        Seq::empty()
    } else {
        print_cases_s(cs.drop_last()).push(print_case_s(cs.last()))
    }
}

impl ast::Exp {
    /// Print the term.
    #[verifier::rlimit(100)]
    pub fn print_to_string(&self) -> (r: String)
        ensures
            r@ == print_exp_s(self@),
        decreases *self, 0nat,
    {
        match self {
            ast::Exp::Variable { idx, .. } => {
                let mut s = "@".to_owned();
                s.append(dec(*idx).as_str());
                s
            },
            ast::Exp::TypCtor { name, args, .. } => {
                let mut s = name.clone();
                s.append(print_args(args).as_str());
                s
            },
            ast::Exp::Call { name, args, .. } => {
                let mut s = name.clone();
                s.append(print_args(args).as_str());
                s
            },
            ast::Exp::DotCall { exp, name, args, .. } => {
                let mut s = (**exp).print_to_string();
                s.append(".");
                s.append(name.as_str());
                s.append(print_args(args).as_str());
                s
            },
            ast::Exp::Anno { exp, typ, .. } => {
                let mut s = "(".to_owned();
                s.append((**exp).print_to_string().as_str());
                s.append(": ");
                s.append((**typ).print_to_string().as_str());
                s.append(")");
                s
            },
            ast::Exp::TypeUniv { .. } => "Type".to_owned(),
            ast::Exp::LocalMatch { on_exp, body, .. } => {
                let mut s = (**on_exp).print_to_string();
                s.append(".match { ");
                let texts = print_cases(&body.cases);
                s.append(separated(", ", &texts).as_str());
                s.append(" }");
                proof {
                    assert(crate::ast::view_match(*body).cases == crate::ast::view_cases(
                        body.cases@,
                    ));
                    assert(s@ == print_exp_s(self@));
                }
                s
            },
            ast::Exp::LocalComatch { body, .. } => {
                let mut s = "comatch { ".to_owned();
                let texts = print_cases(&body.cases);
                s.append(separated(", ", &texts).as_str());
                s.append(" }");
                proof {
                    assert(crate::ast::view_match(*body).cases == crate::ast::view_cases(
                        body.cases@,
                    ));
                    assert(s@ == print_exp_s(self@));
                }
                s
            },
            ast::Exp::Hole { .. } => "?".to_owned(),
        }
    }
}

/// Print an argument list.
fn print_args(args: &Vec<ast::Exp>) -> (r: String)
    ensures
        r@ == print_args_s(view_exps(args@)),
    decreases *args, 1nat,
{
    proof {
        lemma_view_exps(args@);
    }
    if args.len() == 0 {
        proof {
            reveal_strlit("");
            assert(""@ =~= Seq::<char>::empty());
        }
        String::new()
    } else {
        let texts = print_exps(args);
        let mut s = "(".to_owned();
        s.append(separated(", ", &texts).as_str());
        s.append(")");
        s
    }
}

/// Print every term in a list.
fn print_exps(args: &Vec<ast::Exp>) -> (r: Vec<String>)
    ensures
        r.deep_view() == print_exps_s(view_exps(args@)),
    decreases *args, 0nat,
{
    let mut r: Vec<String> = Vec::new();
    proof {
        lemma_view_exps(args@);
        assert(view_exps(args@).take(0) =~= Seq::<ExpS>::empty());
        assert(r.deep_view() =~= print_exps_s(view_exps(args@).take(0)));
    }
    let mut i: usize = 0;
    while i < args.len()
        invariant
            i <= args@.len(),
            r.deep_view() == print_exps_s(view_exps(args@).take(i as int)),
        decreases args@.len() - i,
    {
        proof {
            lemma_view_exps(args@);
        }
        let ghost prev = r@;
        r.push(args[i].print_to_string());
        i += 1;
        proof {
            let es = view_exps(args@);
            assert(es.take(i as int).drop_last() =~= es.take(i - 1));
            assert(es.take(i as int).last() == es[i - 1]);
            assert(r@.drop_last() =~= prev);
            assert(r.deep_view() =~= print_exps_s(es.take(i as int)));
        }
    }
    proof {
        lemma_view_exps(args@);
        assert(view_exps(args@).take(args@.len() as int) =~= view_exps(args@));
    }
    r
}

/// Print one (co)case.
pub fn print_case(c: &ast::Case) -> (r: String)
    ensures
        r@ == print_case_s(c@),
    decreases *c, 0nat,
{
    let mut s = c.name.clone();
    if c.n_params != 0 {
        s.append("(");
        s.append(dec(c.n_params).as_str());
        s.append(")");
    }
    match &c.body {
        Some(b) => {
            s.append(" => ");
            s.append((**b).print_to_string().as_str());
        },
        None => {
            s.append(" absurd");
        },
    }
    s
}

/// Print every (co)case in a list.
fn print_cases(cs: &Vec<ast::Case>) -> (r: Vec<String>)
    ensures
        r.deep_view() == print_cases_s(crate::ast::view_cases(cs@)),
    decreases *cs, 0nat,
{
    let mut r: Vec<String> = Vec::new();
    proof {
        crate::ast::lemma_view_cases(cs@);
        assert(crate::ast::view_cases(cs@).take(0) =~= Seq::<ast::CaseS>::empty());
        assert(r.deep_view() =~= print_cases_s(crate::ast::view_cases(cs@).take(0)));
    }
    let mut i: usize = 0;
    while i < cs.len()
        invariant
            i <= cs@.len(),
            r.deep_view() == print_cases_s(crate::ast::view_cases(cs@).take(i as int)),
        decreases cs@.len() - i,
    {
        proof {
            crate::ast::lemma_view_cases(cs@);
        }
        let ghost prev = r@;
        r.push(print_case(&cs[i]));
        i += 1;
        proof {
            let vs = crate::ast::view_cases(cs@);
            assert(vs.take(i as int).drop_last() =~= vs.take(i - 1));
            assert(vs.take(i as int).last() == vs[i - 1]);
            assert(r@.drop_last() =~= prev);
            assert(r.deep_view() =~= print_cases_s(vs.take(i as int)));
        }
    }
    proof {
        crate::ast::lemma_view_cases(cs@);
        assert(crate::ast::view_cases(cs@).take(cs@.len() as int) =~= crate::ast::view_cases(cs@));
    }
    r
}

} // verus!

verus! {

use crate::decls::{DeclS, Decl};

/// The printed arity marker: nothing for zero parameters.
pub open spec fn arity_s(n: usize) -> Seq<char> {
    if n == 0 {
        ""@
    } else {
        "("@ + dec_s(n as nat) + ")"@
    }
}

fn arity(n: usize) -> (r: String)
    ensures
        r@ == arity_s(n),
{
    if n == 0 {
        "".to_owned()
    } else {
        let mut s = "(".to_owned();
        s.append(dec(n).as_str());
        s.append(")");
        s
    }
}

/// The printed form of one top-level declaration.
pub open spec fn print_decl_s(d: DeclS) -> Seq<char> {
    match d {
        DeclS::Data(x) => "data "@ + x.name + " { "@ + join_sep(", "@, x.ctors) + " }"@,
        DeclS::Codata(x) => "codata "@ + x.name + " { "@ + join_sep(", "@, x.dtors) + " }"@,
        DeclS::Ctor(c) => "ctor "@ + c.name + arity_s(c.n_params),
        DeclS::Dtor(d) => "dtor "@ + d.self_typ + "."@ + d.name + arity_s(d.n_params),
        DeclS::Def(d) => "def "@ + d.self_typ + "."@ + d.name + arity_s(d.n_params) + " { "@
            + join_sep(", "@, print_cases_s(d.body.cases)) + " }"@,
        DeclS::Codef(c) => "codef "@ + c.name + arity_s(c.n_params) + ": "@ + c.typ_name + " { "@
            + join_sep(", "@, print_cases_s(c.body.cases)) + " }"@,
    }
}

/// The printed forms of a list of declarations.
pub open spec fn print_decl_texts_s(ds: Seq<DeclS>) -> Seq<Seq<char>>
    decreases ds.len(),
{
    if ds.len() == 0 {
        Seq::empty()
    } else {
        print_decl_texts_s(ds.drop_last()).push(print_decl_s(ds.last()))
    }
}

/// The printed form of a declaration group: the declarations separated by
/// blank lines.
pub open spec fn print_decls_s(ds: Seq<DeclS>) -> Seq<char> {
    join_sep("\n\n"@, print_decl_texts_s(ds))
}

impl Decl {
    /// Print the declaration.
    pub fn print_to_string(&self) -> (r: String)
        ensures
            r@ == print_decl_s(self@),
    {
        match self {
            Decl::Data(x) => {
                let mut s = "data ".to_owned();
                s.append(x.name.as_str());
                s.append(" { ");
                s.append(separated(", ", &x.ctors).as_str());
                s.append(" }");
                proof {
                    assert(x.ctors.deep_view() == x@.ctors);
                }
                s
            },
            Decl::Codata(x) => {
                let mut s = "codata ".to_owned();
                s.append(x.name.as_str());
                s.append(" { ");
                s.append(separated(", ", &x.dtors).as_str());
                s.append(" }");
                s
            },
            Decl::Ctor(c) => {
                let mut s = "ctor ".to_owned();
                s.append(c.name.as_str());
                s.append(arity(c.n_params).as_str());
                s
            },
            Decl::Dtor(d) => {
                let mut s = "dtor ".to_owned();
                s.append(d.self_typ.as_str());
                s.append(".");
                s.append(d.name.as_str());
                s.append(arity(d.n_params).as_str());
                s
            },
            Decl::Def(d) => {
                let mut s = "def ".to_owned();
                s.append(d.self_typ.as_str());
                s.append(".");
                s.append(d.name.as_str());
                s.append(arity(d.n_params).as_str());
                s.append(" { ");
                let texts = print_cases(&d.body.cases);
                s.append(separated(", ", &texts).as_str());
                s.append(" }");
                proof {
                    assert(crate::ast::view_match(d.body).cases == crate::ast::view_cases(
                        d.body.cases@,
                    ));
                }
                s
            },
            Decl::Codef(c) => {
                let mut s = "codef ".to_owned();
                s.append(c.name.as_str());
                s.append(arity(c.n_params).as_str());
                s.append(": ");
                s.append(c.typ_name.as_str());
                s.append(" { ");
                let texts = print_cases(&c.body.cases);
                s.append(separated(", ", &texts).as_str());
                s.append(" }");
                proof {
                    assert(crate::ast::view_match(c.body).cases == crate::ast::view_cases(
                        c.body.cases@,
                    ));
                }
                s
            },
        }
    }
}

/// Print a declaration group, declarations separated by blank lines.
pub fn print_decls(ds: &Vec<Decl>) -> (r: String)
    ensures
        r@ == print_decls_s(ds.deep_view()),
{
    let mut texts: Vec<String> = Vec::new();
    proof {
        assert(ds.deep_view().take(0) =~= Seq::<DeclS>::empty());
        assert(texts.deep_view() =~= print_decl_texts_s(ds.deep_view().take(0)));
    }
    let mut i: usize = 0;
    while i < ds.len()
        invariant
            i <= ds@.len(),
            texts.deep_view() == print_decl_texts_s(ds.deep_view().take(i as int)),
        decreases ds@.len() - i,
    {
        let ghost prev = texts@;
        texts.push(ds[i].print_to_string());
        i += 1;
        proof {
            let dv = ds.deep_view();
            assert(dv.take(i as int).drop_last() =~= dv.take(i - 1));
            assert(dv.take(i as int).last() == dv[i - 1]);
            assert(texts@.drop_last() =~= prev);
            assert(texts.deep_view() =~= print_decl_texts_s(dv.take(i as int)));
        }
    }
    proof {
        assert(ds.deep_view().take(ds@.len() as int) =~= ds.deep_view());
    }
    separated("\n\n", &texts)
}

} // verus!

verus! {

use crate::nf;
use crate::nf::{NfS, NeuS};

/// The printed form of a normal form.
pub open spec fn print_nf_s(n: NfS) -> Seq<char>
    decreases n, 0nat,
{
    match n {
        NfS::TypCtor { name, args, .. } => name + print_nf_args_s(args),
        NfS::Ctor { name, args, .. } => name + print_nf_args_s(args),
        NfS::Type { .. } => "Type"@,
        NfS::Comatch { body, .. } => "comatch { "@ + join_sep(
            ", "@,
            print_nf_cocases_s(body.cases),
        ) + " }"@,
        NfS::Neu { exp } => print_nf_neu_s(exp),
    }
}

/// The printed form of a neutral normal form.
pub open spec fn print_nf_neu_s(n: NeuS) -> Seq<char>
    decreases n, 2nat,
{
    match n {
        NeuS::Var { idx, .. } => "@"@ + dec_s(idx as nat),
        NeuS::Dtor { exp, name, args, .. } => print_nf_neu_s(*exp) + "."@ + name
            + print_nf_args_s(args),
        NeuS::Match { on_exp, body, .. } => print_nf_neu_s(*on_exp) + ".match { "@ + join_sep(
            ", "@,
            print_nf_cases_s(body.cases),
        ) + " }"@,
    }
}

/// The printed forms of a list of normal forms.
pub open spec fn print_nf_list_s(es: Seq<NfS>) -> Seq<Seq<char>>
    decreases es, 0nat,
{
    if es.len() == 0 {
        Seq::empty()
    } else {
        print_nf_list_s(es.drop_last()).push(print_nf_s(es.last()))
    }
}

/// The printed form of an argument list of normal forms.
pub open spec fn print_nf_args_s(es: Seq<NfS>) -> Seq<char>
    decreases es, 1nat,
{
    if es.len() == 0 {
        ""@
    } else {
        "("@ + join_sep(", "@, print_nf_list_s(es)) + ")"@
    }
}

/// The printed form of one case in normal form.
pub open spec fn print_nf_case_s(c: nf::CaseS) -> Seq<char>
    decreases c, 0nat,
{
    (if c.n_args == 0 {
        c.name
    } else {
        c.name + "("@ + dec_s(c.n_args as nat) + ")"@
    }) + " => "@ + print_nf_s(*c.body)
}

/// The printed forms of a list of cases in normal form.
pub open spec fn print_nf_cases_s(cs: Seq<nf::CaseS>) -> Seq<Seq<char>>
    decreases cs, 0nat,
{
    if cs.len() == 0 {
        Seq::empty()
    } else {
        print_nf_cases_s(cs.drop_last()).push(print_nf_case_s(cs.last()))
    }
}

/// The printed form of one cocase in normal form.
pub open spec fn print_nf_cocase_s(c: nf::CocaseS) -> Seq<char>
    decreases c, 0nat,
{
    (if c.n_args == 0 {
        c.name
    } else {
        c.name + "("@ + dec_s(c.n_args as nat) + ")"@
    }) + " => "@ + print_nf_s(*c.body)
}

/// The printed forms of a list of cocases in normal form.
pub open spec fn print_nf_cocases_s(cs: Seq<nf::CocaseS>) -> Seq<Seq<char>>
    decreases cs, 0nat,
{
    if cs.len() == 0 {
        Seq::empty()
    } else {
        print_nf_cocases_s(cs.drop_last()).push(print_nf_cocase_s(cs.last()))
    }
}

impl nf::Nf {
    /// Print the normal form.
    pub fn print_to_string(&self) -> (r: String)
        ensures
            r@ == print_nf_s(self@),
        decreases *self, 0nat,
    {
        match self {
            nf::Nf::TypCtor { name, args, .. } => {
                let mut s = name.clone();
                s.append(print_nf_args(args).as_str());
                s
            },
            nf::Nf::Ctor { name, args, .. } => {
                let mut s = name.clone();
                s.append(print_nf_args(args).as_str());
                s
            },
            nf::Nf::Type { .. } => "Type".to_owned(),
            nf::Nf::Comatch { body, .. } => {
                let mut s = "comatch { ".to_owned();
                let texts = print_nf_cocases(&body.cases);
                s.append(separated(", ", &texts).as_str());
                s.append(" }");
                proof {
                    assert(nf::view_nf_comatch(*body).cases == nf::view_nf_cocases(body.cases@));
                }
                s
            },
            nf::Nf::Neu { exp } => exp.print_to_string(),
        }
    }
}

impl nf::Neu {
    /// Print the neutral normal form.
    pub fn print_to_string(&self) -> (r: String)
        ensures
            r@ == print_nf_neu_s(self@),
        decreases *self, 2nat,
    {
        match self {
            nf::Neu::Var { idx, .. } => {
                let mut s = "@".to_owned();
                s.append(dec(*idx).as_str());
                s
            },
            nf::Neu::Dtor { exp, name, args, .. } => {
                let mut s = (**exp).print_to_string();
                s.append(".");
                s.append(name.as_str());
                s.append(print_nf_args(args).as_str());
                s
            },
            nf::Neu::Match { on_exp, body, .. } => {
                let mut s = (**on_exp).print_to_string();
                s.append(".match { ");
                let texts = print_nf_cases(&body.cases);
                s.append(separated(", ", &texts).as_str());
                s.append(" }");
                proof {
                    assert(nf::view_nf_match(*body).cases == nf::view_nf_cases(body.cases@));
                }
                s
            },
        }
    }
}

/// Print an argument list of normal forms.
fn print_nf_args(args: &Vec<nf::Nf>) -> (r: String)
    ensures
        r@ == print_nf_args_s(nf::view_nfs(args@)),
    decreases *args, 1nat,
{
    proof {
        nf::lemma_view_nfs(args@);
    }
    if args.len() == 0 {
        proof {
            reveal_strlit("");
            assert(""@ =~= Seq::<char>::empty());
        }
        String::new()
    } else {
        let texts = print_nf_list(args);
        let mut s = "(".to_owned();
        s.append(separated(", ", &texts).as_str());
        s.append(")");
        s
    }
}

/// Print every normal form in a list.
fn print_nf_list(args: &Vec<nf::Nf>) -> (r: Vec<String>)
    ensures
        r.deep_view() == print_nf_list_s(nf::view_nfs(args@)),
    decreases *args, 0nat,
{
    let mut r: Vec<String> = Vec::new();
    proof {
        nf::lemma_view_nfs(args@);
        assert(nf::view_nfs(args@).take(0) =~= Seq::<NfS>::empty());
        assert(r.deep_view() =~= print_nf_list_s(nf::view_nfs(args@).take(0)));
    }
    let mut i: usize = 0;
    while i < args.len()
        invariant
            i <= args@.len(),
            r.deep_view() == print_nf_list_s(nf::view_nfs(args@).take(i as int)),
        decreases args@.len() - i,
    {
        proof {
            nf::lemma_view_nfs(args@);
        }
        let ghost prev = r@;
        r.push(args[i].print_to_string());
        i += 1;
        proof {
            let es = nf::view_nfs(args@);
            assert(es.take(i as int).drop_last() =~= es.take(i - 1));
            assert(es.take(i as int).last() == es[i - 1]);
            assert(r@.drop_last() =~= prev);
            assert(r.deep_view() =~= print_nf_list_s(es.take(i as int)));
        }
    }
    proof {
        nf::lemma_view_nfs(args@);
        assert(nf::view_nfs(args@).take(args@.len() as int) =~= nf::view_nfs(args@));
    }
    r
}

/// Print one case in normal form.
fn print_nf_case(c: &nf::Case) -> (r: String)
    ensures
        r@ == print_nf_case_s(c@),
    decreases *c, 0nat,
{
    let mut s = c.name.clone();
    if c.n_args != 0 {
        s.append("(");
        s.append(dec(c.n_args).as_str());
        s.append(")");
    }
    s.append(" => ");
    s.append((*c.body).print_to_string().as_str());
    s
}

/// Print every case of a match in normal form.
fn print_nf_cases(cs: &Vec<nf::Case>) -> (r: Vec<String>)
    ensures
        r.deep_view() == print_nf_cases_s(nf::view_nf_cases(cs@)),
    decreases *cs, 0nat,
{
    let mut r: Vec<String> = Vec::new();
    proof {
        nf::lemma_view_nf_cases(cs@);
        assert(nf::view_nf_cases(cs@).take(0) =~= Seq::<nf::CaseS>::empty());
        assert(r.deep_view() =~= print_nf_cases_s(nf::view_nf_cases(cs@).take(0)));
    }
    let mut i: usize = 0;
    while i < cs.len()
        invariant
            i <= cs@.len(),
            r.deep_view() == print_nf_cases_s(nf::view_nf_cases(cs@).take(i as int)),
        decreases cs@.len() - i,
    {
        proof {
            nf::lemma_view_nf_cases(cs@);
        }
        let ghost prev = r@;
        r.push(print_nf_case(&cs[i]));
        i += 1;
        proof {
            let vs = nf::view_nf_cases(cs@);
            assert(vs.take(i as int).drop_last() =~= vs.take(i - 1));
            assert(vs.take(i as int).last() == vs[i - 1]);
            assert(r@.drop_last() =~= prev);
            assert(r.deep_view() =~= print_nf_cases_s(vs.take(i as int)));
        }
    }
    proof {
        nf::lemma_view_nf_cases(cs@);
        assert(nf::view_nf_cases(cs@).take(cs@.len() as int) =~= nf::view_nf_cases(cs@));
    }
    r
}

/// Print one cocase in normal form.
fn print_nf_cocase(c: &nf::Cocase) -> (r: String)
    ensures
        r@ == print_nf_cocase_s(c@),
    decreases *c, 0nat,
{
    let mut s = c.name.clone();
    if c.n_args != 0 {
        s.append("(");
        s.append(dec(c.n_args).as_str());
        s.append(")");
    }
    s.append(" => ");
    s.append((*c.body).print_to_string().as_str());
    s
}

/// Print every cocase of a comatch in normal form.
fn print_nf_cocases(cs: &Vec<nf::Cocase>) -> (r: Vec<String>)
    ensures
        r.deep_view() == print_nf_cocases_s(nf::view_nf_cocases(cs@)),
    decreases *cs, 0nat,
{
    let mut r: Vec<String> = Vec::new();
    proof {
        nf::lemma_view_nf_cocases(cs@);
        assert(nf::view_nf_cocases(cs@).take(0) =~= Seq::<nf::CocaseS>::empty());
        assert(r.deep_view() =~= print_nf_cocases_s(nf::view_nf_cocases(cs@).take(0)));
    }
    let mut i: usize = 0;
    while i < cs.len()
        invariant
            i <= cs@.len(),
            r.deep_view() == print_nf_cocases_s(nf::view_nf_cocases(cs@).take(i as int)),
        decreases cs@.len() - i,
    {
        proof {
            nf::lemma_view_nf_cocases(cs@);
        }
        let ghost prev = r@;
        r.push(print_nf_cocase(&cs[i]));
        i += 1;
        proof {
            let vs = nf::view_nf_cocases(cs@);
            assert(vs.take(i as int).drop_last() =~= vs.take(i - 1));
            assert(vs.take(i as int).last() == vs[i - 1]);
            assert(r@.drop_last() =~= prev);
            assert(r.deep_view() =~= print_nf_cocases_s(vs.take(i as int)));
        }
    }
    proof {
        nf::lemma_view_nf_cocases(cs@);
        assert(nf::view_nf_cocases(cs@).take(cs@.len() as int) =~= nf::view_nf_cocases(cs@));
    }
    r
}

} // verus!
