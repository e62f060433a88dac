use vstd::prelude::*;

use crate::ast;
use crate::decls::{
    find_decl_s, xdefs_for_type_s, DeclS, Decls, TypAbs,
};
use crate::span::Span;

verus! {

use crate::outside::str_eq;

/// Whether a type is introduced by constructors or by destructors.
#[derive(Clone, Copy, PartialEq, Eq, Structural, Debug)]
pub enum Repr {
    Data,
    Codata,
}

/// One constructor or destructor of the row's type.
#[derive(Debug)]
pub struct XtorSig {
    pub span: Option<Span>,
    pub name: String,
    pub n_params: usize,
}

/// One definition or co-definition on the row's type, with its case bodies:
/// the row's cells.
#[derive(Debug)]
pub struct XdefSig {
    pub span: Option<Span>,
    pub name: String,
    pub n_params: usize,
    pub cases: Vec<ast::Case>,
}

/// One row of the program matrix: a type, its xtors, and its xdefs.
#[derive(Debug)]
pub struct Row {
    pub span: Option<Span>,
    pub name: String,
    pub hidden: bool,
    pub typ: TypAbs,
    pub repr: Repr,
    pub xtors: Vec<XtorSig>,
    pub xdefs: Vec<XdefSig>,
}

/// The program matrix: one row per type declaration, in source order.
#[derive(Debug)]
pub struct Matrix {
    pub rows: Vec<Row>,
}

/// An error raised by the xfunctionalizer.
#[derive(Debug)]
pub enum XfuncError {
    /// Some internal invariant was violated; this should not occur on
    /// well-formed modules.
    Impossible { message: String, span: Option<Span> },
}

/// Mathematical model of an xtor signature.
pub struct XtorSigS {
    pub span: Option<Span>,
    pub name: Seq<char>,
    pub n_params: usize,
}

/// Mathematical model of an xdef signature.
pub struct XdefSigS {
    pub span: Option<Span>,
    pub name: Seq<char>,
    pub n_params: usize,
    pub cases: Seq<ast::CaseS>,
}

/// Mathematical model of a matrix row.
pub struct RowS {
    pub span: Option<Span>,
    pub name: Seq<char>,
    pub hidden: bool,
    pub typ: TypAbs,
    pub repr: Repr,
    pub xtors: Seq<XtorSigS>,
    pub xdefs: Seq<XdefSigS>,
}

/// Mathematical model of an xfunctionalizer error.
pub enum XfuncErrorS {
    Impossible { message: Seq<char>, span: Option<Span> },
}

impl View for XtorSig {
    type V = XtorSigS;

    open spec fn view(&self) -> XtorSigS {
        XtorSigS { span: self.span, name: self.name@, n_params: self.n_params }
    }
}

impl View for XdefSig {
    type V = XdefSigS;

    open spec fn view(&self) -> XdefSigS {
        XdefSigS {
            span: self.span,
            name: self.name@,
            n_params: self.n_params,
            cases: ast::view_cases(self.cases@),
        }
    }
}

impl View for Row {
    type V = RowS;

    open spec fn view(&self) -> RowS {
        RowS {
            span: self.span,
            name: self.name@,
            hidden: self.hidden,
            typ: self.typ,
            repr: self.repr,
            xtors: view_xtor_sigs(self.xtors@),
            xdefs: view_xdef_sigs(self.xdefs@),
        }
    }
}

impl View for Matrix {
    type V = Seq<RowS>;

    open spec fn view(&self) -> Seq<RowS> {
        view_rows(self.rows@)
    }
}

impl View for XfuncError {
    type V = XfuncErrorS;

    open spec fn view(&self) -> XfuncErrorS {
        match self {
            XfuncError::Impossible { message, span } => XfuncErrorS::Impossible {
                message: message@,
                span: *span,
            },
        }
    }
}

pub open spec fn view_xtor_sigs(v: Seq<XtorSig>) -> Seq<XtorSigS>
    decreases v,
{
    if v.len() == 0 {
        Seq::empty()
    } else {
        view_xtor_sigs(v.drop_last()).push(v.last()@)
    }
}

pub broadcast proof fn lemma_view_xtor_sigs(v: Seq<XtorSig>)
    ensures
        (#[trigger] view_xtor_sigs(v)).len() == v.len(),
        forall|i: int| 0 <= i < v.len() ==> view_xtor_sigs(v)[i] == v[i]@,
    decreases v.len(),
{
    if v.len() > 0 {
        lemma_view_xtor_sigs(v.drop_last());
    }
}

pub open spec fn view_xdef_sigs(v: Seq<XdefSig>) -> Seq<XdefSigS>
    decreases v,
{
    if v.len() == 0 {
        Seq::empty()
    } else {
        view_xdef_sigs(v.drop_last()).push(v.last()@)
    }
}

pub broadcast proof fn lemma_view_xdef_sigs(v: Seq<XdefSig>)
    ensures
        (#[trigger] view_xdef_sigs(v)).len() == v.len(),
        forall|i: int| 0 <= i < v.len() ==> view_xdef_sigs(v)[i] == v[i]@,
    decreases v.len(),
{
    if v.len() > 0 {
        lemma_view_xdef_sigs(v.drop_last());
    }
}

pub open spec fn view_rows(v: Seq<Row>) -> Seq<RowS>
    decreases v,
{
    if v.len() == 0 {
        Seq::empty()
    } else {
        view_rows(v.drop_last()).push(v.last()@)
    }
}

pub broadcast proof fn lemma_view_rows(v: Seq<Row>)
    ensures
        (#[trigger] view_rows(v)).len() == v.len(),
        forall|i: int| 0 <= i < v.len() ==> view_rows(v)[i] == v[i]@,
    decreases v.len(),
{
    if v.len() > 0 {
        lemma_view_rows(v.drop_last());
    }
}

/// The xtor signature that `name` resolves to: a constructor or a destructor.
pub open spec fn xtor_sig_s(ds: Seq<DeclS>, name: Seq<char>) -> Option<XtorSigS> {
    match find_decl_s(ds, name) {
        Some(DeclS::Ctor(c)) => Some(XtorSigS { span: c.span, name: c.name, n_params: c.n_params }),
        Some(DeclS::Dtor(d)) => Some(XtorSigS { span: d.span, name: d.name, n_params: d.n_params }),
        _ => None,
    }
}

/// The xdef signature that `name` resolves to: a definition or co-definition
/// together with its cases.
pub open spec fn xdef_sig_s(ds: Seq<DeclS>, name: Seq<char>) -> Option<XdefSigS> {
    match find_decl_s(ds, name) {
        Some(DeclS::Def(d)) => Some(
            XdefSigS { span: d.span, name: d.name, n_params: d.n_params, cases: d.body.cases },
        ),
        Some(DeclS::Codef(c)) => Some(
            XdefSigS { span: c.span, name: c.name, n_params: c.n_params, cases: c.body.cases },
        ),
        _ => None,
    }
}

/// Resolve a list of xtor names; the first name that fails to resolve wins.
pub open spec fn xtor_sigs_s(ds: Seq<DeclS>, names: Seq<Seq<char>>) -> Result<
    Seq<XtorSigS>,
    XfuncErrorS,
>
    decreases names.len(),
{
    if names.len() == 0 {
        Ok(Seq::empty())
    } else {
        match xtor_sigs_s(ds, names.drop_last()) {
            Err(e) => Err(e),
            Ok(vs) => match xtor_sig_s(ds, names.last()) {
                None => Err(XfuncErrorS::Impossible {
                    message: "Could not resolve "@ + names.last(),
                    span: None,
                }),
                Some(s) => Ok(vs.push(s)),
            },
        }
    }
}

/// Resolve a list of xdef names; the first name that fails to resolve wins.
pub open spec fn xdef_sigs_s(ds: Seq<DeclS>, names: Seq<Seq<char>>) -> Result<
    Seq<XdefSigS>,
    XfuncErrorS,
>
    decreases names.len(),
{
    if names.len() == 0 {
        Ok(Seq::empty())
    } else {
        match xdef_sigs_s(ds, names.drop_last()) {
            Err(e) => Err(e),
            Ok(vs) => match xdef_sig_s(ds, names.last()) {
                None => Err(XfuncErrorS::Impossible {
                    message: "Could not resolve "@ + names.last(),
                    span: None,
                }),
                Some(s) => Ok(vs.push(s)),
            },
        }
    }
}

/// The matrix row of one type declaration; a declaration that is not a type
/// has no row.
pub open spec fn row_s(ds: Seq<DeclS>, d: DeclS) -> Result<Option<RowS>, XfuncErrorS> {
    match d {
        DeclS::Data(x) => match xtor_sigs_s(ds, x.ctors) {
            Err(e) => Err(e),
            Ok(xtors) => match xdef_sigs_s(ds, xdefs_for_type_s(ds, x.name)) {
                Err(e) => Err(e),
                Ok(xdefs) => Ok(
                    Some(
                        RowS {
                            span: x.span,
                            name: x.name,
                            hidden: x.hidden,
                            typ: x.typ,
                            repr: Repr::Data,
                            xtors,
                            xdefs,
                        },
                    ),
                ),
            },
        },
        DeclS::Codata(x) => match xtor_sigs_s(ds, x.dtors) {
            Err(e) => Err(e),
            Ok(xtors) => match xdef_sigs_s(ds, xdefs_for_type_s(ds, x.name)) {
                Err(e) => Err(e),
                Ok(xdefs) => Ok(
                    Some(
                        RowS {
                            span: x.span,
                            name: x.name,
                            hidden: x.hidden,
                            typ: x.typ,
                            repr: Repr::Codata,
                            xtors,
                            xdefs,
                        },
                    ),
                ),
            },
        },
        _ => Ok(None),
    }
}

/// The whole matrix: one row per type declaration, in source order; the
/// first failure wins.
pub open spec fn rows_s(ds: Seq<DeclS>, upto: Seq<DeclS>) -> Result<Seq<RowS>, XfuncErrorS>
    decreases upto.len(),
{
    if upto.len() == 0 {
        Ok(Seq::empty())
    } else {
        match rows_s(ds, upto.drop_last()) {
            Err(e) => Err(e),
            Ok(rs) => match row_s(ds, upto.last()) {
                Err(e) => Err(e),
                Ok(None) => Ok(rs),
                Ok(Some(r)) => Ok(rs.push(r)),
            },
        }
    }
}

/// What building the matrix of a module returns.
pub open spec fn as_matrix_s(ds: Seq<DeclS>) -> Result<Seq<RowS>, XfuncErrorS> {
    rows_s(ds, ds)
}

/// The first row bearing a type's name.
pub open spec fn find_row_s(rs: Seq<RowS>, name: Seq<char>) -> Option<RowS>
    decreases rs.len(),
{
    if rs.len() == 0 {
        None
    } else if rs[0].name == name {
        Some(rs[0])
    } else {
        find_row_s(rs.drop_first(), name)
    }
}

/// A row scan that has rejected a prefix may go on from the rest alone.
pub proof fn lemma_find_row_skip(rs: Seq<RowS>, name: Seq<char>, i: int)
    requires
        0 <= i <= rs.len(),
        forall|j: int| 0 <= j < i ==> (#[trigger] rs[j]).name != name,
    ensures
        find_row_s(rs, name) == find_row_s(rs.skip(i), name),
    decreases i,
{
    if i > 0 {
        assert(rs.drop_first() =~= rs.skip(1));
        lemma_find_row_skip(rs.drop_first(), name, i - 1);
        assert(rs.drop_first().skip(i - 1) =~= rs.skip(i));
    } else {
        assert(rs.skip(0) =~= rs);
    }
}

/// The first case bearing `name` in a cell column.
pub open spec fn cell_s(cs: Seq<ast::CaseS>, name: Seq<char>) -> Option<ast::CaseS>
    decreases cs.len(),
{
    if cs.len() == 0 {
        None
    } else if cs[0].name == name {
        Some(cs[0])
    } else {
        cell_s(cs.drop_first(), name)
    }
}

/// A cell scan that has rejected a prefix may go on from the rest alone.
pub proof fn lemma_cell_skip(cs: Seq<ast::CaseS>, name: Seq<char>, i: int)
    requires
        0 <= i <= cs.len(),
        forall|j: int| 0 <= j < i ==> (#[trigger] cs[j]).name != name,
    ensures
        cell_s(cs, name) == cell_s(cs.skip(i), name),
    decreases i,
{
    if i > 0 {
        assert(cs.drop_first() =~= cs.skip(1));
        lemma_cell_skip(cs.drop_first(), name, i - 1);
        assert(cs.drop_first().skip(i - 1) =~= cs.skip(i));
    } else {
        assert(cs.skip(0) =~= cs);
    }
}

/// The (co)case that one xdef contributes to the pivoted xdef of the xtor
/// named `cname`: its cell body under the xdef's name and arity.  A missing
/// cell becomes an absurd case.
pub open spec fn flip_case_s(d: XdefSigS, cname: Seq<char>) -> ast::CaseS {
    match cell_s(d.cases, cname) {
        Some(c) => ast::CaseS { span: c.span, name: d.name, n_params: d.n_params, body: c.body },
        None => ast::CaseS { span: None, name: d.name, n_params: d.n_params, body: None },
    }
}

/// The pivoted case column of the xtor named `cname`: one case per xdef.
pub open spec fn flip_cases_s(xdefs: Seq<XdefSigS>, cname: Seq<char>) -> Seq<ast::CaseS>
    decreases xdefs.len(),
{
    if xdefs.len() == 0 {
        Seq::empty()
    } else {
        flip_cases_s(xdefs.drop_last(), cname).push(flip_case_s(xdefs.last(), cname))
    }
}

pub broadcast proof fn lemma_flip_cases_s(xdefs: Seq<XdefSigS>, cname: Seq<char>)
    ensures
        (#[trigger] flip_cases_s(xdefs, cname)).len() == xdefs.len(),
        forall|i: int| 0 <= i < xdefs.len() ==> flip_cases_s(xdefs, cname)[i] == flip_case_s(
            xdefs[i],
            cname,
        ),
    decreases xdefs.len(),
{
    if xdefs.len() > 0 {
        lemma_flip_cases_s(xdefs.drop_last(), cname);
    }
}

/// The xtor signature an xdef turns into under the pivot.
pub open spec fn xtor_of_xdef_s(d: XdefSigS) -> XtorSigS {
    XtorSigS { span: d.span, name: d.name, n_params: d.n_params }
}

/// The pivoted xtor column: the xdefs, as xtors, in order.
pub open spec fn flip_xtors_s(xdefs: Seq<XdefSigS>) -> Seq<XtorSigS>
    decreases xdefs.len(),
{
    if xdefs.len() == 0 {
        Seq::empty()
    } else {
        flip_xtors_s(xdefs.drop_last()).push(xtor_of_xdef_s(xdefs.last()))
    }
}

pub broadcast proof fn lemma_flip_xtors_s(xdefs: Seq<XdefSigS>)
    ensures
        (#[trigger] flip_xtors_s(xdefs)).len() == xdefs.len(),
        forall|i: int| 0 <= i < xdefs.len() ==> flip_xtors_s(xdefs)[i] == xtor_of_xdef_s(xdefs[i]),
    decreases xdefs.len(),
{
    if xdefs.len() > 0 {
        lemma_flip_xtors_s(xdefs.drop_last());
    }
}

/// The xdef signature an xtor turns into under the pivot: its cases are the
/// transposed cells, one per old xdef.
pub open spec fn xdef_of_xtor_s(c: XtorSigS, xdefs: Seq<XdefSigS>) -> XdefSigS {
    XdefSigS {
        span: c.span,
        name: c.name,
        n_params: c.n_params,
        cases: flip_cases_s(xdefs, c.name),
    }
}

/// The pivoted xdef column: the xtors, as xdefs with transposed cells.
pub open spec fn flip_xdefs_s(xtors: Seq<XtorSigS>, xdefs: Seq<XdefSigS>) -> Seq<XdefSigS>
    decreases xtors.len(),
{
    if xtors.len() == 0 {
        Seq::empty()
    } else {
        flip_xdefs_s(xtors.drop_last(), xdefs).push(xdef_of_xtor_s(xtors.last(), xdefs))
    }
}

pub broadcast proof fn lemma_flip_xdefs_s(xtors: Seq<XtorSigS>, xdefs: Seq<XdefSigS>)
    ensures
        (#[trigger] flip_xdefs_s(xtors, xdefs)).len() == xtors.len(),
        forall|i: int| 0 <= i < xtors.len() ==> flip_xdefs_s(xtors, xdefs)[i] == xdef_of_xtor_s(
            xtors[i],
            xdefs,
        ),
    decreases xtors.len(),
{
    if xtors.len() > 0 {
        lemma_flip_xdefs_s(xtors.drop_last(), xdefs);
    }
}

/// The pivot of one row: rows and columns swap, cells transpose, the
/// representation flips.
pub open spec fn flip_row_s(row: RowS) -> RowS {
    RowS {
        span: row.span,
        name: row.name,
        hidden: row.hidden,
        typ: row.typ,
        repr: match row.repr {
            Repr::Data => Repr::Codata,
            Repr::Codata => Repr::Data,
        },
        xtors: flip_xtors_s(row.xdefs),
        xdefs: flip_xdefs_s(row.xtors, row.xdefs),
    }
}

/// A well-formed row, as the type checker guarantees it: xtor and xdef names
/// are distinct, and every xdef has exactly one case per xtor, in declaration
/// order, binding the xtor's parameters.
pub open spec fn wf_row(row: RowS) -> bool {
    &&& (forall|i: int, j: int|
        0 <= i < j < row.xtors.len() ==> (#[trigger] row.xtors[i]).name != (
        #[trigger] row.xtors[j]).name)
    &&& (forall|i: int, j: int|
        0 <= i < j < row.xdefs.len() ==> (#[trigger] row.xdefs[i]).name != (
        #[trigger] row.xdefs[j]).name)
    &&& (forall|j: int|
        0 <= j < row.xdefs.len() ==> (#[trigger] row.xdefs[j]).cases.len() == row.xtors.len())
    &&& (forall|j: int, i: int|
        0 <= j < row.xdefs.len() && 0 <= i < row.xtors.len() ==> (#[trigger] row.xdefs[j].cases[i]).name
            == row.xtors[i].name && row.xdefs[j].cases[i].n_params == row.xtors[i].n_params)
}

/// In a list of cases whose names follow the (distinct) xtor names in order,
/// the cell of the i-th xtor name is exactly the i-th case.
proof fn lemma_cell_aligned(cs: Seq<ast::CaseS>, names: Seq<Seq<char>>, i: int)
    requires
        cs.len() == names.len(),
        forall|k: int| 0 <= k < cs.len() ==> (#[trigger] cs[k]).name == names[k],
        forall|k: int, l: int|
            0 <= k < l < names.len() ==> (#[trigger] names[k]) != (#[trigger] names[l]),
        0 <= i < cs.len(),
    ensures
        cell_s(cs, names[i]) == Some(cs[i]),
    decreases i,
{
    assert forall|j: int| 0 <= j < i implies (#[trigger] cs[j]).name != names[i] by {
        assert(names[j] != names[i]);
    }
    lemma_cell_skip(cs, names[i], i);
    assert(cs.skip(i)[0] == cs[i]);
}

/// The pivot is an involution: flipping a well-formed row twice gives back
/// the row, exactly.  Refunctionalizing and then defunctionalizing (or the
/// other way round) therefore reproduces the original declaration group, and
/// in particular a module observationally equal to the original under
/// evaluation.
pub proof fn lemma_flip_involution(row: RowS)
    requires
        wf_row(row),
    ensures
        flip_row_s(flip_row_s(row)) == row,
{
    let fr = flip_row_s(row);
    let frr = flip_row_s(fr);
    lemma_flip_xtors_s(row.xdefs);
    lemma_flip_xdefs_s(row.xtors, row.xdefs);
    lemma_flip_xtors_s(fr.xdefs);
    lemma_flip_xdefs_s(fr.xtors, fr.xdefs);
    // the xtors come back: the flipped xdefs carry the xtors' signatures
    assert forall|i: int| 0 <= i < row.xtors.len() implies frr.xtors[i] == row.xtors[i] by {
        assert(fr.xdefs[i] == xdef_of_xtor_s(row.xtors[i], row.xdefs));
    }
    assert(frr.xtors =~= row.xtors);
    // the xdefs come back: each case returns to its original slot
    assert forall|j: int| 0 <= j < row.xdefs.len() implies frr.xdefs[j] == row.xdefs[j] by {
        assert(fr.xtors[j] == xtor_of_xdef_s(row.xdefs[j]));
        let back = xdef_of_xtor_s(fr.xtors[j], fr.xdefs);
        lemma_flip_cases_s(fr.xdefs, row.xdefs[j].name);
        assert forall|i: int| 0 <= i < row.xtors.len() implies back.cases[i]
            == row.xdefs[j].cases[i] by {
            assert(fr.xdefs[i] == xdef_of_xtor_s(row.xtors[i], row.xdefs));
            lemma_flip_cases_s(row.xdefs, row.xtors[i].name);
            // the cases of the flipped xdef of xtor i are named after the xdefs, in order
            let names = Seq::new(
                row.xdefs.len(),
                |k: int| row.xdefs[k].name,
            );
            assert forall|k: int| 0 <= k < fr.xdefs[i].cases.len() implies (#[trigger] fr.xdefs[i].cases[k]).name
                == names[k] by {
                assert(fr.xdefs[i].cases[k] == flip_case_s(row.xdefs[k], row.xtors[i].name));
            }
            lemma_cell_aligned(fr.xdefs[i].cases, names, j);
            assert(fr.xdefs[i].cases[j] == flip_case_s(row.xdefs[j], row.xtors[i].name));
            lemma_cell_aligned(
                row.xdefs[j].cases,
                Seq::new(row.xtors.len(), |k: int| row.xtors[k].name),
                i,
            );
        }
        assert(back.cases =~= row.xdefs[j].cases);
        assert(back == row.xdefs[j]);
    }
    assert(frr.xdefs =~= row.xdefs);
}

} // verus!

verus! {

/// Once a prefix of the names fails to resolve, the whole list fails the
/// same way.
proof fn lemma_xtor_sigs_err_extend(ds: Seq<DeclS>, names: Seq<Seq<char>>, j: int)
    requires
        0 <= j <= names.len(),
        xtor_sigs_s(ds, names.take(j)) is Err,
    ensures
        xtor_sigs_s(ds, names) == xtor_sigs_s(ds, names.take(j)),
    decreases names.len() - j,
{
    if j < names.len() {
        assert(names.take(j + 1).drop_last() =~= names.take(j));
        lemma_xtor_sigs_err_extend(ds, names, j + 1);
    } else {
        assert(names.take(j) =~= names);
    }
}

proof fn lemma_xdef_sigs_err_extend(ds: Seq<DeclS>, names: Seq<Seq<char>>, j: int)
    requires
        0 <= j <= names.len(),
        xdef_sigs_s(ds, names.take(j)) is Err,
    ensures
        xdef_sigs_s(ds, names) == xdef_sigs_s(ds, names.take(j)),
    decreases names.len() - j,
{
    if j < names.len() {
        assert(names.take(j + 1).drop_last() =~= names.take(j));
        lemma_xdef_sigs_err_extend(ds, names, j + 1);
    } else {
        assert(names.take(j) =~= names);
    }
}

proof fn lemma_rows_err_extend(ds: Seq<DeclS>, upto: Seq<DeclS>, j: int)
    requires
        0 <= j <= upto.len(),
        rows_s(ds, upto.take(j)) is Err,
    ensures
        rows_s(ds, upto) == rows_s(ds, upto.take(j)),
    decreases upto.len() - j,
{
    if j < upto.len() {
        assert(upto.take(j + 1).drop_last() =~= upto.take(j));
        lemma_rows_err_extend(ds, upto, j + 1);
    } else {
        assert(upto.take(j) =~= upto);
    }
}

/// Build the message of an unresolved name.
fn resolve_message(name: &str) -> (r: String)
    ensures
        r@ == "Could not resolve "@ + name@,
{
    let mut m = "Could not resolve ".to_owned();
    m.append(name);
    m
}

/// Resolve every name in the list to an xtor signature.
fn xtor_sigs(decls: &Decls, names: &Vec<String>) -> (r: Result<Vec<XtorSig>, XfuncError>)
    ensures
        (match r {
            Ok(v) => Ok::<Seq<XtorSigS>, XfuncErrorS>(view_xtor_sigs(v@)),
            Err(e) => Err(e@),
        }) == xtor_sigs_s(decls@, names.deep_view()),
{
    let mut out: Vec<XtorSig> = Vec::new();
    proof {
        assert(names.deep_view().take(0) =~= Seq::<Seq<char>>::empty());
        assert(view_xtor_sigs(out@) =~= Seq::<XtorSigS>::empty());
    }
    let mut i: usize = 0;
    while i < names.len()
        invariant
            i <= names@.len(),
            xtor_sigs_s(decls@, names.deep_view().take(i as int)) == Ok::<
                Seq<XtorSigS>,
                XfuncErrorS,
            >(view_xtor_sigs(out@)),
        decreases names@.len() - i,
    {
        let ghost ns = names.deep_view();
        proof {
            assert(ns.take(i + 1).drop_last() =~= ns.take(i as int));
            assert(ns.take(i + 1).last() == ns[i as int]);
        }
        let sig = match decls.ctor(names[i].as_str(), None) {
            Ok(c) => XtorSig { span: c.span, name: c.name, n_params: c.n_params },
            Err(_) => match decls.dtor(names[i].as_str(), None) {
                Ok(d) => XtorSig { span: d.span, name: d.name, n_params: d.n_params },
                Err(_) => {
                    proof {
                        lemma_xtor_sigs_err_extend(decls@, ns, i + 1);
                    }
                    return Err(
                        XfuncError::Impossible {
                            message: resolve_message(names[i].as_str()),
                            span: None,
                        },
                    );
                },
            },
        };
        let ghost prev = out@;
        out.push(sig);
        i += 1;
        proof {
            assert(out@.drop_last() =~= prev);
            assert(view_xtor_sigs(out@) == view_xtor_sigs(prev).push(out@.last()@));
        }
    }
    proof {
        assert(names.deep_view().take(names@.len() as int) =~= names.deep_view());
    }
    Ok(out)
}

/// Resolve every name in the list to an xdef signature.
fn xdef_sigs(decls: &Decls, names: &Vec<String>) -> (r: Result<Vec<XdefSig>, XfuncError>)
    ensures
        (match r {
            Ok(v) => Ok::<Seq<XdefSigS>, XfuncErrorS>(view_xdef_sigs(v@)),
            Err(e) => Err(e@),
        }) == xdef_sigs_s(decls@, names.deep_view()),
{
    let mut out: Vec<XdefSig> = Vec::new();
    proof {
        assert(names.deep_view().take(0) =~= Seq::<Seq<char>>::empty());
        assert(view_xdef_sigs(out@) =~= Seq::<XdefSigS>::empty());
    }
    let mut i: usize = 0;
    while i < names.len()
        invariant
            i <= names@.len(),
            xdef_sigs_s(decls@, names.deep_view().take(i as int)) == Ok::<
                Seq<XdefSigS>,
                XfuncErrorS,
            >(view_xdef_sigs(out@)),
        decreases names@.len() - i,
    {
        let ghost ns = names.deep_view();
        proof {
            assert(ns.take(i + 1).drop_last() =~= ns.take(i as int));
            assert(ns.take(i + 1).last() == ns[i as int]);
        }
        let sig = match decls.def(names[i].as_str(), None) {
            Ok(d) => XdefSig { span: d.span, name: d.name, n_params: d.n_params, cases: d.body.cases },
            Err(_) => match decls.codef(names[i].as_str(), None) {
                Ok(c) => XdefSig {
                    span: c.span,
                    name: c.name,
                    n_params: c.n_params,
                    cases: c.body.cases,
                },
                Err(_) => {
                    proof {
                        lemma_xdef_sigs_err_extend(decls@, ns, i + 1);
                    }
                    return Err(
                        XfuncError::Impossible {
                            message: resolve_message(names[i].as_str()),
                            span: None,
                        },
                    );
                },
            },
        };
        let ghost prev = out@;
        out.push(sig);
        i += 1;
        proof {
            assert(out@.drop_last() =~= prev);
            assert(view_xdef_sigs(out@) == view_xdef_sigs(prev).push(out@.last()@));
        }
    }
    proof {
        assert(names.deep_view().take(names@.len() as int) =~= names.deep_view());
    }
    Ok(out)
}

/// Build the program matrix of a module: one row per (co)data declaration,
/// in source order.
pub fn as_matrix(decls: &Decls) -> (r: Result<Matrix, XfuncError>)
    ensures
        (match r {
            Ok(m) => Ok::<Seq<RowS>, XfuncErrorS>(m@),
            Err(e) => Err(e@),
        }) == as_matrix_s(decls@),
{
    let mut rows: Vec<Row> = Vec::new();
    proof {
        assert(decls@.take(0) =~= Seq::<DeclS>::empty());
        assert(view_rows(rows@) =~= Seq::<RowS>::empty());
    }
    let mut i: usize = 0;
    while i < decls.decls.len()
        invariant
            i <= decls@.len(),
            decls@.len() == decls.decls@.len(),
            rows_s(decls@, decls@.take(i as int)) == Ok::<Seq<RowS>, XfuncErrorS>(
                view_rows(rows@),
            ),
        decreases decls@.len() - i,
    {
        proof {
            assert(decls@.take(i + 1).drop_last() =~= decls@.take(i as int));
            assert(decls@.take(i + 1).last() == decls@[i as int]);
        }
        match &decls.decls[i] {
            crate::decls::Decl::Data(x) => {
                let xtors = match xtor_sigs(decls, &x.ctors) {
                    Ok(v) => v,
                    Err(e) => {
                        proof {
                            lemma_rows_err_extend(decls@, decls@, i + 1);
                        }
                        return Err(e);
                    },
                };
                let xdef_names = decls.xdefs_for_type(x.name.as_str());
                let xdefs = match xdef_sigs(decls, &xdef_names) {
                    Ok(v) => v,
                    Err(e) => {
                        proof {
                            lemma_rows_err_extend(decls@, decls@, i + 1);
                        }
                        return Err(e);
                    },
                };
                let ghost prev = rows@;
                rows.push(
                    Row {
                        span: x.span,
                        name: x.name.clone(),
                        hidden: x.hidden,
                        typ: x.typ,
                        repr: Repr::Data,
                        xtors,
                        xdefs,
                    },
                );
                proof {
                    assert(rows@.drop_last() =~= prev);
                    assert(view_rows(rows@) == view_rows(prev).push(rows@.last()@));
                }
            },
            crate::decls::Decl::Codata(x) => {
                let xtors = match xtor_sigs(decls, &x.dtors) {
                    Ok(v) => v,
                    Err(e) => {
                        proof {
                            lemma_rows_err_extend(decls@, decls@, i + 1);
                        }
                        return Err(e);
                    },
                };
                let xdef_names = decls.xdefs_for_type(x.name.as_str());
                let xdefs = match xdef_sigs(decls, &xdef_names) {
                    Ok(v) => v,
                    Err(e) => {
                        proof {
                            lemma_rows_err_extend(decls@, decls@, i + 1);
                        }
                        return Err(e);
                    },
                };
                let ghost prev = rows@;
                rows.push(
                    Row {
                        span: x.span,
                        name: x.name.clone(),
                        hidden: x.hidden,
                        typ: x.typ,
                        repr: Repr::Codata,
                        xtors,
                        xdefs,
                    },
                );
                proof {
                    assert(rows@.drop_last() =~= prev);
                    assert(view_rows(rows@) == view_rows(prev).push(rows@.last()@));
                }
            },
            _ => {},
        }
        i += 1;
    }
    proof {
        assert(decls@.take(decls@.len() as int) =~= decls@);
    }
    Ok(Matrix { rows })
}

impl Matrix {
    /// The position of the row bearing a type's name, if any.
    pub(crate) fn find_row(&self, name: &str) -> (r: Option<usize>)
        ensures
            (match r {
                Some(i) => i < self.rows@.len() && find_row_s(self@, name@) == Some(
                    self@[i as int],
                ),
                None => find_row_s(self@, name@) is None,
            }),
    {
        proof {
            lemma_view_rows(self.rows@);
        }
        let mut i: usize = 0;
        while i < self.rows.len()
            invariant
                i <= self.rows@.len(),
                self@.len() == self.rows@.len(),
                forall|j: int| 0 <= j < self.rows@.len() ==> self@[j] == self.rows@[j]@,
                forall|j: int| 0 <= j < i ==> (#[trigger] self@[j]).name != name@,
            decreases self.rows@.len() - i,
        {
            if str_eq(self.rows[i].name.as_str(), name) {
                proof {
                    lemma_find_row_skip(self@, name@, i as int);
                    assert(self@.skip(i as int)[0] == self@[i as int]);
                }
                return Some(i);
            }
            i += 1;
        }
        proof {
            lemma_find_row_skip(self@, name@, self@.len() as int);
            assert(self@.skip(self@.len() as int) =~= Seq::<RowS>::empty());
        }
        None
    }
}

/// What reading a type's representation from the matrix returns.
pub open spec fn repr_s(rs: Seq<RowS>, name: Seq<char>) -> Result<Repr, XfuncErrorS> {
    match find_row_s(rs, name) {
        Some(r) => Ok(r.repr),
        None => Err(XfuncErrorS::Impossible {
            message: "Could not resolve "@ + name,
            span: None,
        }),
    }
}

/// Whether a type is represented by constructors or by destructors.
pub fn repr(mat: &Matrix, typ_name: &str) -> (r: Result<Repr, XfuncError>)
    ensures
        (match r {
            Ok(x) => Ok::<Repr, XfuncErrorS>(x),
            Err(e) => Err(e@),
        }) == repr_s(mat@, typ_name@),
{
    proof {
        lemma_view_rows(mat.rows@);
    }
    match mat.find_row(typ_name) {
        Some(i) => Ok(mat.rows[i].repr),
        None => Err(
            XfuncError::Impossible { message: resolve_message(typ_name), span: None },
        ),
    }
}

} // verus!
