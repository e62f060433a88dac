use vstd::prelude::*;

use crate::ast;
use crate::decls::{CodataS, CodefS, CtorS, DataS, DeclS, Decl, Decls, DefS, DtorS};
use crate::matrix;
use crate::matrix::{
    as_matrix, as_matrix_s, cell_s, find_row_s, flip_cases_s, flip_row_s, flip_xdefs_s,
    flip_xtors_s, lemma_cell_skip, lemma_flip_cases_s, lemma_flip_xdefs_s, lemma_flip_xtors_s,
    lemma_view_rows, lemma_view_xdef_sigs, lemma_view_xtor_sigs, Matrix, Repr, Row, RowS, XdefSig,
    XdefSigS, XfuncError, XfuncErrorS, XtorSig, XtorSigS,
};
use crate::printer::{print_decls, print_decls_s};
use crate::span::Span;

verus! {

use crate::outside::str_eq;

/// One textual replacement against the module's source: the bytes in `span`
/// are replaced by `text`.
#[derive(Debug)]
pub struct Edit {
    pub span: Span,
    pub text: String,
}

/// Mathematical model of an edit.
pub struct EditS {
    pub span: Span,
    pub text: Seq<char>,
}

impl View for Edit {
    type V = EditS;

    open spec fn view(&self) -> EditS {
        EditS { span: self.span, text: self.text@ }
    }
}

pub open spec fn view_edits(v: Seq<Edit>) -> Seq<EditS>
    decreases v,
{
    if v.len() == 0 {
        Seq::empty()
    } else {
        view_edits(v.drop_last()).push(v.last()@)
    }
}

pub broadcast proof fn lemma_view_edits(v: Seq<Edit>)
    ensures
        (#[trigger] view_edits(v)).len() == v.len(),
        forall|i: int| 0 <= i < v.len() ==> view_edits(v)[i] == v[i]@,
    decreases v.len(),
{
    if v.len() > 0 {
        lemma_view_edits(v.drop_last());
    }
}

/// The result of xfunctionalizing a type: a title for the transformation and
/// the edit set that rewrites the module.
#[derive(Debug)]
pub struct Xfunc {
    pub title: String,
    pub edits: Vec<Edit>,
}

/// Mathematical model of an xfunctionalization result.
pub struct XfuncS {
    pub title: Seq<char>,
    pub edits: Seq<EditS>,
}

impl View for Xfunc {
    type V = XfuncS;

    open spec fn view(&self) -> XfuncS {
        XfuncS { title: self.title@, edits: view_edits(self.edits@) }
    }
}

/// The names of a list of xtor signatures, in order.
pub open spec fn xtor_names_s(xt: Seq<XtorSigS>) -> Seq<Seq<char>>
    decreases xt.len(),
{
    if xt.len() == 0 {
        Seq::empty()
    } else {
        xtor_names_s(xt.drop_last()).push(xt.last().name)
    }
}

/// The destructor declarations of a pivoted row.
pub open spec fn dtor_decls_s(xt: Seq<XtorSigS>, t: Seq<char>) -> Seq<DeclS>
    decreases xt.len(),
{
    if xt.len() == 0 {
        Seq::empty()
    } else {
        dtor_decls_s(xt.drop_last(), t).push(
            DeclS::Dtor(
                DtorS {
                    span: xt.last().span,
                    name: xt.last().name,
                    self_typ: t,
                    n_params: xt.last().n_params,
                },
            ),
        )
    }
}

/// The co-definition declarations of a pivoted row.
pub open spec fn codef_decls_s(xd: Seq<XdefSigS>, t: Seq<char>) -> Seq<DeclS>
    decreases xd.len(),
{
    if xd.len() == 0 {
        Seq::empty()
    } else {
        codef_decls_s(xd.drop_last(), t).push(
            DeclS::Codef(
                CodefS {
                    span: xd.last().span,
                    name: xd.last().name,
                    hidden: false,
                    typ_name: t,
                    n_params: xd.last().n_params,
                    body: ast::MatchS { span: None, cases: xd.last().cases, omit_absurd: false },
                },
            ),
        )
    }
}

/// The constructor declarations of a pivoted row.
pub open spec fn ctor_decls_s(xt: Seq<XtorSigS>) -> Seq<DeclS>
    decreases xt.len(),
{
    if xt.len() == 0 {
        Seq::empty()
    } else {
        ctor_decls_s(xt.drop_last()).push(
            DeclS::Ctor(
                CtorS { span: xt.last().span, name: xt.last().name, n_params: xt.last().n_params },
            ),
        )
    }
}

/// The definition declarations of a pivoted row.
pub open spec fn def_decls_s(xd: Seq<XdefSigS>, t: Seq<char>) -> Seq<DeclS>
    decreases xd.len(),
{
    if xd.len() == 0 {
        Seq::empty()
    } else {
        def_decls_s(xd.drop_last(), t).push(
            DeclS::Def(
                DefS {
                    span: xd.last().span,
                    name: xd.last().name,
                    hidden: false,
                    self_typ: t,
                    n_params: xd.last().n_params,
                    body: ast::MatchS { span: None, cases: xd.last().cases, omit_absurd: false },
                },
            ),
        )
    }
}

/// The declaration group a refunctionalized (pivoted) row serializes to: the
/// new codata type, its destructors, and one codef per former constructor.
pub open spec fn refunc_decls_s(r: RowS) -> Seq<DeclS> {
    seq![
        DeclS::Codata(
            CodataS {
                span: r.span,
                name: r.name,
                hidden: r.hidden,
                typ: r.typ,
                dtors: xtor_names_s(r.xtors),
            },
        ),
    ] + dtor_decls_s(r.xtors, r.name) + codef_decls_s(r.xdefs, r.name)
}

/// The declaration group a defunctionalized (pivoted) row serializes to: the
/// new data type, its constructors, and one def per former destructor.
pub open spec fn defunc_decls_s(r: RowS) -> Seq<DeclS> {
    seq![
        DeclS::Data(
            DataS {
                span: r.span,
                name: r.name,
                hidden: r.hidden,
                typ: r.typ,
                ctors: xtor_names_s(r.xtors),
            },
        ),
    ] + ctor_decls_s(r.xtors) + def_decls_s(r.xdefs, r.name)
}

/// The deletion edits of the absorbed xdefs; an xdef without a span cannot be
/// deleted from the source.
pub open spec fn del_edits_s(xd: Seq<XdefSigS>) -> Result<Seq<EditS>, XfuncErrorS>
    decreases xd.len(),
{
    if xd.len() == 0 {
        Ok(Seq::empty())
    } else {
        match del_edits_s(xd.drop_last()) {
            Err(e) => Err(e),
            Ok(es) => match xd.last().span {
                None => Err(XfuncErrorS::Impossible {
                    message: "declaration without a span"@,
                    span: None,
                }),
                Some(s) => Ok(es.push(EditS { span: s, text: ""@ })),
            },
        }
    }
}

/// No two edits touch a common byte.
pub open spec fn pairwise_disjoint_edits(es: Seq<EditS>) -> bool {
    forall|i: int, j: int|
        0 <= i < j < es.len() ==> (#[trigger] es[i]).span.disjoint((#[trigger] es[j]).span)
}

/// What xfunctionalizing the type `t` of a module returns: the matrix row of
/// `t` is pivoted, serialized over the span of the original type declaration,
/// and every absorbed xdef is deleted; a title names the direction.  An edit
/// set that would overlap is refused.
pub open spec fn xfunc_s(ds: Seq<DeclS>, t: Seq<char>) -> Result<XfuncS, XfuncErrorS> {
    match as_matrix_s(ds) {
        Err(e) => Err(e),
        Ok(rs) => match find_row_s(rs, t) {
            None => Err(XfuncErrorS::Impossible { message: "Could not resolve "@ + t, span: None }),
            Some(row) => match row.span {
                None => Err(XfuncErrorS::Impossible {
                    message: "Could not resolve "@ + t,
                    span: None,
                }),
                Some(tspan) => {
                    let fr = flip_row_s(row);
                    let title = (match row.repr {
                        Repr::Data => "Refunctionalize "@,
                        Repr::Codata => "Defunctionalize "@,
                    }) + t;
                    let text = print_decls_s(
                        match row.repr {
                            Repr::Data => refunc_decls_s(fr),
                            Repr::Codata => defunc_decls_s(fr),
                        },
                    );
                    match del_edits_s(row.xdefs) {
                        Err(e) => Err(e),
                        Ok(dels) => {
                            let edits = seq![EditS { span: tspan, text }] + dels;
                            if pairwise_disjoint_edits(edits) {
                                Ok(XfuncS { title, edits })
                            } else {
                                Err(XfuncErrorS::Impossible {
                                    message: "overlapping edits"@,
                                    span: None,
                                })
                            }
                        },
                    }
                },
            },
        },
    }
}

/// Edit non-overlap: whenever xfunctionalization succeeds, its edits are
/// pairwise disjoint, so the caller may apply them in descending start order
/// without one edit touching another's range.
pub proof fn lemma_edit_non_overlap(ds: Seq<DeclS>, t: Seq<char>)
    ensures
        (match xfunc_s(ds, t) {
            Ok(x) => pairwise_disjoint_edits(x.edits),
            Err(_) => true,
        }),
{
}

} // verus!

verus! {

/// The position of the first case bearing `name`, if any.
fn cell(cases: &Vec<ast::Case>, name: &str) -> (r: Option<usize>)
    ensures
        (match r {
            Some(i) => i < cases@.len() && cell_s(ast::view_cases(cases@), name@) == Some(
                ast::view_cases(cases@)[i as int],
            ),
            None => cell_s(ast::view_cases(cases@), name@) is None,
        }),
{
    proof {
        ast::lemma_view_cases(cases@);
    }
    let ghost cs = ast::view_cases(cases@);
    let mut i: usize = 0;
    while i < cases.len()
        invariant
            i <= cases@.len(),
            cs == ast::view_cases(cases@),
            cs.len() == cases@.len(),
            forall|j: int| 0 <= j < cases@.len() ==> cs[j] == ast::view_case(cases@[j]),
            forall|j: int| 0 <= j < i ==> (#[trigger] cs[j]).name != name@,
        decreases cases@.len() - i,
    {
        if str_eq(cases[i].name.as_str(), name) {
            proof {
                lemma_cell_skip(cs, name@, i as int);
                assert(cs.skip(i as int)[0] == cs[i as int]);
            }
            return Some(i);
        }
        i += 1;
    }
    proof {
        lemma_cell_skip(cs, name@, cs.len() as int);
        assert(cs.skip(cs.len() as int) =~= Seq::<ast::CaseS>::empty());
    }
    None
}

/// Clone a case body.
fn clone_case_body(b: &Option<Box<ast::Exp>>) -> (r: Option<Box<ast::Exp>>)
    ensures
        (match r {
            Some(e) => (match b {
                Some(e0) => ast::view_exp(*e) == ast::view_exp(**e0),
                None => false,
            }),
            None => b is None,
        }),
{
    match b {
        Some(e) => Some(Box::new((**e).clone())),
        None => None,
    }
}

/// Pivot one matrix row: swap its xtors and xdefs and transpose the cells.
fn flip_row(row: &Row) -> (r: Row)
    ensures
        r@ == flip_row_s(row@),
{
    proof {
        lemma_view_xtor_sigs(row.xtors@);
        lemma_view_xdef_sigs(row.xdefs@);
    }
    // the xdefs become the xtors
    let mut xtors: Vec<XtorSig> = Vec::new();
    proof {
        assert(matrix::view_xtor_sigs(xtors@) =~= flip_xtors_s(
            matrix::view_xdef_sigs(row.xdefs@).take(0),
        ));
    }
    let mut i: usize = 0;
    while i < row.xdefs.len()
        invariant
            i <= row.xdefs@.len(),
            matrix::view_xdef_sigs(row.xdefs@).len() == row.xdefs@.len(),
            forall|j: int| 0 <= j < row.xdefs@.len() ==> matrix::view_xdef_sigs(row.xdefs@)[j]
                == row.xdefs@[j]@,
            matrix::view_xtor_sigs(xtors@) == flip_xtors_s(
                matrix::view_xdef_sigs(row.xdefs@).take(i as int),
            ),
        decreases row.xdefs@.len() - i,
    {
        let d = &row.xdefs[i];
        let ghost prev = xtors@;
        xtors.push(XtorSig { span: d.span, name: d.name.clone(), n_params: d.n_params });
        i += 1;
        proof {
            let xs = matrix::view_xdef_sigs(row.xdefs@);
            assert(xs.take(i as int).drop_last() =~= xs.take(i - 1));
            assert(xs.take(i as int).last() == xs[i - 1]);
            assert(xtors@.drop_last() =~= prev);
            assert(matrix::view_xtor_sigs(xtors@) == matrix::view_xtor_sigs(prev).push(
                xtors@.last()@,
            ));
        }
    }
    proof {
        let xs = matrix::view_xdef_sigs(row.xdefs@);
        assert(xs.take(xs.len() as int) =~= xs);
    }
    // the xtors become the xdefs, with transposed cells
    let mut xdefs: Vec<XdefSig> = Vec::new();
    proof {
        assert(matrix::view_xdef_sigs(xdefs@) =~= flip_xdefs_s(
            matrix::view_xtor_sigs(row.xtors@).take(0),
            matrix::view_xdef_sigs(row.xdefs@),
        ));
    }
    let mut i: usize = 0;
    while i < row.xtors.len()
        invariant
            i <= row.xtors@.len(),
            matrix::view_xtor_sigs(row.xtors@).len() == row.xtors@.len(),
            forall|j: int| 0 <= j < row.xtors@.len() ==> matrix::view_xtor_sigs(row.xtors@)[j]
                == row.xtors@[j]@,
            matrix::view_xdef_sigs(row.xdefs@).len() == row.xdefs@.len(),
            forall|j: int| 0 <= j < row.xdefs@.len() ==> matrix::view_xdef_sigs(row.xdefs@)[j]
                == row.xdefs@[j]@,
            matrix::view_xdef_sigs(xdefs@) == flip_xdefs_s(
                matrix::view_xtor_sigs(row.xtors@).take(i as int),
                matrix::view_xdef_sigs(row.xdefs@),
            ),
        decreases row.xtors@.len() - i,
    {
        let c = &row.xtors[i];
        // one transposed case per xdef
        let mut cases: Vec<ast::Case> = Vec::new();
        proof {
            assert(ast::view_cases(cases@) =~= flip_cases_s(
                matrix::view_xdef_sigs(row.xdefs@).take(0),
                c.name@,
            ));
        }
        let mut j: usize = 0;
        while j < row.xdefs.len()
            invariant
                j <= row.xdefs@.len(),
                matrix::view_xdef_sigs(row.xdefs@).len() == row.xdefs@.len(),
                forall|k: int| 0 <= k < row.xdefs@.len() ==> matrix::view_xdef_sigs(row.xdefs@)[k]
                    == row.xdefs@[k]@,
                ast::view_cases(cases@) == flip_cases_s(
                    matrix::view_xdef_sigs(row.xdefs@).take(j as int),
                    c.name@,
                ),
            decreases row.xdefs@.len() - j,
        {
            let d = &row.xdefs[j];
            let new_case = match cell(&d.cases, c.name.as_str()) {
                Some(k) => ast::Case {
                    span: d.cases[k].span,
                    name: d.name.clone(),
                    n_params: d.n_params,
                    body: clone_case_body(&d.cases[k].body),
                },
                None => ast::Case {
                    span: None,
                    name: d.name.clone(),
                    n_params: d.n_params,
                    body: None,
                },
            };
            let ghost prev = cases@;
            cases.push(new_case);
            j += 1;
            proof {
                ast::lemma_view_cases(d.cases@);
                let xs = matrix::view_xdef_sigs(row.xdefs@);
                assert(xs.take(j as int).drop_last() =~= xs.take(j - 1));
                assert(xs.take(j as int).last() == xs[j - 1]);
                assert(cases@.drop_last() =~= prev);
                assert(ast::view_cases(cases@) == ast::view_cases(prev).push(
                    ast::view_case(cases@.last()),
                ));
                assert(ast::view_case(cases@.last()) == matrix::flip_case_s(
                    row.xdefs@[j - 1]@,
                    c.name@,
                ));
            }
        }
        proof {
            let xs = matrix::view_xdef_sigs(row.xdefs@);
            assert(xs.take(xs.len() as int) =~= xs);
        }
        let ghost prev = xdefs@;
        xdefs.push(
            XdefSig { span: c.span, name: c.name.clone(), n_params: c.n_params, cases },
        );
        i += 1;
        proof {
            let xt = matrix::view_xtor_sigs(row.xtors@);
            assert(xt.take(i as int).drop_last() =~= xt.take(i - 1));
            assert(xt.take(i as int).last() == xt[i - 1]);
            assert(xdefs@.drop_last() =~= prev);
            assert(matrix::view_xdef_sigs(xdefs@) == matrix::view_xdef_sigs(prev).push(
                xdefs@.last()@,
            ));
            assert(xdefs@.last()@ == matrix::xdef_of_xtor_s(
                row.xtors@[i - 1]@,
                matrix::view_xdef_sigs(row.xdefs@),
            ));
        }
    }
    proof {
        let xt = matrix::view_xtor_sigs(row.xtors@);
        assert(xt.take(xt.len() as int) =~= xt);
    }
    Row {
        span: row.span,
        name: row.name.clone(),
        hidden: row.hidden,
        typ: row.typ,
        repr: match row.repr {
            Repr::Data => Repr::Codata,
            Repr::Codata => Repr::Data,
        },
        xtors,
        xdefs,
    }
}

/// Serialize a pivoted row as a codata group: the type, its destructors, and
/// its co-definitions.
fn refunc_decls(fr: &Row) -> (r: Vec<Decl>)
    ensures
        r.deep_view() == refunc_decls_s(fr@),
{
    proof {
        lemma_view_xtor_sigs(fr.xtors@);
        lemma_view_xdef_sigs(fr.xdefs@);
    }
    let mut out: Vec<Decl> = Vec::new();
    let mut dtor_names: Vec<String> = Vec::new();
    proof {
        assert(dtor_names.deep_view() =~= xtor_names_s(
            matrix::view_xtor_sigs(fr.xtors@).take(0),
        ));
    }
    let mut i: usize = 0;
    while i < fr.xtors.len()
        invariant
            i <= fr.xtors@.len(),
            matrix::view_xtor_sigs(fr.xtors@).len() == fr.xtors@.len(),
            forall|j: int| 0 <= j < fr.xtors@.len() ==> matrix::view_xtor_sigs(fr.xtors@)[j]
                == fr.xtors@[j]@,
            dtor_names.deep_view() == xtor_names_s(
                matrix::view_xtor_sigs(fr.xtors@).take(i as int),
            ),
        decreases fr.xtors@.len() - i,
    {
        let ghost prev = dtor_names@;
        dtor_names.push(fr.xtors[i].name.clone());
        i += 1;
        proof {
            let xt = matrix::view_xtor_sigs(fr.xtors@);
            assert(xt.take(i as int).drop_last() =~= xt.take(i - 1));
            assert(xt.take(i as int).last() == xt[i - 1]);
            assert(dtor_names@.drop_last() =~= prev);
            assert(dtor_names.deep_view() =~= xtor_names_s(xt.take(i as int)));
        }
    }
    proof {
        let xt = matrix::view_xtor_sigs(fr.xtors@);
        assert(xt.take(xt.len() as int) =~= xt);
    }
    out.push(
        Decl::Codata(
            crate::decls::Codata {
                span: fr.span,
                name: fr.name.clone(),
                hidden: fr.hidden,
                typ: fr.typ,
                dtors: dtor_names,
            },
        ),
    );
    let ghost head = out.deep_view();
    let mut i: usize = 0;
    while i < fr.xtors.len()
        invariant
            i <= fr.xtors@.len(),
            matrix::view_xtor_sigs(fr.xtors@).len() == fr.xtors@.len(),
            forall|j: int| 0 <= j < fr.xtors@.len() ==> matrix::view_xtor_sigs(fr.xtors@)[j]
                == fr.xtors@[j]@,
            out.deep_view() == head + dtor_decls_s(
                matrix::view_xtor_sigs(fr.xtors@).take(i as int),
                fr.name@,
            ),
        decreases fr.xtors@.len() - i,
    {
        let c = &fr.xtors[i];
        let ghost prev = out@;
        let ghost prevdeep = out.deep_view();
        out.push(
            Decl::Dtor(
                crate::decls::Dtor {
                    span: c.span,
                    name: c.name.clone(),
                    self_typ: fr.name.clone(),
                    n_params: c.n_params,
                },
            ),
        );
        i += 1;
        proof {
            let xt = matrix::view_xtor_sigs(fr.xtors@);
            assert(xt.take(i as int).drop_last() =~= xt.take(i - 1));
            assert(xt.take(i as int).last() == xt[i - 1]);
            assert(out@.drop_last() =~= prev);
            assert(out.deep_view() =~= prevdeep.push(out@.last().deep_view()));
            assert(out.deep_view() =~= head + dtor_decls_s(xt.take(i as int), fr.name@));
        }
    }
    proof {
        let xt = matrix::view_xtor_sigs(fr.xtors@);
        assert(xt.take(xt.len() as int) =~= xt);
    }
    let ghost head2 = out.deep_view();
    let mut i: usize = 0;
    while i < fr.xdefs.len()
        invariant
            i <= fr.xdefs@.len(),
            matrix::view_xdef_sigs(fr.xdefs@).len() == fr.xdefs@.len(),
            forall|j: int| 0 <= j < fr.xdefs@.len() ==> matrix::view_xdef_sigs(fr.xdefs@)[j]
                == fr.xdefs@[j]@,
            out.deep_view() == head2 + codef_decls_s(
                matrix::view_xdef_sigs(fr.xdefs@).take(i as int),
                fr.name@,
            ),
        decreases fr.xdefs@.len() - i,
    {
        let d = &fr.xdefs[i];
        let mut body_cases: Vec<ast::Case> = Vec::new();
        let mut j: usize = 0;
        proof {
            ast::lemma_view_cases(d.cases@);
            assert(ast::view_cases(body_cases@) =~= ast::view_cases(d.cases@).take(0));
        }
        while j < d.cases.len()
            invariant
                j <= d.cases@.len(),
                ast::view_cases(d.cases@).len() == d.cases@.len(),
                forall|k: int| 0 <= k < d.cases@.len() ==> ast::view_cases(d.cases@)[k]
                    == ast::view_case(d.cases@[k]),
                ast::view_cases(body_cases@) == ast::view_cases(d.cases@).take(j as int),
            decreases d.cases@.len() - j,
        {
            let ghost prev = body_cases@;
            body_cases.push(d.cases[j].clone());
            j += 1;
            proof {
                let cs = ast::view_cases(d.cases@);
                assert(cs.take(j as int).drop_last() =~= cs.take(j - 1));
                assert(cs.take(j as int).last() == cs[j - 1]);
                assert(body_cases@.drop_last() =~= prev);
                assert(ast::view_cases(body_cases@) == ast::view_cases(prev).push(
                    ast::view_case(body_cases@.last()),
                ));
            }
        }
        proof {
            let cs = ast::view_cases(d.cases@);
            assert(cs.take(cs.len() as int) =~= cs);
        }
        let ghost prev = out@;
        let ghost prevdeep = out.deep_view();
        out.push(
            Decl::Codef(
                crate::decls::Codef {
                    span: d.span,
                    name: d.name.clone(),
                    hidden: false,
                    typ_name: fr.name.clone(),
                    n_params: d.n_params,
                    body: ast::Match { span: None, cases: body_cases, omit_absurd: false },
                },
            ),
        );
        i += 1;
        proof {
            let xs = matrix::view_xdef_sigs(fr.xdefs@);
            assert(xs.take(i as int).drop_last() =~= xs.take(i - 1));
            assert(xs.take(i as int).last() == xs[i - 1]);
            assert(out@.drop_last() =~= prev);
            assert(out.deep_view() =~= prevdeep.push(out@.last().deep_view()));
            assert(out.deep_view() =~= head2 + codef_decls_s(xs.take(i as int), fr.name@));
        }
    }
    proof {
        let xs = matrix::view_xdef_sigs(fr.xdefs@);
        assert(xs.take(xs.len() as int) =~= xs);
        assert(out.deep_view() =~= refunc_decls_s(fr@));
    }
    out
}

} // verus!

verus! {

/// Serialize a pivoted row as a data group: the type, its constructors, and
/// its definitions.
fn defunc_decls(fr: &Row) -> (r: Vec<Decl>)
    ensures
        r.deep_view() == defunc_decls_s(fr@),
{
    proof {
        lemma_view_xtor_sigs(fr.xtors@);
        lemma_view_xdef_sigs(fr.xdefs@);
    }
    let mut out: Vec<Decl> = Vec::new();
    let mut ctor_names: Vec<String> = Vec::new();
    proof {
        assert(ctor_names.deep_view() =~= xtor_names_s(
            matrix::view_xtor_sigs(fr.xtors@).take(0),
        ));
    }
    let mut i: usize = 0;
    while i < fr.xtors.len()
        invariant
            i <= fr.xtors@.len(),
            matrix::view_xtor_sigs(fr.xtors@).len() == fr.xtors@.len(),
            forall|j: int| 0 <= j < fr.xtors@.len() ==> matrix::view_xtor_sigs(fr.xtors@)[j]
                == fr.xtors@[j]@,
            ctor_names.deep_view() == xtor_names_s(
                matrix::view_xtor_sigs(fr.xtors@).take(i as int),
            ),
        decreases fr.xtors@.len() - i,
    {
        let ghost prev = ctor_names@;
        ctor_names.push(fr.xtors[i].name.clone());
        i += 1;
        proof {
            let xt = matrix::view_xtor_sigs(fr.xtors@);
            assert(xt.take(i as int).drop_last() =~= xt.take(i - 1));
            assert(xt.take(i as int).last() == xt[i - 1]);
            assert(ctor_names@.drop_last() =~= prev);
            assert(ctor_names.deep_view() =~= xtor_names_s(xt.take(i as int)));
        }
    }
    proof {
        let xt = matrix::view_xtor_sigs(fr.xtors@);
        assert(xt.take(xt.len() as int) =~= xt);
    }
    out.push(
        Decl::Data(
            crate::decls::Data {
                span: fr.span,
                name: fr.name.clone(),
                hidden: fr.hidden,
                typ: fr.typ,
                ctors: ctor_names,
            },
        ),
    );
    let ghost head = out.deep_view();
    let mut i: usize = 0;
    while i < fr.xtors.len()
        invariant
            i <= fr.xtors@.len(),
            matrix::view_xtor_sigs(fr.xtors@).len() == fr.xtors@.len(),
            forall|j: int| 0 <= j < fr.xtors@.len() ==> matrix::view_xtor_sigs(fr.xtors@)[j]
                == fr.xtors@[j]@,
            out.deep_view() == head + ctor_decls_s(
                matrix::view_xtor_sigs(fr.xtors@).take(i as int),
            ),
        decreases fr.xtors@.len() - i,
    {
        let c = &fr.xtors[i];
        let ghost prev = out@;
        let ghost prevdeep = out.deep_view();
        out.push(
            Decl::Ctor(
                crate::decls::Ctor { span: c.span, name: c.name.clone(), n_params: c.n_params },
            ),
        );
        i += 1;
        proof {
            let xt = matrix::view_xtor_sigs(fr.xtors@);
            assert(xt.take(i as int).drop_last() =~= xt.take(i - 1));
            assert(xt.take(i as int).last() == xt[i - 1]);
            assert(out@.drop_last() =~= prev);
            assert(out.deep_view() =~= prevdeep.push(out@.last().deep_view()));
            assert(out.deep_view() =~= head + ctor_decls_s(xt.take(i as int)));
        }
    }
    proof {
        let xt = matrix::view_xtor_sigs(fr.xtors@);
        assert(xt.take(xt.len() as int) =~= xt);
    }
    let ghost head2 = out.deep_view();
    let mut i: usize = 0;
    while i < fr.xdefs.len()
        invariant
            i <= fr.xdefs@.len(),
            matrix::view_xdef_sigs(fr.xdefs@).len() == fr.xdefs@.len(),
            forall|j: int| 0 <= j < fr.xdefs@.len() ==> matrix::view_xdef_sigs(fr.xdefs@)[j]
                == fr.xdefs@[j]@,
            out.deep_view() == head2 + def_decls_s(
                matrix::view_xdef_sigs(fr.xdefs@).take(i as int),
                fr.name@,
            ),
        decreases fr.xdefs@.len() - i,
    {
        let d = &fr.xdefs[i];
        let mut body_cases: Vec<ast::Case> = Vec::new();
        let mut j: usize = 0;
        proof {
            ast::lemma_view_cases(d.cases@);
            assert(ast::view_cases(body_cases@) =~= ast::view_cases(d.cases@).take(0));
        }
        while j < d.cases.len()
            invariant
                j <= d.cases@.len(),
                ast::view_cases(d.cases@).len() == d.cases@.len(),
                forall|k: int| 0 <= k < d.cases@.len() ==> ast::view_cases(d.cases@)[k]
                    == ast::view_case(d.cases@[k]),
                ast::view_cases(body_cases@) == ast::view_cases(d.cases@).take(j as int),
            decreases d.cases@.len() - j,
        {
            let ghost prev = body_cases@;
            body_cases.push(d.cases[j].clone());
            j += 1;
            proof {
                let cs = ast::view_cases(d.cases@);
                assert(cs.take(j as int).drop_last() =~= cs.take(j - 1));
                assert(cs.take(j as int).last() == cs[j - 1]);
                assert(body_cases@.drop_last() =~= prev);
                assert(ast::view_cases(body_cases@) == ast::view_cases(prev).push(
                    ast::view_case(body_cases@.last()),
                ));
            }
        }
        proof {
            let cs = ast::view_cases(d.cases@);
            assert(cs.take(cs.len() as int) =~= cs);
        }
        let ghost prev = out@;
        let ghost prevdeep = out.deep_view();
        out.push(
            Decl::Def(
                crate::decls::Def {
                    span: d.span,
                    name: d.name.clone(),
                    hidden: false,
                    self_typ: fr.name.clone(),
                    n_params: d.n_params,
                    body: ast::Match { span: None, cases: body_cases, omit_absurd: false },
                },
            ),
        );
        i += 1;
        proof {
            let xs = matrix::view_xdef_sigs(fr.xdefs@);
            assert(xs.take(i as int).drop_last() =~= xs.take(i - 1));
            assert(xs.take(i as int).last() == xs[i - 1]);
            assert(out@.drop_last() =~= prev);
            assert(out.deep_view() =~= prevdeep.push(out@.last().deep_view()));
            assert(out.deep_view() =~= head2 + def_decls_s(xs.take(i as int), fr.name@));
        }
    }
    proof {
        let xs = matrix::view_xdef_sigs(fr.xdefs@);
        assert(xs.take(xs.len() as int) =~= xs);
        assert(out.deep_view() =~= defunc_decls_s(fr@));
    }
    out
}

/// The deletion edits of the absorbed xdefs.
fn del_edits(xdefs: &Vec<XdefSig>) -> (r: Result<Vec<Edit>, XfuncError>)
    ensures
        (match r {
            Ok(es) => Ok::<Seq<EditS>, XfuncErrorS>(view_edits(es@)),
            Err(e) => Err(e@),
        }) == del_edits_s(matrix::view_xdef_sigs(xdefs@)),
{
    proof {
        lemma_view_xdef_sigs(xdefs@);
    }
    let mut out: Vec<Edit> = Vec::new();
    proof {
        assert(matrix::view_xdef_sigs(xdefs@).take(0) =~= Seq::<XdefSigS>::empty());
        assert(view_edits(out@) =~= Seq::<EditS>::empty());
    }
    let mut i: usize = 0;
    while i < xdefs.len()
        invariant
            i <= xdefs@.len(),
            matrix::view_xdef_sigs(xdefs@).len() == xdefs@.len(),
            forall|j: int| 0 <= j < xdefs@.len() ==> matrix::view_xdef_sigs(xdefs@)[j]
                == xdefs@[j]@,
            del_edits_s(matrix::view_xdef_sigs(xdefs@).take(i as int)) == Ok::<
                Seq<EditS>,
                XfuncErrorS,
            >(view_edits(out@)),
        decreases xdefs@.len() - i,
    {
        let ghost xs = matrix::view_xdef_sigs(xdefs@);
        proof {
            assert(xs.take(i + 1).drop_last() =~= xs.take(i as int));
            assert(xs.take(i + 1).last() == xs[i as int]);
        }
        match xdefs[i].span {
            None => {
                proof {
                    lemma_del_edits_err_extend(xs, i + 1);
                }
                return Err(
                    XfuncError::Impossible {
                        message: "declaration without a span".to_owned(),
                        span: None,
                    },
                );
            },
            Some(s) => {
                let ghost prev = out@;
                proof {
                    reveal_strlit("");
                    assert(""@ =~= Seq::<char>::empty());
                }
                out.push(Edit { span: s, text: String::new() });
                i += 1;
                proof {
                    assert(out@.drop_last() =~= prev);
                    assert(view_edits(out@) == view_edits(prev).push(out@.last()@));
                }
            },
        }
    }
    proof {
        let xs = matrix::view_xdef_sigs(xdefs@);
        assert(xs.take(xs.len() as int) =~= xs);
    }
    Ok(out)
}

/// Once a prefix of the xdefs lacks a span, the whole deletion set fails the
/// same way.
proof fn lemma_del_edits_err_extend(xd: Seq<XdefSigS>, j: int)
    requires
        0 <= j <= xd.len(),
        del_edits_s(xd.take(j)) is Err,
    ensures
        del_edits_s(xd) == del_edits_s(xd.take(j)),
    decreases xd.len() - j,
{
    if j < xd.len() {
        assert(xd.take(j + 1).drop_last() =~= xd.take(j));
        lemma_del_edits_err_extend(xd, j + 1);
    } else {
        assert(xd.take(j) =~= xd);
    }
}

/// Whether the edits are pairwise disjoint.
fn edits_disjoint(es: &Vec<Edit>) -> (b: bool)
    ensures
        b == pairwise_disjoint_edits(view_edits(es@)),
{
    proof {
        lemma_view_edits(es@);
    }
    let ghost vs = view_edits(es@);
    let mut i: usize = 0;
    while i < es.len()
        invariant
            i <= es@.len(),
            vs == view_edits(es@),
            vs.len() == es@.len(),
            forall|j: int| 0 <= j < es@.len() ==> vs[j] == es@[j]@,
            forall|a: int, b0: int| 0 <= a < b0 < es@.len() && a < i ==> (#[trigger] vs[a]).span.disjoint(
                (#[trigger] vs[b0]).span,
            ),
        decreases es@.len() - i,
    {
        let mut j: usize = i + 1;
        while j < es.len()
            invariant
                i < j <= es@.len() || (i + 1 == j && j >= es@.len()),
                i < es@.len(),
                vs == view_edits(es@),
                vs.len() == es@.len(),
                forall|k: int| 0 <= k < es@.len() ==> vs[k] == es@[k]@,
                forall|b0: int| i < b0 < j ==> (#[trigger] vs[b0]).span.disjoint(vs[i as int].span)
                    || vs[i as int].span.disjoint(vs[b0].span),
                forall|b0: int| i < b0 < j ==> (vs[i as int].span.disjoint(#[trigger] (vs[b0].span))),
            decreases es@.len() - j,
        {
            let a = &es[i].span;
            let b = &es[j].span;
            if !(a.end <= b.start || b.end <= a.start) {
                proof {
                    assert(!vs[i as int].span.disjoint(vs[j as int].span));
                }
                return false;
            }
            j += 1;
        }
        i += 1;
    }
    true
}

/// A single text: the printed declaration group of the pivot.
fn pivot_text(row: &Row) -> (r: String)
    ensures
        r@ == print_decls_s(
            match row@.repr {
                Repr::Data => refunc_decls_s(flip_row_s(row@)),
                Repr::Codata => defunc_decls_s(flip_row_s(row@)),
            },
        ),
{
    let fr = flip_row(row);
    match row.repr {
        Repr::Data => {
            let ds = refunc_decls(&fr);
            print_decls(&ds)
        },
        Repr::Codata => {
            let ds = defunc_decls(&fr);
            print_decls(&ds)
        },
    }
}

/// Xfunctionalize the type `typ_name` of a module: pivot its matrix row and
/// produce the title and the edit set that rewrite the source.  The edits
/// never overlap.
pub fn xfunc(decls: &Decls, typ_name: &str) -> (r: Result<Xfunc, XfuncError>)
    ensures
        (match r {
            Ok(x) => Ok::<XfuncS, XfuncErrorS>(x@),
            Err(e) => Err(e@),
        }) == xfunc_s(decls@, typ_name@),
        (r matches Ok(x) ==> pairwise_disjoint_edits(view_edits(x.edits@))),
{
    let mat = match as_matrix(decls) {
        Ok(m) => m,
        Err(e) => {
            return Err(e);
        },
    };
    proof {
        lemma_view_rows(mat.rows@);
    }
    let i = match mat.find_row(typ_name) {
        Some(i) => i,
        None => {
            let mut message = "Could not resolve ".to_owned();
            message.append(typ_name);
            return Err(XfuncError::Impossible { message, span: None });
        },
    };
    let row = &mat.rows[i];
    let tspan = match row.span {
        Some(s) => s,
        None => {
            let mut message = "Could not resolve ".to_owned();
            message.append(typ_name);
            return Err(XfuncError::Impossible { message, span: None });
        },
    };
    let text = pivot_text(row);
    let mut title = match row.repr {
        Repr::Data => "Refunctionalize ".to_owned(),
        Repr::Codata => "Defunctionalize ".to_owned(),
    };
    title.append(typ_name);
    let dels = match del_edits(&row.xdefs) {
        Ok(es) => es,
        Err(e) => {
            return Err(e);
        },
    };
    let mut edits: Vec<Edit> = Vec::new();
    edits.push(Edit { span: tspan, text });
    proof {
        lemma_view_edits(edits@);
        assert(view_edits(edits@) =~= seq![edits@[0]@]);
    }
    let ghost first = view_edits(edits@);
    let ghost delvs = view_edits(dels@);
    let mut k: usize = 0;
    proof {
        lemma_view_edits(dels@);
        assert(view_edits(edits@) =~= first + delvs.take(0));
    }
    while k < dels.len()
        invariant
            k <= dels@.len(),
            delvs == view_edits(dels@),
            delvs.len() == dels@.len(),
            forall|j: int| 0 <= j < dels@.len() ==> delvs[j] == dels@[j]@,
            view_edits(edits@) == first + delvs.take(k as int),
        decreases dels@.len() - k,
    {
        let ghost prev = edits@;
        edits.push(dels[k].clone_edit());
        k += 1;
        proof {
            assert(delvs.take(k as int).drop_last() =~= delvs.take(k - 1));
            assert(delvs.take(k as int).last() == delvs[k - 1]);
            assert(edits@.drop_last() =~= prev);
            assert(view_edits(edits@) == view_edits(prev).push(edits@.last()@));
            assert(view_edits(edits@) =~= first + delvs.take(k as int));
        }
    }
    proof {
        assert(delvs.take(delvs.len() as int) =~= delvs);
        assert(view_edits(edits@) =~= seq![EditS { span: tspan, text: text@ }] + delvs);
    }
    if edits_disjoint(&edits) {
        Ok(Xfunc { title, edits })
    } else {
        Err(XfuncError::Impossible { message: "overlapping edits".to_owned(), span: None })
    }
}

impl Edit {
    /// Copy an edit.
    fn clone_edit(&self) -> (r: Edit)
        ensures
            r@ == self@,
    {
        Edit { span: self.span, text: self.text.clone() }
    }
}

} // verus!
