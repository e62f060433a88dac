use vstd::prelude::*;

use crate::info::Info;

verus! {

/// A term in normal form: fully evaluated, with binders quoted back.
#[derive(Debug)]
pub enum Nf {
    TypCtor { info: Info, name: String, args: Vec<Nf> },
    Ctor { info: Info, name: String, args: Vec<Nf> },
    Type { info: Info },
    Comatch { info: Info, name: String, body: Comatch },
    Neu { exp: Neu },
}

/// A neutral normal form: blocked on a variable.
#[derive(Debug)]
pub enum Neu {
    Var { info: Info, name: String, idx: usize },
    Dtor { info: Info, exp: Box<Neu>, name: String, args: Vec<Nf> },
    Match { info: Info, name: String, on_exp: Box<Neu>, body: Match },
}

/// A match body in normal form.
#[derive(Debug)]
pub struct Match {
    pub info: Info,
    pub cases: Vec<Case>,
}

/// A comatch body in normal form.
#[derive(Debug)]
pub struct Comatch {
    pub info: Info,
    pub cases: Vec<Cocase>,
}

/// A case in normal form; its body lives under `n_args` binders.
#[derive(Debug)]
pub struct Case {
    pub info: Info,
    pub name: String,
    pub n_args: usize,
    pub body: Box<Nf>,
}

/// A cocase in normal form; its body lives under `n_args` binders.
#[derive(Debug)]
pub struct Cocase {
    pub info: Info,
    pub name: String,
    pub n_args: usize,
    pub body: Box<Nf>,
}

/// The range of de Bruijn indices that a shift affects: the half-open
/// interval from `lo` up to `hi`, or everything from `lo` when `hi` is
/// `None`.
#[derive(Clone, Copy, PartialEq, Eq, Structural, Debug)]
pub struct ShiftRange {
    pub lo: usize,
    pub hi: Option<usize>,
}

impl ShiftRange {
    /// Whether the index lies in the range.
    pub open spec fn has(self, idx: usize) -> bool {
        self.lo <= idx && (match self.hi {
            Some(h) => idx < h,
            None => true,
        })
    }

    /// Whether the bounds can move up by `n` without overflowing.
    pub open spec fn can_shift(self, n: usize) -> bool {
        self.lo + n <= usize::MAX && (match self.hi {
            Some(h) => h + n <= usize::MAX,
            None => true,
        })
    }

    /// Move the range up by `n`, as happens under `n` fresh binders.
    pub fn shift(self, n: usize) -> (r: ShiftRange)
        requires
            self.can_shift(n),
        ensures
            r == self.shift_s(n),
    {
        ShiftRange {
            lo: self.lo + n,
            hi: match self.hi {
                Some(h) => Some(h + n),
                None => None,
            },
        }
    }

    /// The range moved up by `n`.
    pub open spec fn shift_s(self, n: usize) -> ShiftRange {
        ShiftRange {
            lo: (self.lo + n) as usize,
            hi: match self.hi {
                Some(h) => Some((h + n) as usize),
                None => None,
            },
        }
    }

    /// Whether the index is in range and lands inside `usize` after adding
    /// `by`.
    pub open spec fn idx_ok(self, idx: usize, by: int) -> bool {
        self.has(idx) ==> 0 <= idx + by <= usize::MAX
    }
}

/// The shifted index: an index in range moves by `by`, one outside stays.
pub open spec fn shift_idx_s(idx: usize, range: ShiftRange, by: int) -> usize {
    if range.has(idx) {
        (idx + by) as usize
    } else {
        idx
    }
}

/// Mathematical model of a normal form.
pub enum NfS {
    TypCtor { info: Info, name: Seq<char>, args: Seq<NfS> },
    Ctor { info: Info, name: Seq<char>, args: Seq<NfS> },
    Type { info: Info },
    Comatch { info: Info, name: Seq<char>, body: ComatchS },
    Neu { exp: NeuS },
}

/// Mathematical model of a neutral normal form.
pub enum NeuS {
    Var { info: Info, name: Seq<char>, idx: usize },
    Dtor { info: Info, exp: Box<NeuS>, name: Seq<char>, args: Seq<NfS> },
    Match { info: Info, name: Seq<char>, on_exp: Box<NeuS>, body: MatchS },
}

/// Mathematical model of a match body in normal form.
pub struct MatchS {
    pub info: Info,
    pub cases: Seq<CaseS>,
}

/// Mathematical model of a comatch body in normal form.
pub struct ComatchS {
    pub info: Info,
    pub cases: Seq<CocaseS>,
}

/// Mathematical model of a case in normal form.
pub struct CaseS {
    pub info: Info,
    pub name: Seq<char>,
    pub n_args: usize,
    pub body: Box<NfS>,
}

/// Mathematical model of a cocase in normal form.
pub struct CocaseS {
    pub info: Info,
    pub name: Seq<char>,
    pub n_args: usize,
    pub body: Box<NfS>,
}

pub open spec fn view_nf(n: Nf) -> NfS
    decreases n,
{
    match n {
        Nf::TypCtor { info, name, args } => NfS::TypCtor {
            info,
            name: name@,
            args: view_nfs(args@),
        },
        Nf::Ctor { info, name, args } => NfS::Ctor { info, name: name@, args: view_nfs(args@) },
        Nf::Type { info } => NfS::Type { info },
        Nf::Comatch { info, name, body } => NfS::Comatch {
            info,
            name: name@,
            body: view_nf_comatch(body),
        },
        Nf::Neu { exp } => NfS::Neu { exp: view_nf_neu(exp) },
    }
}

pub open spec fn view_nfs(v: Seq<Nf>) -> Seq<NfS>
    decreases v,
{
    if v.len() == 0 {
        Seq::empty()
    } else {
        view_nfs(v.drop_last()).push(view_nf(v.last()))
    }
}

pub broadcast proof fn lemma_view_nfs(v: Seq<Nf>)
    ensures
        (#[trigger] view_nfs(v)).len() == v.len(),
        forall|i: int| 0 <= i < v.len() ==> view_nfs(v)[i] == view_nf(v[i]),
    decreases v.len(),
{
    if v.len() > 0 {
        lemma_view_nfs(v.drop_last());
    }
}

pub open spec fn view_nf_neu(n: Neu) -> NeuS
    decreases n,
{
    match n {
        Neu::Var { info, name, idx } => NeuS::Var { info, name: name@, idx },
        Neu::Dtor { info, exp, name, args } => NeuS::Dtor {
            info,
            exp: Box::new(view_nf_neu(*exp)),
            name: name@,
            args: view_nfs(args@),
        },
        Neu::Match { info, name, on_exp, body } => NeuS::Match {
            info,
            name: name@,
            on_exp: Box::new(view_nf_neu(*on_exp)),
            body: view_nf_match(body),
        },
    }
}

pub open spec fn view_nf_match(m: Match) -> MatchS
    decreases m,
{
    MatchS { info: m.info, cases: view_nf_cases(m.cases@) }
}

pub open spec fn view_nf_cases(v: Seq<Case>) -> Seq<CaseS>
    decreases v,
{
    if v.len() == 0 {
        Seq::empty()
    } else {
        view_nf_cases(v.drop_last()).push(view_nf_case(v.last()))
    }
}

pub broadcast proof fn lemma_view_nf_cases(v: Seq<Case>)
    ensures
        (#[trigger] view_nf_cases(v)).len() == v.len(),
        forall|i: int| 0 <= i < v.len() ==> view_nf_cases(v)[i] == view_nf_case(v[i]),
    decreases v.len(),
{
    if v.len() > 0 {
        lemma_view_nf_cases(v.drop_last());
    }
}

pub open spec fn view_nf_case(c: Case) -> CaseS
    decreases c,
{
    CaseS { info: c.info, name: c.name@, n_args: c.n_args, body: Box::new(view_nf(*c.body)) }
}

pub open spec fn view_nf_comatch(m: Comatch) -> ComatchS
    decreases m,
{
    ComatchS { info: m.info, cases: view_nf_cocases(m.cases@) }
}

pub open spec fn view_nf_cocases(v: Seq<Cocase>) -> Seq<CocaseS>
    decreases v,
{
    if v.len() == 0 {
        Seq::empty()
    } else {
        view_nf_cocases(v.drop_last()).push(view_nf_cocase(v.last()))
    }
}

pub broadcast proof fn lemma_view_nf_cocases(v: Seq<Cocase>)
    ensures
        (#[trigger] view_nf_cocases(v)).len() == v.len(),
        forall|i: int| 0 <= i < v.len() ==> view_nf_cocases(v)[i] == view_nf_cocase(v[i]),
    decreases v.len(),
{
    if v.len() > 0 {
        lemma_view_nf_cocases(v.drop_last());
    }
}

pub open spec fn view_nf_cocase(c: Cocase) -> CocaseS
    decreases c,
{
    CocaseS { info: c.info, name: c.name@, n_args: c.n_args, body: Box::new(view_nf(*c.body)) }
}

impl View for Nf {
    type V = NfS;

    open spec fn view(&self) -> NfS {
        view_nf(*self)
    }
}

impl View for Neu {
    type V = NeuS;

    open spec fn view(&self) -> NeuS {
        view_nf_neu(*self)
    }
}

impl View for Match {
    type V = MatchS;

    open spec fn view(&self) -> MatchS {
        view_nf_match(*self)
    }
}

impl View for Comatch {
    type V = ComatchS;

    open spec fn view(&self) -> ComatchS {
        view_nf_comatch(*self)
    }
}

impl View for Case {
    type V = CaseS;

    open spec fn view(&self) -> CaseS {
        view_nf_case(*self)
    }
}

impl View for Cocase {
    type V = CocaseS;

    open spec fn view(&self) -> CocaseS {
        view_nf_cocase(*self)
    }
}

} // verus!

verus! {

/// Whether every index that the shift touches stays inside `usize`.
pub open spec fn can_shift_nf(n: NfS, range: ShiftRange, by: int) -> bool
    decreases n,
{
    match n {
        NfS::TypCtor { args, .. } => can_shift_nfs(args, range, by),
        NfS::Ctor { args, .. } => can_shift_nfs(args, range, by),
        NfS::Type { .. } => true,
        NfS::Comatch { body, .. } => can_shift_nf_comatch(body, range, by),
        NfS::Neu { exp } => can_shift_nf_neu(exp, range, by),
    }
}

pub open spec fn can_shift_nfs(v: Seq<NfS>, range: ShiftRange, by: int) -> bool
    decreases v,
{
    if v.len() == 0 {
        true
    } else {
        can_shift_nfs(v.drop_last(), range, by) && can_shift_nf(v.last(), range, by)
    }
}

pub broadcast proof fn lemma_can_shift_nfs(v: Seq<NfS>, range: ShiftRange, by: int)
    requires
        #[trigger] can_shift_nfs(v, range, by),
    ensures
        forall|i: int| 0 <= i < v.len() ==> can_shift_nf(v[i], range, by),
    decreases v.len(),
{
    if v.len() > 0 {
        lemma_can_shift_nfs(v.drop_last(), range, by);
        assert forall|i: int| 0 <= i < v.len() implies can_shift_nf(v[i], range, by) by {
            if i < v.len() - 1 {
                assert(v.drop_last()[i] == v[i]);
            } else {
                assert(v.last() == v[i]);
            }
        }
    }
}

pub open spec fn can_shift_nf_neu(n: NeuS, range: ShiftRange, by: int) -> bool
    decreases n,
{
    match n {
        NeuS::Var { idx, .. } => range.idx_ok(idx, by),
        NeuS::Dtor { exp, args, .. } => can_shift_nf_neu(*exp, range, by) && can_shift_nfs(
            args,
            range,
            by,
        ),
        NeuS::Match { on_exp, body, .. } => can_shift_nf_neu(*on_exp, range, by)
            && can_shift_nf_match(body, range, by),
    }
}

pub open spec fn can_shift_nf_match(m: MatchS, range: ShiftRange, by: int) -> bool
    decreases m,
{
    can_shift_nf_cases(m.cases, range, by)
}

pub open spec fn can_shift_nf_cases(v: Seq<CaseS>, range: ShiftRange, by: int) -> bool
    decreases v,
{
    if v.len() == 0 {
        true
    } else {
        can_shift_nf_cases(v.drop_last(), range, by) && can_shift_nf_case(v.last(), range, by)
    }
}

pub open spec fn can_shift_nf_case(c: CaseS, range: ShiftRange, by: int) -> bool
    decreases c,
{
    range.can_shift(c.n_args) && can_shift_nf(*c.body, range.shift_s(c.n_args), by)
}

pub open spec fn can_shift_nf_comatch(m: ComatchS, range: ShiftRange, by: int) -> bool
    decreases m,
{
    can_shift_nf_cocases(m.cases, range, by)
}

pub open spec fn can_shift_nf_cocases(v: Seq<CocaseS>, range: ShiftRange, by: int) -> bool
    decreases v,
{
    if v.len() == 0 {
        true
    } else {
        can_shift_nf_cocases(v.drop_last(), range, by) && can_shift_nf_cocase(v.last(), range, by)
    }
}

pub open spec fn can_shift_nf_cocase(c: CocaseS, range: ShiftRange, by: int) -> bool
    decreases c,
{
    range.can_shift(c.n_args) && can_shift_nf(*c.body, range.shift_s(c.n_args), by)
}

/// The normal form with every variable in range moved by `by`.
pub open spec fn shift_nf_s(n: NfS, range: ShiftRange, by: int) -> NfS
    decreases n,
{
    match n {
        NfS::TypCtor { info, name, args } => NfS::TypCtor {
            info,
            name,
            args: shift_nfs_s(args, range, by),
        },
        NfS::Ctor { info, name, args } => NfS::Ctor {
            info,
            name,
            args: shift_nfs_s(args, range, by),
        },
        NfS::Type { info } => NfS::Type { info },
        NfS::Comatch { info, name, body } => NfS::Comatch {
            info,
            name,
            body: shift_nf_comatch_s(body, range, by),
        },
        NfS::Neu { exp } => NfS::Neu { exp: shift_nf_neu_s(exp, range, by) },
    }
}

pub open spec fn shift_nfs_s(v: Seq<NfS>, range: ShiftRange, by: int) -> Seq<NfS>
    decreases v,
{
    if v.len() == 0 {
        Seq::empty()
    } else {
        shift_nfs_s(v.drop_last(), range, by).push(shift_nf_s(v.last(), range, by))
    }
}

pub open spec fn shift_nf_neu_s(n: NeuS, range: ShiftRange, by: int) -> NeuS
    decreases n,
{
    match n {
        NeuS::Var { info, name, idx } => NeuS::Var {
            info,
            name,
            idx: shift_idx_s(idx, range, by),
        },
        NeuS::Dtor { info, exp, name, args } => NeuS::Dtor {
            info,
            exp: Box::new(shift_nf_neu_s(*exp, range, by)),
            name,
            args: shift_nfs_s(args, range, by),
        },
        NeuS::Match { info, name, on_exp, body } => NeuS::Match {
            info,
            name,
            on_exp: Box::new(shift_nf_neu_s(*on_exp, range, by)),
            body: shift_nf_match_s(body, range, by),
        },
    }
}

pub open spec fn shift_nf_match_s(m: MatchS, range: ShiftRange, by: int) -> MatchS
    decreases m,
{
    MatchS { info: m.info, cases: shift_nf_cases_s(m.cases, range, by) }
}

pub open spec fn shift_nf_cases_s(v: Seq<CaseS>, range: ShiftRange, by: int) -> Seq<CaseS>
    decreases v,
{
    if v.len() == 0 {
        Seq::empty()
    } else {
        shift_nf_cases_s(v.drop_last(), range, by).push(shift_nf_case_s(v.last(), range, by))
    }
}

/// A case body is shifted under its own binders: the cutoff moves up by the
/// case's arity.
pub open spec fn shift_nf_case_s(c: CaseS, range: ShiftRange, by: int) -> CaseS
    decreases c,
{
    CaseS {
        info: c.info,
        name: c.name,
        n_args: c.n_args,
        body: Box::new(shift_nf_s(*c.body, range.shift_s(c.n_args), by)),
    }
}

pub open spec fn shift_nf_comatch_s(m: ComatchS, range: ShiftRange, by: int) -> ComatchS
    decreases m,
{
    ComatchS { info: m.info, cases: shift_nf_cocases_s(m.cases, range, by) }
}

pub open spec fn shift_nf_cocases_s(v: Seq<CocaseS>, range: ShiftRange, by: int) -> Seq<CocaseS>
    decreases v,
{
    if v.len() == 0 {
        Seq::empty()
    } else {
        shift_nf_cocases_s(v.drop_last(), range, by).push(shift_nf_cocase_s(v.last(), range, by))
    }
}

pub open spec fn shift_nf_cocase_s(c: CocaseS, range: ShiftRange, by: int) -> CocaseS
    decreases c,
{
    CocaseS {
        info: c.info,
        name: c.name,
        n_args: c.n_args,
        body: Box::new(shift_nf_s(*c.body, range.shift_s(c.n_args), by)),
    }
}

impl ShiftRange {
    /// Whether the index lies in the range.
    pub fn has_idx(&self, idx: usize) -> (b: bool)
        ensures
            b == self.has(idx),
    {
        self.lo <= idx && (match self.hi {
            Some(h) => idx < h,
            None => true,
        })
    }
}

/// Shift one index: an index in range moves by `by`, one outside stays.
fn shift_idx(idx: usize, range: ShiftRange, by: isize) -> (r: usize)
    requires
        range.idx_ok(idx, by as int),
    ensures
        r == shift_idx_s(idx, range, by as int),
{
    if range.has_idx(idx) {
        ((idx as i128) + (by as i128)) as usize
    } else {
        idx
    }
}

impl Nf {
    /// The normal form with every variable whose index lies in `range` moved
    /// by `by`; indices under a binder are measured past its parameters.
    pub fn shift_in_range(&self, range: ShiftRange, by: isize) -> (r: Self)
        requires
            can_shift_nf(self@, range, by as int),
        ensures
            r@ == shift_nf_s(self@, range, by as int),
        decreases *self,
    {
        match self {
            Nf::TypCtor { info, name, args } => Nf::TypCtor {
                info: *info,
                name: name.clone(),
                args: shift_nfs(args, range, by),
            },
            Nf::Ctor { info, name, args } => Nf::Ctor {
                info: *info,
                name: name.clone(),
                args: shift_nfs(args, range, by),
            },
            Nf::Type { info } => Nf::Type { info: *info },
            Nf::Comatch { info, name, body } => Nf::Comatch {
                info: *info,
                name: name.clone(),
                body: body.shift_in_range(range, by),
            },
            Nf::Neu { exp } => Nf::Neu { exp: exp.shift_in_range(range, by) },
        }
    }
}

/// Shift every normal form in a list.
fn shift_nfs(v: &Vec<Nf>, range: ShiftRange, by: isize) -> (r: Vec<Nf>)
    requires
        can_shift_nfs(view_nfs(v@), range, by as int),
    ensures
        view_nfs(r@) == shift_nfs_s(view_nfs(v@), range, by as int),
    decreases *v,
{
    let mut r: Vec<Nf> = Vec::new();
    proof {
        assert(view_nfs(r@) =~= Seq::<NfS>::empty());
        assert(view_nfs(v@).take(0) =~= Seq::<NfS>::empty());
        assert(shift_nfs_s(view_nfs(v@).take(0), range, by as int) =~= Seq::<NfS>::empty());
    }
    let mut i: usize = 0;
    while i < v.len()
        invariant
            i <= v@.len(),
            can_shift_nfs(view_nfs(v@), range, by as int),
            view_nfs(r@) == shift_nfs_s(view_nfs(v@).take(i as int), range, by as int),
        decreases v@.len() - i,
    {
        proof {
            lemma_view_nfs(v@);
            lemma_can_shift_nfs(view_nfs(v@), range, by as int);
            assert(view_nfs(v@)[i as int] == view_nf(v@[i as int]));
            assert(can_shift_nf(view_nf(v@[i as int]), range, by as int));
        }
        let ghost prev = r@;
        r.push(v[i].shift_in_range(range, by));
        i += 1;
        proof {
            let vs = view_nfs(v@);
            assert(vs.take(i as int).drop_last() =~= vs.take(i - 1));
            assert(vs.take(i as int).last() == vs[i - 1]);
            assert(r@.drop_last() =~= prev);
            assert(view_nfs(r@) == view_nfs(prev).push(view_nf(r@.last())));
        }
    }
    proof {
        lemma_view_nfs(v@);
        assert(view_nfs(v@).take(v@.len() as int) =~= view_nfs(v@));
    }
    r
}

impl Neu {
    /// Shift a neutral normal form.
    pub fn shift_in_range(&self, range: ShiftRange, by: isize) -> (r: Self)
        requires
            can_shift_nf_neu(self@, range, by as int),
        ensures
            r@ == shift_nf_neu_s(self@, range, by as int),
        decreases *self,
    {
        match self {
            Neu::Var { info, name, idx } => Neu::Var {
                info: *info,
                name: name.clone(),
                idx: shift_idx(*idx, range, by),
            },
            Neu::Dtor { info, exp, name, args } => Neu::Dtor {
                info: *info,
                exp: Box::new((**exp).shift_in_range(range, by)),
                name: name.clone(),
                args: shift_nfs(args, range, by),
            },
            Neu::Match { info, name, on_exp, body } => Neu::Match {
                info: *info,
                name: name.clone(),
                on_exp: Box::new((**on_exp).shift_in_range(range, by)),
                body: body.shift_in_range(range, by),
            },
        }
    }
}

impl Match {
    /// Shift a match body in normal form.
    pub fn shift_in_range(&self, range: ShiftRange, by: isize) -> (r: Self)
        requires
            can_shift_nf_match(self@, range, by as int),
        ensures
            r@ == shift_nf_match_s(self@, range, by as int),
        decreases *self,
    {
        let mut cases: Vec<Case> = Vec::new();
        proof {
            assert(view_nf_cases(cases@) =~= Seq::<CaseS>::empty());
            assert(view_nf_cases(self.cases@).take(0) =~= Seq::<CaseS>::empty());
            assert(shift_nf_cases_s(view_nf_cases(self.cases@).take(0), range, by as int)
                =~= Seq::<CaseS>::empty());
        }
        let mut i: usize = 0;
        while i < self.cases.len()
            invariant
                i <= self.cases@.len(),
                can_shift_nf_cases(view_nf_cases(self.cases@), range, by as int),
                view_nf_cases(cases@) == shift_nf_cases_s(
                    view_nf_cases(self.cases@).take(i as int),
                    range,
                    by as int,
                ),
            decreases self.cases@.len() - i,
        {
            proof {
                lemma_view_nf_cases(self.cases@);
                lemma_can_shift_nf_cases(view_nf_cases(self.cases@), range, by as int);
                assert(view_nf_cases(self.cases@)[i as int] == view_nf_case(self.cases@[i as int]));
                assert(can_shift_nf_case(view_nf_case(self.cases@[i as int]), range, by as int));
            }
            let ghost prev = cases@;
            cases.push(self.cases[i].shift_in_range(range, by));
            i += 1;
            proof {
                let vs = view_nf_cases(self.cases@);
                assert(vs.take(i as int).drop_last() =~= vs.take(i - 1));
                assert(vs.take(i as int).last() == vs[i - 1]);
                assert(cases@.drop_last() =~= prev);
                assert(view_nf_cases(cases@) == view_nf_cases(prev).push(
                    view_nf_case(cases@.last()),
                ));
            }
        }
        proof {
            lemma_view_nf_cases(self.cases@);
            assert(view_nf_cases(self.cases@).take(self.cases@.len() as int) =~= view_nf_cases(
                self.cases@,
            ));
        }
        Match { info: self.info, cases }
    }
}

pub broadcast proof fn lemma_can_shift_nf_cases(v: Seq<CaseS>, range: ShiftRange, by: int)
    requires
        #[trigger] can_shift_nf_cases(v, range, by),
    ensures
        forall|i: int| 0 <= i < v.len() ==> can_shift_nf_case(v[i], range, by),
    decreases v.len(),
{
    if v.len() > 0 {
        lemma_can_shift_nf_cases(v.drop_last(), range, by);
        assert forall|i: int| 0 <= i < v.len() implies can_shift_nf_case(v[i], range, by) by {
            if i < v.len() - 1 {
                assert(v.drop_last()[i] == v[i]);
            } else {
                assert(v.last() == v[i]);
            }
        }
    }
}

pub broadcast proof fn lemma_can_shift_nf_cocases(v: Seq<CocaseS>, range: ShiftRange, by: int)
    requires
        #[trigger] can_shift_nf_cocases(v, range, by),
    ensures
        forall|i: int| 0 <= i < v.len() ==> can_shift_nf_cocase(v[i], range, by),
    decreases v.len(),
{
    if v.len() > 0 {
        lemma_can_shift_nf_cocases(v.drop_last(), range, by);
        assert forall|i: int| 0 <= i < v.len() implies can_shift_nf_cocase(v[i], range, by) by {
            if i < v.len() - 1 {
                assert(v.drop_last()[i] == v[i]);
            } else {
                assert(v.last() == v[i]);
            }
        }
    }
}

impl Comatch {
    /// Shift a comatch body in normal form.
    pub fn shift_in_range(&self, range: ShiftRange, by: isize) -> (r: Self)
        requires
            can_shift_nf_comatch(self@, range, by as int),
        ensures
            r@ == shift_nf_comatch_s(self@, range, by as int),
        decreases *self,
    {
        let mut cases: Vec<Cocase> = Vec::new();
        proof {
            assert(view_nf_cocases(cases@) =~= Seq::<CocaseS>::empty());
            assert(view_nf_cocases(self.cases@).take(0) =~= Seq::<CocaseS>::empty());
            assert(shift_nf_cocases_s(view_nf_cocases(self.cases@).take(0), range, by as int)
                =~= Seq::<CocaseS>::empty());
        }
        let mut i: usize = 0;
        while i < self.cases.len()
            invariant
                i <= self.cases@.len(),
                can_shift_nf_cocases(view_nf_cocases(self.cases@), range, by as int),
                view_nf_cocases(cases@) == shift_nf_cocases_s(
                    view_nf_cocases(self.cases@).take(i as int),
                    range,
                    by as int,
                ),
            decreases self.cases@.len() - i,
        {
            proof {
                lemma_view_nf_cocases(self.cases@);
                lemma_can_shift_nf_cocases(view_nf_cocases(self.cases@), range, by as int);
                assert(view_nf_cocases(self.cases@)[i as int] == view_nf_cocase(
                    self.cases@[i as int],
                ));
                assert(can_shift_nf_cocase(view_nf_cocase(self.cases@[i as int]), range, by as int));
            }
            let ghost prev = cases@;
            cases.push(self.cases[i].shift_in_range(range, by));
            i += 1;
            proof {
                let vs = view_nf_cocases(self.cases@);
                assert(vs.take(i as int).drop_last() =~= vs.take(i - 1));
                assert(vs.take(i as int).last() == vs[i - 1]);
                assert(cases@.drop_last() =~= prev);
                assert(view_nf_cocases(cases@) == view_nf_cocases(prev).push(
                    view_nf_cocase(cases@.last()),
                ));
            }
        }
        proof {
            lemma_view_nf_cocases(self.cases@);
            assert(view_nf_cocases(self.cases@).take(self.cases@.len() as int)
                =~= view_nf_cocases(self.cases@));
        }
        Comatch { info: self.info, cases }
    }
}

impl Case {
    /// Shift a case: its body is shifted past the case's own binders.
    pub fn shift_in_range(&self, range: ShiftRange, by: isize) -> (r: Self)
        requires
            can_shift_nf_case(self@, range, by as int),
        ensures
            r@ == shift_nf_case_s(self@, range, by as int),
        decreases *self,
    {
        Case {
            info: self.info,
            name: self.name.clone(),
            n_args: self.n_args,
            body: Box::new((*self.body).shift_in_range(range.shift(self.n_args), by)),
        }
    }
}

impl Cocase {
    /// Shift a cocase: its body is shifted past the cocase's own binders.
    pub fn shift_in_range(&self, range: ShiftRange, by: isize) -> (r: Self)
        requires
            can_shift_nf_cocase(self@, range, by as int),
        ensures
            r@ == shift_nf_cocase_s(self@, range, by as int),
        decreases *self,
    {
        Cocase {
            info: self.info,
            name: self.name.clone(),
            n_args: self.n_args,
            body: Box::new((*self.body).shift_in_range(range.shift(self.n_args), by)),
        }
    }
}

} // verus!

verus! {

/// The information attached to a normal form.
pub open spec fn nf_info_s(n: NfS) -> Info {
    match n {
        NfS::TypCtor { info, .. } => info,
        NfS::Ctor { info, .. } => info,
        NfS::Type { info } => info,
        NfS::Comatch { info, .. } => info,
        NfS::Neu { exp } => neu_info_s(exp),
    }
}

/// The information attached to a neutral normal form.
pub open spec fn neu_info_s(n: NeuS) -> Info {
    match n {
        NeuS::Var { info, .. } => info,
        NeuS::Dtor { info, .. } => info,
        NeuS::Match { info, .. } => info,
    }
}

impl Nf {
    /// The information attached to the normal form.
    pub fn info(&self) -> (r: Info)
        ensures
            r == nf_info_s(self@),
    {
        match self {
            Nf::TypCtor { info, .. } => *info,
            Nf::Ctor { info, .. } => *info,
            Nf::Type { info } => *info,
            Nf::Comatch { info, .. } => *info,
            Nf::Neu { exp } => exp.info(),
        }
    }
}

impl Neu {
    /// The information attached to the neutral normal form.
    pub fn info(&self) -> (r: Info)
        ensures
            r == neu_info_s(self@),
    {
        match self {
            Neu::Var { info, .. } => *info,
            Neu::Dtor { info, .. } => *info,
            Neu::Match { info, .. } => *info,
        }
    }
}

} // verus!
