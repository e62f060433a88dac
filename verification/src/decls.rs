use vstd::prelude::*;

use crate::ast;
use crate::ast::view_match;
use crate::span::Span;

verus! {

/// The kind of a top-level declaration.
#[derive(Clone, Copy, PartialEq, Eq, Structural, Debug)]
pub enum DeclKind {
    Data,
    Codata,
    Def,
    Codef,
    Ctor,
    Dtor,
}

/// The type-level signature of a (co)data type: how many parameters it takes.
#[derive(Clone, Copy, PartialEq, Eq, Structural, Debug)]
pub struct TypAbs {
    pub n_params: usize,
}

/// A data type declaration, introduced by constructors.
#[derive(Debug)]
pub struct Data {
    pub span: Option<Span>,
    pub name: String,
    pub hidden: bool,
    pub typ: TypAbs,
    pub ctors: Vec<String>,
}

/// A codata type declaration, eliminated by destructors.
#[derive(Debug)]
pub struct Codata {
    pub span: Option<Span>,
    pub name: String,
    pub hidden: bool,
    pub typ: TypAbs,
    pub dtors: Vec<String>,
}

/// A constructor of a data type.
#[derive(Debug)]
pub struct Ctor {
    pub span: Option<Span>,
    pub name: String,
    pub n_params: usize,
}

/// A destructor of a codata type; `self_typ` names that type.
#[derive(Debug)]
pub struct Dtor {
    pub span: Option<Span>,
    pub name: String,
    pub self_typ: String,
    pub n_params: usize,
}

/// A top-level definition: pattern-matches on the data type `self_typ`.
#[derive(Debug)]
pub struct Def {
    pub span: Option<Span>,
    pub name: String,
    pub hidden: bool,
    pub self_typ: String,
    pub n_params: usize,
    pub body: ast::Match,
}

/// A top-level co-definition: co-pattern-matches at the codata type `typ_name`.
#[derive(Debug)]
pub struct Codef {
    pub span: Option<Span>,
    pub name: String,
    pub hidden: bool,
    pub typ_name: String,
    pub n_params: usize,
    pub body: ast::Match,
}

/// A top-level declaration.
#[derive(Debug)]
pub enum Decl {
    Data(Data),
    Codata(Codata),
    Def(Def),
    Codef(Codef),
    Ctor(Ctor),
    Dtor(Dtor),
}

/// The declaration table of a module, in source (insertion) order.
#[derive(Debug)]
pub struct Decls {
    pub decls: Vec<Decl>,
}

/// Mathematical model of a data declaration.
pub struct DataS {
    pub span: Option<Span>,
    pub name: Seq<char>,
    pub hidden: bool,
    pub typ: TypAbs,
    pub ctors: Seq<Seq<char>>,
}

/// Mathematical model of a codata declaration.
pub struct CodataS {
    pub span: Option<Span>,
    pub name: Seq<char>,
    pub hidden: bool,
    pub typ: TypAbs,
    pub dtors: Seq<Seq<char>>,
}

/// Mathematical model of a constructor.
pub struct CtorS {
    pub span: Option<Span>,
    pub name: Seq<char>,
    pub n_params: usize,
}

/// Mathematical model of a destructor.
pub struct DtorS {
    pub span: Option<Span>,
    pub name: Seq<char>,
    pub self_typ: Seq<char>,
    pub n_params: usize,
}

/// Mathematical model of a definition.
pub struct DefS {
    pub span: Option<Span>,
    pub name: Seq<char>,
    pub hidden: bool,
    pub self_typ: Seq<char>,
    pub n_params: usize,
    pub body: ast::MatchS,
}

/// Mathematical model of a co-definition.
pub struct CodefS {
    pub span: Option<Span>,
    pub name: Seq<char>,
    pub hidden: bool,
    pub typ_name: Seq<char>,
    pub n_params: usize,
    pub body: ast::MatchS,
}

/// Mathematical model of a declaration.
pub enum DeclS {
    Data(DataS),
    Codata(CodataS),
    Def(DefS),
    Codef(CodefS),
    Ctor(CtorS),
    Dtor(DtorS),
}

impl View for Data {
    type V = DataS;

    open spec fn view(&self) -> DataS {
        DataS {
            span: self.span,
            name: self.name@,
            hidden: self.hidden,
            typ: self.typ,
            ctors: self.ctors.deep_view(),
        }
    }
}

impl View for Codata {
    type V = CodataS;

    open spec fn view(&self) -> CodataS {
        CodataS {
            span: self.span,
            name: self.name@,
            hidden: self.hidden,
            typ: self.typ,
            dtors: self.dtors.deep_view(),
        }
    }
}

impl View for Ctor {
    type V = CtorS;

    open spec fn view(&self) -> CtorS {
        CtorS { span: self.span, name: self.name@, n_params: self.n_params }
    }
}

impl View for Dtor {
    type V = DtorS;

    open spec fn view(&self) -> DtorS {
        DtorS {
            span: self.span,
            name: self.name@,
            self_typ: self.self_typ@,
            n_params: self.n_params,
        }
    }
}

impl View for Def {
    type V = DefS;

    open spec fn view(&self) -> DefS {
        DefS {
            span: self.span,
            name: self.name@,
            hidden: self.hidden,
            self_typ: self.self_typ@,
            n_params: self.n_params,
            body: view_match(self.body),
        }
    }
}

impl View for Codef {
    type V = CodefS;

    open spec fn view(&self) -> CodefS {
        CodefS {
            span: self.span,
            name: self.name@,
            hidden: self.hidden,
            typ_name: self.typ_name@,
            n_params: self.n_params,
            body: view_match(self.body),
        }
    }
}

impl View for Decl {
    type V = DeclS;

    open spec fn view(&self) -> DeclS {
        match self {
            Decl::Data(d) => DeclS::Data(d@),
            Decl::Codata(d) => DeclS::Codata(d@),
            Decl::Def(d) => DeclS::Def(d@),
            Decl::Codef(d) => DeclS::Codef(d@),
            Decl::Ctor(d) => DeclS::Ctor(d@),
            Decl::Dtor(d) => DeclS::Dtor(d@),
        }
    }
}

impl View for Decls {
    type V = Seq<DeclS>;

    open spec fn view(&self) -> Seq<DeclS> {
        self.decls.deep_view()
    }
}

impl DeepView for Decl {
    type V = DeclS;

    open spec fn deep_view(&self) -> DeclS {
        self.view()
    }
}

/// The name a declaration binds.
pub open spec fn decl_name_s(d: DeclS) -> Seq<char> {
    match d {
        DeclS::Data(x) => x.name,
        DeclS::Codata(x) => x.name,
        DeclS::Def(x) => x.name,
        DeclS::Codef(x) => x.name,
        DeclS::Ctor(x) => x.name,
        DeclS::Dtor(x) => x.name,
    }
}

/// The kind of a declaration.
pub open spec fn decl_kind_s(d: DeclS) -> DeclKind {
    match d {
        DeclS::Data(_) => DeclKind::Data,
        DeclS::Codata(_) => DeclKind::Codata,
        DeclS::Def(_) => DeclKind::Def,
        DeclS::Codef(_) => DeclKind::Codef,
        DeclS::Ctor(_) => DeclKind::Ctor,
        DeclS::Dtor(_) => DeclKind::Dtor,
    }
}

/// The first declaration bound to `name`, in source order.
pub open spec fn find_decl_s(ds: Seq<DeclS>, name: Seq<char>) -> Option<DeclS>
    decreases ds.len(),
{
    if ds.len() == 0 {
        None
    } else if decl_name_s(ds[0]) == name {
        Some(ds[0])
    } else {
        find_decl_s(ds.drop_first(), name)
    }
}

/// A scan that has rejected a prefix may go on from the rest alone.
pub proof fn lemma_find_decl_skip(ds: Seq<DeclS>, name: Seq<char>, i: int)
    requires
        0 <= i <= ds.len(),
        forall|j: int| 0 <= j < i ==> decl_name_s(#[trigger] ds[j]) != name,
    ensures
        find_decl_s(ds, name) == find_decl_s(ds.skip(i), name),
    decreases i,
{
    if i > 0 {
        assert(ds.drop_first() =~= ds.skip(1));
        lemma_find_decl_skip(ds.drop_first(), name, i - 1);
        assert(ds.drop_first().skip(i - 1) =~= ds.skip(i));
    } else {
        assert(ds.skip(0) =~= ds);
    }
}

/// Whether a declaration is a type that owns `name` as a constructor or
/// destructor.
pub open spec fn owns_xtor(d: DeclS, name: Seq<char>) -> bool {
    match d {
        DeclS::Data(x) => x.ctors.contains(name),
        DeclS::Codata(x) => x.dtors.contains(name),
        _ => false,
    }
}

/// The name of the type that declares `name` as one of its constructors or
/// destructors, if any: the xtor reverse index.
pub open spec fn xtor_owner_s(ds: Seq<DeclS>, name: Seq<char>) -> Option<Seq<char>>
    decreases ds.len(),
{
    if ds.len() == 0 {
        None
    } else if owns_xtor(ds[0], name) {
        Some(decl_name_s(ds[0]))
    } else {
        xtor_owner_s(ds.drop_first(), name)
    }
}

/// A scan that has rejected a prefix may go on from the rest alone.
pub proof fn lemma_xtor_owner_skip(ds: Seq<DeclS>, name: Seq<char>, i: int)
    requires
        0 <= i <= ds.len(),
        forall|j: int| 0 <= j < i ==> !owns_xtor(#[trigger] ds[j], name),
    ensures
        xtor_owner_s(ds, name) == xtor_owner_s(ds.skip(i), name),
    decreases i,
{
    if i > 0 {
        assert(ds.drop_first() =~= ds.skip(1));
        lemma_xtor_owner_skip(ds.drop_first(), name, i - 1);
        assert(ds.drop_first().skip(i - 1) =~= ds.skip(i));
    } else {
        assert(ds.skip(0) =~= ds);
    }
}

/// The name of the type that the definition or co-definition `name` targets,
/// if any: the xdef reverse index.
pub open spec fn xdef_owner_s(ds: Seq<DeclS>, name: Seq<char>) -> Option<Seq<char>> {
    match find_decl_s(ds, name) {
        Some(DeclS::Def(d)) => Some(d.self_typ),
        Some(DeclS::Codef(d)) => Some(d.typ_name),
        _ => None,
    }
}

/// One error produced while resolving a name in the declaration table.
#[derive(Debug)]
pub enum LookupError {
    /// No declaration binds the name.
    UndefinedDeclaration { name: String, span: Option<Span> },
    /// A declaration binds the name, but it has the wrong kind.
    InvalidDeclarationKind {
        name: String,
        expected: AnyOf<DeclKind>,
        actual: DeclKind,
        span: Option<Span>,
    },
    /// The name is bound but no type declaration owns it.
    MissingTypeDeclaration { name: String, span: Option<Span> },
}

/// Mathematical model of a lookup error.
pub enum LookupErrorS {
    UndefinedDeclaration { name: Seq<char>, span: Option<Span> },
    InvalidDeclarationKind {
        name: Seq<char>,
        expected: Seq<DeclKind>,
        actual: DeclKind,
        span: Option<Span>,
    },
    MissingTypeDeclaration { name: Seq<char>, span: Option<Span> },
}

impl View for LookupError {
    type V = LookupErrorS;

    open spec fn view(&self) -> LookupErrorS {
        match self {
            LookupError::UndefinedDeclaration { name, span } => {
                LookupErrorS::UndefinedDeclaration { name: name@, span: *span }
            },
            LookupError::InvalidDeclarationKind { name, expected, actual, span } => {
                LookupErrorS::InvalidDeclarationKind {
                    name: name@,
                    expected: expected@,
                    actual: *actual,
                    span: *span,
                }
            },
            LookupError::MissingTypeDeclaration { name, span } => {
                LookupErrorS::MissingTypeDeclaration { name: name@, span: *span }
            },
        }
    }
}

/// A disjunction of admissible alternatives, used in error reports.
#[derive(Debug)]
pub struct AnyOf<T>(pub Vec<T>);

impl<T> View for AnyOf<T> {
    type V = Seq<T>;

    open spec fn view(&self) -> Seq<T> {
        self.0@
    }
}

impl<T> AnyOf<T> {
    /// A single admissible alternative.
    pub fn one(x: T) -> (r: AnyOf<T>)
        ensures
            r@ == seq![x],
    {
        let mut v: Vec<T> = Vec::new();
        v.push(x);
        proof {
            assert(v@ =~= seq![x]);
        }
        AnyOf(v)
    }

    /// Two admissible alternatives.
    pub fn two(x: T, y: T) -> (r: AnyOf<T>)
        ensures
            r@ == seq![x, y],
    {
        let mut v: Vec<T> = Vec::new();
        v.push(x);
        v.push(y);
        proof {
            assert(v@ =~= seq![x, y]);
        }
        AnyOf(v)
    }
}

} // verus!

verus! {

impl Clone for Data {
    fn clone(&self) -> (r: Self)
        ensures
            r@ == self@,
    {
        let ctors = self.ctors.clone();
        proof {
            assert(ctors@ =~= self.ctors@);
        }
        Data {
            span: self.span,
            name: self.name.clone(),
            hidden: self.hidden,
            typ: self.typ,
            ctors,
        }
    }
}

impl Clone for Codata {
    fn clone(&self) -> (r: Self)
        ensures
            r@ == self@,
    {
        let dtors = self.dtors.clone();
        proof {
            assert(dtors@ =~= self.dtors@);
        }
        Codata {
            span: self.span,
            name: self.name.clone(),
            hidden: self.hidden,
            typ: self.typ,
            dtors,
        }
    }
}

impl Clone for Ctor {
    fn clone(&self) -> (r: Self)
        ensures
            r@ == self@,
    {
        Ctor { span: self.span, name: self.name.clone(), n_params: self.n_params }
    }
}

impl Clone for Dtor {
    fn clone(&self) -> (r: Self)
        ensures
            r@ == self@,
    {
        Dtor {
            span: self.span,
            name: self.name.clone(),
            self_typ: self.self_typ.clone(),
            n_params: self.n_params,
        }
    }
}

impl Clone for Def {
    fn clone(&self) -> (r: Self)
        ensures
            r@ == self@,
    {
        Def {
            span: self.span,
            name: self.name.clone(),
            hidden: self.hidden,
            self_typ: self.self_typ.clone(),
            n_params: self.n_params,
            body: self.body.clone(),
        }
    }
}

impl Clone for Codef {
    fn clone(&self) -> (r: Self)
        ensures
            r@ == self@,
    {
        Codef {
            span: self.span,
            name: self.name.clone(),
            hidden: self.hidden,
            typ_name: self.typ_name.clone(),
            n_params: self.n_params,
            body: self.body.clone(),
        }
    }
}

impl Clone for Decl {
    fn clone(&self) -> (r: Self)
        ensures
            r@ == self@,
    {
        match self {
            Decl::Data(d) => Decl::Data(d.clone()),
            Decl::Codata(d) => Decl::Codata(d.clone()),
            Decl::Def(d) => Decl::Def(d.clone()),
            Decl::Codef(d) => Decl::Codef(d.clone()),
            Decl::Ctor(d) => Decl::Ctor(d.clone()),
            Decl::Dtor(d) => Decl::Dtor(d.clone()),
        }
    }
}

impl Decl {
    /// The name this declaration binds.
    pub fn name_of(&self) -> (r: &String)
        ensures
            r@ == decl_name_s(self@),
    {
        match self {
            Decl::Data(d) => &d.name,
            Decl::Codata(d) => &d.name,
            Decl::Def(d) => &d.name,
            Decl::Codef(d) => &d.name,
            Decl::Ctor(d) => &d.name,
            Decl::Dtor(d) => &d.name,
        }
    }
}


} // verus!

verus! {

use crate::outside::str_eq;

/// A resolved type declaration: either data or codata.
#[derive(Debug)]
pub enum Type {
    Data(Data),
    Codata(Codata),
}

/// Mathematical model of a resolved type declaration.
pub enum TypeS {
    Data(DataS),
    Codata(CodataS),
}

impl View for Type {
    type V = TypeS;

    open spec fn view(&self) -> TypeS {
        match self {
            Type::Data(d) => TypeS::Data(d@),
            Type::Codata(d) => TypeS::Codata(d@),
        }
    }
}

/// The name of a resolved type declaration.
pub open spec fn type_name_s(t: TypeS) -> Seq<char> {
    match t {
        TypeS::Data(d) => d.name,
        TypeS::Codata(d) => d.name,
    }
}

/// The type-level signature of a resolved type declaration.
pub open spec fn type_typ_s(t: TypeS) -> TypAbs {
    match t {
        TypeS::Data(d) => d.typ,
        TypeS::Codata(d) => d.typ,
    }
}

impl Type {
    /// The name of the type declaration.
    pub fn name(&self) -> (r: &String)
        ensures
            r@ == type_name_s(self@),
    {
        match self {
            Type::Data(d) => &d.name,
            Type::Codata(d) => &d.name,
        }
    }

    /// The type-level signature of the declaration.
    pub fn typ(&self) -> (r: TypAbs)
        ensures
            r == type_typ_s(self@),
    {
        match self {
            Type::Data(d) => d.typ,
            Type::Codata(d) => d.typ,
        }
    }
}

/// An entry yielded when walking a module's top-level items in source order:
/// type declarations and (co)definitions, but not their xtors.
#[derive(Debug)]
pub enum Item {
    Data(Data),
    Codata(Codata),
    Def(Def),
    Codef(Codef),
}

/// Mathematical model of a walked item.
pub enum ItemS {
    Data(DataS),
    Codata(CodataS),
    Def(DefS),
    Codef(CodefS),
}

impl View for Item {
    type V = ItemS;

    open spec fn view(&self) -> ItemS {
        match self {
            Item::Data(d) => ItemS::Data(d@),
            Item::Codata(d) => ItemS::Codata(d@),
            Item::Def(d) => ItemS::Def(d@),
            Item::Codef(d) => ItemS::Codef(d@),
        }
    }
}

impl DeepView for Item {
    type V = ItemS;

    open spec fn deep_view(&self) -> ItemS {
        self.view()
    }
}

/// Whether the item is hidden from listings.
pub open spec fn item_hidden_s(it: ItemS) -> bool {
    match it {
        ItemS::Data(d) => d.hidden,
        ItemS::Codata(d) => d.hidden,
        ItemS::Def(d) => d.hidden,
        ItemS::Codef(d) => d.hidden,
    }
}

impl Item {
    /// Whether the item is hidden from listings.
    pub fn hidden(&self) -> (b: bool)
        ensures
            b == item_hidden_s(self@),
    {
        match self {
            Item::Data(d) => d.hidden,
            Item::Codata(d) => d.hidden,
            Item::Def(d) => d.hidden,
            Item::Codef(d) => d.hidden,
        }
    }
}

impl Decl {
    /// The kind of this declaration.
    pub fn kind(&self) -> (k: DeclKind)
        ensures
            k == decl_kind_s(self@),
    {
        match self {
            Decl::Data(_) => DeclKind::Data,
            Decl::Codata(_) => DeclKind::Codata,
            Decl::Def(_) => DeclKind::Def,
            Decl::Codef(_) => DeclKind::Codef,
            Decl::Ctor(_) => DeclKind::Ctor,
            Decl::Dtor(_) => DeclKind::Dtor,
        }
    }
}

impl Codef {
    /// The constructor shape of this co-definition: during evaluation a codef
    /// call packages as a constructor value.
    pub fn to_ctor(&self) -> (r: Ctor)
        ensures
            r@ == codef_to_ctor_s(self@),
    {
        Ctor { span: self.span, name: self.name.clone(), n_params: self.n_params }
    }
}

/// The constructor shape of a co-definition.
pub open spec fn codef_to_ctor_s(c: CodefS) -> CtorS {
    CtorS { span: c.span, name: c.name, n_params: c.n_params }
}

impl Def {
    /// The destructor shape of this definition: a def eliminates its data
    /// type the way a destructor eliminates its codata type.
    pub fn to_dtor(&self) -> (r: Dtor)
        ensures
            r@ == def_to_dtor_s(self@),
    {
        Dtor {
            span: self.span,
            name: self.name.clone(),
            self_typ: self.self_typ.clone(),
            n_params: self.n_params,
        }
    }
}

/// The destructor shape of a definition.
pub open spec fn def_to_dtor_s(d: DefS) -> DtorS {
    DtorS { span: d.span, name: d.name, self_typ: d.self_typ, n_params: d.n_params }
}

/// Resolving a name to any declaration.
pub open spec fn decl_res_s(ds: Seq<DeclS>, name: Seq<char>, span: Option<Span>) -> Result<
    DeclS,
    LookupErrorS,
> {
    match find_decl_s(ds, name) {
        Some(d) => Ok(d),
        None => Err(LookupErrorS::UndefinedDeclaration { name, span }),
    }
}

/// Resolving a name to a type declaration.
pub open spec fn typ_res_s(ds: Seq<DeclS>, name: Seq<char>, span: Option<Span>) -> Result<
    TypeS,
    LookupErrorS,
> {
    match decl_res_s(ds, name, span) {
        Err(e) => Err(e),
        Ok(d) => match d {
            DeclS::Data(x) => Ok(TypeS::Data(x)),
            DeclS::Codata(x) => Ok(TypeS::Codata(x)),
            _ => Err(LookupErrorS::InvalidDeclarationKind {
                name,
                expected: seq![DeclKind::Data, DeclKind::Codata],
                actual: decl_kind_s(d),
                span,
            }),
        },
    }
}

/// Resolving a name to a data declaration.
pub open spec fn data_res_s(ds: Seq<DeclS>, name: Seq<char>, span: Option<Span>) -> Result<
    DataS,
    LookupErrorS,
> {
    match decl_res_s(ds, name, span) {
        Err(e) => Err(e),
        Ok(d) => match d {
            DeclS::Data(x) => Ok(x),
            _ => Err(LookupErrorS::InvalidDeclarationKind {
                name,
                expected: seq![DeclKind::Data],
                actual: decl_kind_s(d),
                span,
            }),
        },
    }
}

/// Resolving a name to a codata declaration.
pub open spec fn codata_res_s(ds: Seq<DeclS>, name: Seq<char>, span: Option<Span>) -> Result<
    CodataS,
    LookupErrorS,
> {
    match decl_res_s(ds, name, span) {
        Err(e) => Err(e),
        Ok(d) => match d {
            DeclS::Codata(x) => Ok(x),
            _ => Err(LookupErrorS::InvalidDeclarationKind {
                name,
                expected: seq![DeclKind::Codata],
                actual: decl_kind_s(d),
                span,
            }),
        },
    }
}

/// Resolving a name to a definition.
pub open spec fn def_res_s(ds: Seq<DeclS>, name: Seq<char>, span: Option<Span>) -> Result<
    DefS,
    LookupErrorS,
> {
    match decl_res_s(ds, name, span) {
        Err(e) => Err(e),
        Ok(d) => match d {
            DeclS::Def(x) => Ok(x),
            _ => Err(LookupErrorS::InvalidDeclarationKind {
                name,
                expected: seq![DeclKind::Def],
                actual: decl_kind_s(d),
                span,
            }),
        },
    }
}

/// Resolving a name to a co-definition.
pub open spec fn codef_res_s(ds: Seq<DeclS>, name: Seq<char>, span: Option<Span>) -> Result<
    CodefS,
    LookupErrorS,
> {
    match decl_res_s(ds, name, span) {
        Err(e) => Err(e),
        Ok(d) => match d {
            DeclS::Codef(x) => Ok(x),
            _ => Err(LookupErrorS::InvalidDeclarationKind {
                name,
                expected: seq![DeclKind::Codef],
                actual: decl_kind_s(d),
                span,
            }),
        },
    }
}

/// Resolving a name to a constructor.
pub open spec fn ctor_res_s(ds: Seq<DeclS>, name: Seq<char>, span: Option<Span>) -> Result<
    CtorS,
    LookupErrorS,
> {
    match decl_res_s(ds, name, span) {
        Err(e) => Err(e),
        Ok(d) => match d {
            DeclS::Ctor(x) => Ok(x),
            _ => Err(LookupErrorS::InvalidDeclarationKind {
                name,
                expected: seq![DeclKind::Ctor],
                actual: decl_kind_s(d),
                span,
            }),
        },
    }
}

/// Resolving a name to a destructor.
pub open spec fn dtor_res_s(ds: Seq<DeclS>, name: Seq<char>, span: Option<Span>) -> Result<
    DtorS,
    LookupErrorS,
> {
    match decl_res_s(ds, name, span) {
        Err(e) => Err(e),
        Ok(d) => match d {
            DeclS::Dtor(x) => Ok(x),
            _ => Err(LookupErrorS::InvalidDeclarationKind {
                name,
                expected: seq![DeclKind::Dtor],
                actual: decl_kind_s(d),
                span,
            }),
        },
    }
}

/// Resolving a name to a constructor, viewing a co-definition as the
/// constructor it packages as.
pub open spec fn ctor_or_codef_res_s(ds: Seq<DeclS>, name: Seq<char>, span: Option<Span>) -> Result<
    CtorS,
    LookupErrorS,
> {
    match decl_res_s(ds, name, span) {
        Err(e) => Err(e),
        Ok(d) => match d {
            DeclS::Ctor(x) => Ok(x),
            DeclS::Codef(x) => Ok(codef_to_ctor_s(x)),
            _ => Err(LookupErrorS::InvalidDeclarationKind {
                name,
                expected: seq![DeclKind::Ctor, DeclKind::Codef],
                actual: decl_kind_s(d),
                span,
            }),
        },
    }
}

/// Resolving a name to a destructor, viewing a definition as the destructor
/// it acts as.
pub open spec fn dtor_or_def_res_s(ds: Seq<DeclS>, name: Seq<char>, span: Option<Span>) -> Result<
    DtorS,
    LookupErrorS,
> {
    match decl_res_s(ds, name, span) {
        Err(e) => Err(e),
        Ok(d) => match d {
            DeclS::Dtor(x) => Ok(x),
            DeclS::Def(x) => Ok(def_to_dtor_s(x)),
            _ => Err(LookupErrorS::InvalidDeclarationKind {
                name,
                expected: seq![DeclKind::Dtor, DeclKind::Def],
                actual: decl_kind_s(d),
                span,
            }),
        },
    }
}

/// Resolving the type declaration that owns a member: first through the xtor
/// index, then through the xdef index.
pub open spec fn type_decl_for_member_res_s(
    ds: Seq<DeclS>,
    name: Seq<char>,
    span: Option<Span>,
) -> Result<TypeS, LookupErrorS> {
    match xtor_owner_s(ds, name) {
        Some(t) => typ_res_s(ds, t, None),
        None => match xdef_owner_s(ds, name) {
            Some(t) => typ_res_s(ds, t, None),
            None => Err(LookupErrorS::MissingTypeDeclaration { name, span }),
        },
    }
}

/// The constructor or destructor names of the type `t`, in declaration order.
pub open spec fn xtors_for_type_s(ds: Seq<DeclS>, t: Seq<char>) -> Seq<Seq<char>> {
    match find_decl_s(ds, t) {
        Some(DeclS::Data(x)) => x.ctors,
        Some(DeclS::Codata(x)) => x.dtors,
        _ => Seq::empty(),
    }
}

/// The names of the (co)definitions that target the type `t`, in source order.
pub open spec fn xdefs_for_type_s(ds: Seq<DeclS>, t: Seq<char>) -> Seq<Seq<char>>
    decreases ds.len(),
{
    if ds.len() == 0 {
        Seq::empty()
    } else {
        xdefs_for_type_s(ds.drop_last(), t) + (match ds.last() {
            DeclS::Def(d) => if d.self_typ == t {
                seq![d.name]
            } else {
                Seq::empty()
            },
            DeclS::Codef(d) => if d.typ_name == t {
                seq![d.name]
            } else {
                Seq::empty()
            },
            _ => Seq::empty(),
        })
    }
}

/// The walkable items of the module, in source order: type declarations and
/// (co)definitions, with xtor entries left out.
pub open spec fn items_s(ds: Seq<DeclS>) -> Seq<ItemS>
    decreases ds.len(),
{
    if ds.len() == 0 {
        Seq::empty()
    } else {
        items_s(ds.drop_last()) + (match ds.last() {
            DeclS::Data(d) => seq![ItemS::Data(d)],
            DeclS::Codata(d) => seq![ItemS::Codata(d)],
            DeclS::Def(d) => seq![ItemS::Def(d)],
            DeclS::Codef(d) => seq![ItemS::Codef(d)],
            _ => Seq::empty(),
        })
    }
}

/// Whether a vector of names holds `name`.
fn names_contain(v: &Vec<String>, name: &str) -> (b: bool)
    ensures
        b == v.deep_view().contains(name@),
{
    let mut i: usize = 0;
    while i < v.len()
        invariant
            i <= v.len(),
            forall|j: int| 0 <= j < i ==> v.deep_view()[j] != name@,
        decreases v.len() - i,
    {
        if str_eq(v[i].as_str(), name) {
            proof {
                assert(v.deep_view()[i as int] == name@);
            }
            return true;
        }
        i += 1;
    }
    proof {
        assert(!v.deep_view().contains(name@)) by {
            if exists|k: int|
                0 <= k < v.deep_view().len() && v.deep_view()[k] == name@ {
                let k = choose|k: int|
                    0 <= k < v.deep_view().len() && v.deep_view()[k] == name@;
                assert(v.deep_view()[k] != name@);
            }
        };
    }
    false
}

impl Decls {
    /// The empty declaration table.
    pub fn empty() -> (d: Decls)
        ensures
            d@ == Seq::<DeclS>::empty(),
    {
        let d = Decls { decls: Vec::new() };
        proof {
            assert(d@ =~= Seq::<DeclS>::empty());
        }
        d
    }

    /// Whether the table holds no declaration.
    pub fn is_empty(&self) -> (b: bool)
        ensures
            b == (self@.len() == 0),
    {
        self.decls.len() == 0
    }

    /// The position of the declaration bound to `name`, if any.
    fn find_index(&self, name: &str) -> (r: Option<usize>)
        ensures
            (match r {
                Some(i) => i < self.decls@.len() && find_decl_s(self@, name@) == Some(
                    self@[i as int],
                ),
                None => find_decl_s(self@, name@) is None,
            }),
    {
        let mut i: usize = 0;
        while i < self.decls.len()
            invariant
                i <= self.decls@.len(),
                forall|j: int| 0 <= j < i ==> decl_name_s(#[trigger] self@[j]) != name@,
            decreases self.decls@.len() - i,
        {
            if str_eq(self.decls[i].name_of().as_str(), name) {
                proof {
                    lemma_find_decl_skip(self@, name@, i as int);
                    assert(self@.skip(i as int)[0] == self@[i as int]);
                }
                return Some(i);
            }
            i += 1;
        }
        proof {
            lemma_find_decl_skip(self@, name@, self@.len() as int);
            assert(self@.skip(self@.len() as int) =~= Seq::<DeclS>::empty());
        }
        None
    }

    /// Resolve `name` to a type declaration, data or codata.
    pub fn typ(&self, name: &str, span: Option<Span>) -> (r: Result<Type, LookupError>)
        ensures
            (match r {
                Ok(t) => Ok::<TypeS, LookupErrorS>(t@),
                Err(e) => Err(e@),
            }) == typ_res_s(self@, name@, span),
    {
        match self.find_index(name) {
            None => Err(LookupError::UndefinedDeclaration { name: name.to_owned(), span }),
            Some(i) => match &self.decls[i] {
                Decl::Data(d) => Ok(Type::Data(d.clone())),
                Decl::Codata(d) => Ok(Type::Codata(d.clone())),
                other => Err(LookupError::InvalidDeclarationKind {
                    name: name.to_owned(),
                    expected: AnyOf::two(DeclKind::Data, DeclKind::Codata),
                    actual: other.kind(),
                    span,
                }),
            },
        }
    }

    /// Resolve `name` to a data declaration.
    pub fn data(&self, name: &str, span: Option<Span>) -> (r: Result<Data, LookupError>)
        ensures
            (match r {
                Ok(d) => Ok::<DataS, LookupErrorS>(d@),
                Err(e) => Err(e@),
            }) == data_res_s(self@, name@, span),
    {
        match self.find_index(name) {
            None => Err(LookupError::UndefinedDeclaration { name: name.to_owned(), span }),
            Some(i) => match &self.decls[i] {
                Decl::Data(d) => Ok(d.clone()),
                other => Err(LookupError::InvalidDeclarationKind {
                    name: name.to_owned(),
                    expected: AnyOf::one(DeclKind::Data),
                    actual: other.kind(),
                    span,
                }),
            },
        }
    }

    /// Resolve `name` to a codata declaration.
    pub fn codata(&self, name: &str, span: Option<Span>) -> (r: Result<Codata, LookupError>)
        ensures
            (match r {
                Ok(d) => Ok::<CodataS, LookupErrorS>(d@),
                Err(e) => Err(e@),
            }) == codata_res_s(self@, name@, span),
    {
        match self.find_index(name) {
            None => Err(LookupError::UndefinedDeclaration { name: name.to_owned(), span }),
            Some(i) => match &self.decls[i] {
                Decl::Codata(d) => Ok(d.clone()),
                other => Err(LookupError::InvalidDeclarationKind {
                    name: name.to_owned(),
                    expected: AnyOf::one(DeclKind::Codata),
                    actual: other.kind(),
                    span,
                }),
            },
        }
    }

    /// Resolve `name` to a definition.
    pub fn def(&self, name: &str, span: Option<Span>) -> (r: Result<Def, LookupError>)
        ensures
            (match r {
                Ok(d) => Ok::<DefS, LookupErrorS>(d@),
                Err(e) => Err(e@),
            }) == def_res_s(self@, name@, span),
    {
        match self.find_index(name) {
            None => Err(LookupError::UndefinedDeclaration { name: name.to_owned(), span }),
            Some(i) => match &self.decls[i] {
                Decl::Def(d) => Ok(d.clone()),
                other => Err(LookupError::InvalidDeclarationKind {
                    name: name.to_owned(),
                    expected: AnyOf::one(DeclKind::Def),
                    actual: other.kind(),
                    span,
                }),
            },
        }
    }

    /// Resolve `name` to a co-definition.
    pub fn codef(&self, name: &str, span: Option<Span>) -> (r: Result<Codef, LookupError>)
        ensures
            (match r {
                Ok(d) => Ok::<CodefS, LookupErrorS>(d@),
                Err(e) => Err(e@),
            }) == codef_res_s(self@, name@, span),
    {
        match self.find_index(name) {
            None => Err(LookupError::UndefinedDeclaration { name: name.to_owned(), span }),
            Some(i) => match &self.decls[i] {
                Decl::Codef(d) => Ok(d.clone()),
                other => Err(LookupError::InvalidDeclarationKind {
                    name: name.to_owned(),
                    expected: AnyOf::one(DeclKind::Codef),
                    actual: other.kind(),
                    span,
                }),
            },
        }
    }

    /// Resolve `name` to a constructor.
    pub fn ctor(&self, name: &str, span: Option<Span>) -> (r: Result<Ctor, LookupError>)
        ensures
            (match r {
                Ok(d) => Ok::<CtorS, LookupErrorS>(d@),
                Err(e) => Err(e@),
            }) == ctor_res_s(self@, name@, span),
    {
        match self.find_index(name) {
            None => Err(LookupError::UndefinedDeclaration { name: name.to_owned(), span }),
            Some(i) => match &self.decls[i] {
                Decl::Ctor(d) => Ok(d.clone()),
                other => Err(LookupError::InvalidDeclarationKind {
                    name: name.to_owned(),
                    expected: AnyOf::one(DeclKind::Ctor),
                    actual: other.kind(),
                    span,
                }),
            },
        }
    }

    /// Resolve `name` to a destructor.
    pub fn dtor(&self, name: &str, span: Option<Span>) -> (r: Result<Dtor, LookupError>)
        ensures
            (match r {
                Ok(d) => Ok::<DtorS, LookupErrorS>(d@),
                Err(e) => Err(e@),
            }) == dtor_res_s(self@, name@, span),
    {
        match self.find_index(name) {
            None => Err(LookupError::UndefinedDeclaration { name: name.to_owned(), span }),
            Some(i) => match &self.decls[i] {
                Decl::Dtor(d) => Ok(d.clone()),
                other => Err(LookupError::InvalidDeclarationKind {
                    name: name.to_owned(),
                    expected: AnyOf::one(DeclKind::Dtor),
                    actual: other.kind(),
                    span,
                }),
            },
        }
    }

    /// Resolve `name` to a constructor, accepting a co-definition in its
    /// constructor shape.
    pub fn ctor_or_codef(&self, name: &str, span: Option<Span>) -> (r: Result<Ctor, LookupError>)
        ensures
            (match r {
                Ok(d) => Ok::<CtorS, LookupErrorS>(d@),
                Err(e) => Err(e@),
            }) == ctor_or_codef_res_s(self@, name@, span),
    {
        match self.find_index(name) {
            None => Err(LookupError::UndefinedDeclaration { name: name.to_owned(), span }),
            Some(i) => match &self.decls[i] {
                Decl::Ctor(d) => Ok(d.clone()),
                Decl::Codef(d) => Ok(d.to_ctor()),
                other => Err(LookupError::InvalidDeclarationKind {
                    name: name.to_owned(),
                    expected: AnyOf::two(DeclKind::Ctor, DeclKind::Codef),
                    actual: other.kind(),
                    span,
                }),
            },
        }
    }

    /// Resolve `name` to a destructor, accepting a definition in its
    /// destructor shape.
    pub fn dtor_or_def(&self, name: &str, span: Option<Span>) -> (r: Result<Dtor, LookupError>)
        ensures
            (match r {
                Ok(d) => Ok::<DtorS, LookupErrorS>(d@),
                Err(e) => Err(e@),
            }) == dtor_or_def_res_s(self@, name@, span),
    {
        match self.find_index(name) {
            None => Err(LookupError::UndefinedDeclaration { name: name.to_owned(), span }),
            Some(i) => match &self.decls[i] {
                Decl::Dtor(d) => Ok(d.clone()),
                Decl::Def(d) => Ok(d.to_dtor()),
                other => Err(LookupError::InvalidDeclarationKind {
                    name: name.to_owned(),
                    expected: AnyOf::two(DeclKind::Dtor, DeclKind::Def),
                    actual: other.kind(),
                    span,
                }),
            },
        }
    }
}

} // verus!

verus! {

use crate::outside::str_eq as names_eq;

/// Resolving a constructor name to the data type that owns it.
pub open spec fn data_for_ctor_res_s(ds: Seq<DeclS>, name: Seq<char>, span: Option<Span>) -> Result<
    DataS,
    LookupErrorS,
> {
    match ctor_res_s(ds, name, span) {
        Err(e) => Err(e),
        Ok(_) => match xtor_owner_s(ds, name) {
            None => Err(LookupErrorS::MissingTypeDeclaration { name, span }),
            Some(t) => data_res_s(ds, t, None),
        },
    }
}

/// Resolving a destructor name to the codata type that owns it.
pub open spec fn codata_for_dtor_res_s(
    ds: Seq<DeclS>,
    name: Seq<char>,
    span: Option<Span>,
) -> Result<CodataS, LookupErrorS> {
    match dtor_res_s(ds, name, span) {
        Err(e) => Err(e),
        Ok(_) => match xtor_owner_s(ds, name) {
            None => Err(LookupErrorS::MissingTypeDeclaration { name, span }),
            Some(t) => codata_res_s(ds, t, None),
        },
    }
}

impl Decls {
    /// The type name that owns `name` as a constructor or destructor, if any.
    fn xtor_owner(&self, name: &str) -> (r: Option<String>)
        ensures
            (match r {
                Some(t) => Some(t@),
                None => None::<Seq<char>>,
            }) == xtor_owner_s(self@, name@),
    {
        let mut i: usize = 0;
        while i < self.decls.len()
            invariant
                i <= self.decls@.len(),
                forall|j: int| 0 <= j < i ==> !owns_xtor(#[trigger] self@[j], name@),
            decreases self.decls@.len() - i,
        {
            match &self.decls[i] {
                Decl::Data(d) => {
                    if names_contain(&d.ctors, name) {
                        proof {
                            lemma_xtor_owner_skip(self@, name@, i as int);
                            assert(self@.skip(i as int)[0] == self@[i as int]);
                            assert(owns_xtor(self@[i as int], name@));
                        }
                        return Some(d.name.clone());
                    }
                },
                Decl::Codata(d) => {
                    if names_contain(&d.dtors, name) {
                        proof {
                            lemma_xtor_owner_skip(self@, name@, i as int);
                            assert(self@.skip(i as int)[0] == self@[i as int]);
                            assert(owns_xtor(self@[i as int], name@));
                        }
                        return Some(d.name.clone());
                    }
                },
                _ => {},
            }
            i += 1;
        }
        proof {
            lemma_xtor_owner_skip(self@, name@, self@.len() as int);
            assert(self@.skip(self@.len() as int) =~= Seq::<DeclS>::empty());
        }
        None
    }

    /// The type name that the definition or co-definition `name` targets, if
    /// any.
    fn xdef_owner(&self, name: &str) -> (r: Option<String>)
        ensures
            (match r {
                Some(t) => Some(t@),
                None => None::<Seq<char>>,
            }) == xdef_owner_s(self@, name@),
    {
        match self.find_index(name) {
            None => None,
            Some(i) => match &self.decls[i] {
                Decl::Def(d) => Some(d.self_typ.clone()),
                Decl::Codef(d) => Some(d.typ_name.clone()),
                _ => None,
            },
        }
    }

    /// Resolve the type declaration that owns the member `name`: first as an
    /// xtor, then as an xdef.
    pub fn type_decl_for_member(&self, name: &str, span: Option<Span>) -> (r: Result<
        Type,
        LookupError,
    >)
        ensures
            (match r {
                Ok(t) => Ok::<TypeS, LookupErrorS>(t@),
                Err(e) => Err(e@),
            }) == type_decl_for_member_res_s(self@, name@, span),
    {
        match self.xtor_owner(name) {
            Some(t) => self.typ(t.as_str(), None),
            None => match self.xdef_owner(name) {
                Some(t) => self.typ(t.as_str(), None),
                None => Err(LookupError::MissingTypeDeclaration { name: name.to_owned(), span }),
            },
        }
    }

    /// Resolve the constructor `name` and the data type it belongs to.
    pub fn data_for_ctor(&self, name: &str, span: Option<Span>) -> (r: Result<Data, LookupError>)
        ensures
            (match r {
                Ok(d) => Ok::<DataS, LookupErrorS>(d@),
                Err(e) => Err(e@),
            }) == data_for_ctor_res_s(self@, name@, span),
    {
        match self.ctor(name, span) {
            Err(e) => Err(e),
            Ok(_) => match self.xtor_owner(name) {
                None => Err(LookupError::MissingTypeDeclaration { name: name.to_owned(), span }),
                Some(t) => self.data(t.as_str(), None),
            },
        }
    }

    /// Resolve the destructor `name` and the codata type it belongs to.
    pub fn codata_for_dtor(&self, name: &str, span: Option<Span>) -> (r: Result<
        Codata,
        LookupError,
    >)
        ensures
            (match r {
                Ok(d) => Ok::<CodataS, LookupErrorS>(d@),
                Err(e) => Err(e@),
            }) == codata_for_dtor_res_s(self@, name@, span),
    {
        match self.dtor(name, span) {
            Err(e) => Err(e),
            Ok(_) => match self.xtor_owner(name) {
                None => Err(LookupError::MissingTypeDeclaration { name: name.to_owned(), span }),
                Some(t) => self.codata(t.as_str(), None),
            },
        }
    }

    /// The constructor or destructor names of the type `name`, in declaration
    /// order; empty when `name` is not a type declaration.
    pub fn xtors_for_type(&self, name: &str) -> (r: Vec<String>)
        ensures
            r.deep_view() == xtors_for_type_s(self@, name@),
    {
        match self.find_index(name) {
            Some(i) => match &self.decls[i] {
                Decl::Data(d) => {
                    let c = d.ctors.clone();
                    proof {
                        assert(c@ =~= d.ctors@);
                        assert(c.deep_view() =~= d.ctors.deep_view());
                    }
                    c
                },
                Decl::Codata(d) => {
                    let c = d.dtors.clone();
                    proof {
                        assert(c@ =~= d.dtors@);
                        assert(c.deep_view() =~= d.dtors.deep_view());
                    }
                    c
                },
                _ => {
                    let v: Vec<String> = Vec::new();
                    proof {
                        assert(v.deep_view() =~= Seq::<Seq<char>>::empty());
                    }
                    v
                },
            },
            None => {
                let v: Vec<String> = Vec::new();
                proof {
                    assert(v.deep_view() =~= Seq::<Seq<char>>::empty());
                }
                v
            },
        }
    }

    /// The names of the (co)definitions that target the type `name`, in
    /// source order.
    pub fn xdefs_for_type(&self, name: &str) -> (r: Vec<String>)
        ensures
            r.deep_view() == xdefs_for_type_s(self@, name@),
    {
        let mut r: Vec<String> = Vec::new();
        proof {
            assert(r.deep_view() =~= xdefs_for_type_s(self@.take(0), name@));
        }
        let mut i: usize = 0;
        while i < self.decls.len()
            invariant
                i <= self.decls@.len(),
                r.deep_view() == xdefs_for_type_s(self@.take(i as int), name@),
            decreases self.decls@.len() - i,
        {
            match &self.decls[i] {
                Decl::Def(d) => if names_eq(d.self_typ.as_str(), name) {
                    r.push(d.name.clone());
                },
                Decl::Codef(d) => if names_eq(d.typ_name.as_str(), name) {
                    r.push(d.name.clone());
                },
                _ => {},
            }
            i += 1;
            proof {
                assert(self@.take(i as int).drop_last() =~= self@.take(i - 1));
                assert(self@.take(i as int).last() == self@[i - 1]);
                assert(r.deep_view() =~= xdefs_for_type_s(self@.take(i as int), name@));
            }
        }
        proof {
            assert(self@.take(self@.len() as int) =~= self@);
        }
        r
    }

    /// Walk the module's items in source order: type declarations and
    /// (co)definitions.
    pub fn iter(&self) -> (r: Vec<Item>)
        ensures
            r.deep_view() == items_s(self@),
    {
        let mut r: Vec<Item> = Vec::new();
        proof {
            assert(r.deep_view() =~= items_s(self@.take(0)));
        }
        let mut i: usize = 0;
        while i < self.decls.len()
            invariant
                i <= self.decls@.len(),
                r.deep_view() == items_s(self@.take(i as int)),
            decreases self.decls@.len() - i,
        {
            match &self.decls[i] {
                Decl::Data(d) => r.push(Item::Data(d.clone())),
                Decl::Codata(d) => r.push(Item::Codata(d.clone())),
                Decl::Def(d) => r.push(Item::Def(d.clone())),
                Decl::Codef(d) => r.push(Item::Codef(d.clone())),
                _ => {},
            }
            i += 1;
            proof {
                assert(self@.take(i as int).drop_last() =~= self@.take(i - 1));
                assert(self@.take(i as int).last() == self@[i - 1]);
                assert(r.deep_view() =~= items_s(self@.take(i as int)));
            }
        }
        proof {
            assert(self@.take(self@.len() as int) =~= self@);
        }
        r
    }
}

} // verus!

verus! {

use crate::strings::{join_sep, separated};
use vstd::string::StringExecFns;

/// The word naming a declaration kind in diagnostics.
pub open spec fn kind_text_s(k: DeclKind) -> Seq<char> {
    match k {
        DeclKind::Data => "data"@,
        DeclKind::Codata => "codata"@,
        DeclKind::Def => "def"@,
        DeclKind::Codef => "codef"@,
        DeclKind::Ctor => "constructor"@,
        DeclKind::Dtor => "destructor"@,
    }
}

/// The words of a list of declaration kinds.
pub open spec fn kind_texts_s(ks: Seq<DeclKind>) -> Seq<Seq<char>>
    decreases ks.len(),
{
    if ks.len() == 0 {
        Seq::empty()
    } else {
        kind_texts_s(ks.drop_last()).push(kind_text_s(ks.last()))
    }
}

/// The rendered disjunction: nothing when empty, the word alone for one
/// alternative, else all but the last comma-separated and the last joined
/// with `" or "`.
pub open spec fn any_of_text_s(ks: Seq<DeclKind>) -> Seq<char> {
    if ks.len() == 0 {
        ""@
    } else if ks.len() == 1 {
        kind_text_s(ks[0])
    } else {
        join_sep(", "@, kind_texts_s(ks.drop_last())) + " or "@ + kind_text_s(ks.last())
    }
}

impl DeclKind {
    /// The word naming this kind in diagnostics.
    pub fn text(&self) -> (r: &'static str)
        ensures
            r@ == kind_text_s(*self),
    {
        match self {
            DeclKind::Data => "data",
            DeclKind::Codata => "codata",
            DeclKind::Def => "def",
            DeclKind::Codef => "codef",
            DeclKind::Ctor => "constructor",
            DeclKind::Dtor => "destructor",
        }
    }
}

impl AnyOf<DeclKind> {
    /// Render the admissible alternatives as one phrase.
    pub fn to_text(&self) -> (r: String)
        ensures
            r@ == any_of_text_s(self@),
    {
        if self.0.len() == 0 {
            proof {
                reveal_strlit("");
                assert(""@ =~= Seq::<char>::empty());
            }
            String::new()
        } else if self.0.len() == 1 {
            self.0[0].text().to_owned()
        } else {
            let mut texts: Vec<String> = Vec::new();
            proof {
                assert(self.0@.take(0) =~= Seq::<DeclKind>::empty());
                assert(texts.deep_view() =~= kind_texts_s(self.0@.take(0)));
            }
            let mut i: usize = 0;
            while i < self.0.len() - 1
                invariant
                    i <= self.0@.len() - 1,
                    self.0@.len() >= 2,
                    texts.deep_view() == kind_texts_s(self.0@.take(i as int)),
                decreases self.0@.len() - i,
            {
                let ghost prev = texts@;
                texts.push(self.0[i].text().to_owned());
                i += 1;
                proof {
                    assert(self.0@.take(i as int).drop_last() =~= self.0@.take(i - 1));
                    assert(self.0@.take(i as int).last() == self.0@[i - 1]);
                    assert(texts@.drop_last() =~= prev);
                    assert(texts.deep_view() =~= kind_texts_s(self.0@.take(i as int)));
                }
            }
            proof {
                assert(self.0@.take(self.0@.len() - 1) =~= self.0@.drop_last());
            }
            let mut s = separated(", ", &texts);
            s.append(" or ");
            s.append(self.0[self.0.len() - 1].text());
            proof {
                assert(self.0@.last() == self.0@[self.0@.len() - 1]);
            }
            s
        }
    }
}

} // verus!
