use vstd::prelude::*;

use crate::span::Span;

verus! {

/// The information attached to an untyped node: its source location, if any.
#[derive(Clone, Copy, PartialEq, Eq, Structural, Debug, Default)]
pub struct Info {
    pub span: Option<Span>,
}

impl Info {
    /// An info without a source location.
    pub fn empty() -> (r: Info)
        ensures
            r.span is None,
    {
        Info { span: None }
    }

    /// The source location, if any.
    pub fn span(&self) -> (r: Option<Span>)
        ensures
            r == self.span,
    {
        self.span
    }
}

} // verus!

verus! {

use crate::ast;
use crate::ast::view_exp;
use crate::nf;

/// An inferred type: a term standing in type position.
#[derive(Debug)]
pub struct Typ(pub Box<ast::Exp>);

impl View for Typ {
    type V = ast::ExpS;

    open spec fn view(&self) -> ast::ExpS {
        view_exp(*self.0)
    }
}

impl Typ {
    /// Wrap a term as an inferred type.
    pub fn from_exp(exp: Box<ast::Exp>) -> (r: Typ)
        ensures
            r@ == view_exp(*exp),
    {
        Typ(exp)
    }

    /// The term this type is.
    pub fn as_exp(&self) -> (r: &ast::Exp)
        ensures
            r@ == self@,
    {
        &self.0
    }
}

/// The information attached to a typed node: its inferred type in normal
/// form, and its source location.
#[derive(Debug)]
pub struct TypeInfo {
    pub typ: Box<nf::Nf>,
    pub span: Option<Span>,
}

impl TypeInfo {
    /// The source location, if any.
    pub fn span(&self) -> (r: Option<Span>)
        ensures
            r == self.span,
    {
        self.span
    }
}

/// The information attached to a node whose type is a type-constructor
/// application.
#[derive(Debug)]
pub struct TypeAppInfo {
    pub typ_nf: Box<nf::Nf>,
    pub span: Option<Span>,
}

impl TypeAppInfo {
    /// The source location, if any.
    pub fn span(&self) -> (r: Option<Span>)
        ensures
            r == self.span,
    {
        self.span
    }
}

/// Access to the inferred type of a typed node.
pub trait HasTypeInfo {
    /// The inferred type, in normal form.
    fn typ(&self) -> &nf::Nf;
}

impl HasTypeInfo for TypeInfo {
    fn typ(&self) -> &nf::Nf {
        &self.typ
    }
}

impl HasTypeInfo for TypeAppInfo {
    fn typ(&self) -> &nf::Nf {
        &self.typ_nf
    }
}

} // verus!
