//! Read-only views of the syntactic tree: spans, identifiers, attributes and
//! the crate root.

use vstd::prelude::*;
use crate::tokens::TokenTree;

verus! {

/// A region of source text, as byte offsets, and whether it was produced by
/// the expansion of a macro defined outside the program under analysis.
#[derive(Clone, Copy, Debug, PartialEq, Eq, Structural)]
pub struct Span {
    pub lo: usize,
    pub hi: usize,
    pub from_external_macro: bool,
}

impl Span {
    /// A span written directly in the program's source.
    pub fn new(lo: usize, hi: usize) -> (r: Span)
        ensures
            r == (Span { lo, hi, from_external_macro: false }),
    {
        Span { lo, hi, from_external_macro: false }
    }

    /// The empty span at the end of `self`.
    pub fn shrink_to_hi(&self) -> (r: Span)
        ensures
            r == (Span { lo: self.hi, hi: self.hi, from_external_macro: self.from_external_macro }),
    {
        Span { lo: self.hi, hi: self.hi, from_external_macro: self.from_external_macro }
    }
}

/// An identifier and where it stands.
#[derive(Debug)]
pub struct Ident {
    pub name: String,
    pub span: Span,
}

/// An attribute: its name and its argument token stream. `args` is `None`
/// where the arguments are not a delimited token stream (`#[doc = ".."]`).
#[derive(Debug)]
pub struct Attribute {
    pub name: String,
    pub args: Option<Vec<TokenTree>>,
    pub span: Span,
}

/// The root of a crate: its span and its inner attributes, in source order.
#[derive(Debug)]
pub struct CrateRoot {
    pub span: Span,
    pub attrs: Vec<Attribute>,
}

/// What a syntactic item is. A trait impl names its trait by path and its
/// self type by index into the run's `TypeGraph`.
#[derive(Debug)]
pub enum ItemKind {
    TraitImpl { trait_path: Vec<Ident>, self_ty: usize },
    MacroDef { macro_rules: bool },
    Other,
}

/// A syntactic item.
#[derive(Debug)]
pub struct Item {
    pub kind: ItemKind,
    pub ident: Ident,
    pub span: Span,
    pub attrs: Vec<Attribute>,
}

/// What a generic parameter is.
#[derive(Clone, Copy, Debug, PartialEq, Eq, Structural)]
pub enum GenericParamKind {
    Lifetime,
    Type,
    Const,
}

/// A generic parameter. A lifetime's name includes its sigil (`'a`); a
/// placeholder is an anonymous lifetime (`'_`, or one elided).
#[derive(Debug)]
pub struct GenericParam {
    pub kind: GenericParamKind,
    pub ident: Ident,
    pub is_placeholder: bool,
}

/// Ambient facts that rules may read: whether the `decl_macro` feature is
/// enabled, and the name of the crate under analysis, where known.
#[derive(Debug)]
pub struct Context {
    pub decl_macro: bool,
    pub crate_name: Option<String>,
}

} // verus!
