//! Parsed declarations, as the loaders read them.
//!
//! The discovery pass walks the syntax tree and hands over, for each annotated
//! declaration, the few things a loader looks at: identifiers, the entries of
//! the attribute's argument list, the associated items of an impl block, and
//! what the declaration's own attributes say about configuration, annotations
//! and documentation.

use vstd::prelude::*;
use crate::cfg::{Cfg, CfgView, opt_cfg_view};
use crate::ir::{Type, TypeView, opt_type_view};
use crate::metadata::{AnnotationSet, Documentation};
use crate::text::str_eq;

verus! {

/// A literal: a string with its value, or a literal of any other kind.
#[derive(Debug, PartialEq, Eq)]
pub enum Lit {
    Str(String),
    Other,
}

/// The mathematical value of a [`Lit`].
pub enum LitView {
    Str(Seq<char>),
    Other,
}

impl View for Lit {
    type V = LitView;

    open spec fn view(&self) -> LitView {
        match self {
            Lit::Str(value) => LitView::Str(value@),
            Lit::Other => LitView::Other,
        }
    }
}

/// The path that names an attribute or a key. `ident` is the identifier when
/// the path is one plain identifier, and `None` for any longer path.
#[derive(Debug, PartialEq, Eq)]
pub struct MetaPath {
    pub ident: Option<String>,
}

/// The view of an optional string.
pub open spec fn opt_string_view(s: Option<String>) -> Option<Seq<char>> {
    match s {
        Some(s) => Some(s@),
        None => None,
    }
}

impl View for MetaPath {
    type V = Option<Seq<char>>;

    open spec fn view(&self) -> Option<Seq<char>> {
        opt_string_view(self.ident)
    }
}

impl MetaPath {
    /// The path made of the single identifier `ident`.
    pub fn from_ident(ident: String) -> (path: MetaPath)
        ensures
            path@ == Some(ident@),
    {
        MetaPath { ident: Some(ident) }
    }

    /// Whether the path is the single identifier `ident`.
    pub fn is_ident(&self, ident: &str) -> (same: bool)
        ensures
            same == (self@ == Some(ident@)),
    {
        match &self.ident {
            Some(own) => str_eq(own.as_str(), ident),
            None => false,
        }
    }
}

/// One entry of an attribute's argument list.
#[derive(Debug, PartialEq, Eq)]
pub enum NestedMeta {
    /// `key = literal`.
    NameValue { path: MetaPath, lit: Lit },
    /// A literal on its own.
    Lit(Lit),
    /// Anything else: a bare path or a nested list.
    Other,
}

/// The mathematical value of a [`NestedMeta`].
pub enum NestedMetaView {
    NameValue { path: Option<Seq<char>>, lit: LitView },
    Lit(LitView),
    Other,
}

impl View for NestedMeta {
    type V = NestedMetaView;

    open spec fn view(&self) -> NestedMetaView {
        match self {
            NestedMeta::NameValue { path, lit } => NestedMetaView::NameValue {
                path: path@,
                lit: lit@,
            },
            NestedMeta::Lit(lit) => NestedMetaView::Lit(lit@),
            NestedMeta::Other => NestedMetaView::Other,
        }
    }
}

/// The views of the entries of an argument list, in order.
pub open spec fn nested_views(nested: Seq<NestedMeta>) -> Seq<NestedMetaView> {
    Seq::new(nested.len(), |i: int| nested[i]@)
}

/// A structured attribute: `path(nested, ...)`.
#[derive(Debug, PartialEq, Eq)]
pub struct MetaList {
    pub path: MetaPath,
    pub nested: Vec<NestedMeta>,
}

/// The mathematical value of a [`MetaList`].
pub struct MetaListView {
    pub path: Option<Seq<char>>,
    pub nested: Seq<NestedMetaView>,
}

impl View for MetaList {
    type V = MetaListView;

    open spec fn view(&self) -> MetaListView {
        MetaListView { path: self.path@, nested: nested_views(self.nested@) }
    }
}

/// What the attributes of a declaration say apart from the one that made it
/// an object-system declaration.
#[derive(Debug, PartialEq, Eq)]
pub struct Attributes {
    /// The declaration's own compile-time predicate.
    pub cfg: Option<Cfg>,
    pub annotations: AnnotationSet,
    pub documentation: Documentation,
}

/// The mathematical value of an [`Attributes`].
pub struct AttributesView {
    pub cfg: Option<CfgView>,
    pub annotations: Seq<Seq<char>>,
    pub documentation: Seq<Seq<char>>,
}

impl View for Attributes {
    type V = AttributesView;

    open spec fn view(&self) -> AttributesView {
        AttributesView {
            cfg: opt_cfg_view(self.cfg),
            annotations: self.annotations@,
            documentation: self.documentation@,
        }
    }
}

impl Attributes {
    /// No predicate, no annotation, no documentation.
    pub fn none() -> (attrs: Attributes)
        ensures
            attrs@ == (AttributesView {
                cfg: None,
                annotations: Seq::empty(),
                documentation: Seq::empty(),
            }),
    {
        Attributes {
            cfg: None,
            annotations: AnnotationSet::new(),
            documentation: Documentation::none(),
        }
    }
}

/// An annotated enum declaration.
#[derive(Debug, PartialEq, Eq)]
pub struct EnumDecl {
    pub ident: String,
    pub attrs: Attributes,
}

/// An annotated struct declaration.
#[derive(Debug, PartialEq, Eq)]
pub struct StructDecl {
    pub ident: String,
    pub attrs: Attributes,
}

/// The mathematical value of an [`EnumDecl`] or a [`StructDecl`].
pub struct DeclView {
    pub ident: Seq<char>,
    pub attrs: AttributesView,
}

impl View for EnumDecl {
    type V = DeclView;

    open spec fn view(&self) -> DeclView {
        DeclView { ident: self.ident@, attrs: self.attrs@ }
    }
}

impl View for StructDecl {
    type V = DeclView;

    open spec fn view(&self) -> DeclView {
        DeclView { ident: self.ident@, attrs: self.attrs@ }
    }
}

/// One associated item of an impl block.
#[derive(Debug, PartialEq, Eq)]
pub enum ImplItem {
    /// `type ident = ty;`. `ty` is `None` when the bound type has no
    /// counterpart among the types the generator can name.
    Type { ident: String, ty: Option<Type> },
    /// `const ident: _ = value;`, where `value` is `Other` unless the
    /// initialiser is a literal string.
    Const { ident: String, value: Lit },
    /// A method or any other item.
    Other,
}

/// The mathematical value of an [`ImplItem`].
pub enum ImplItemView {
    Type { ident: Seq<char>, ty: Option<TypeView> },
    Const { ident: Seq<char>, value: LitView },
    Other,
}

impl View for ImplItem {
    type V = ImplItemView;

    open spec fn view(&self) -> ImplItemView {
        match self {
            ImplItem::Type { ident, ty } => ImplItemView::Type {
                ident: ident@,
                ty: opt_type_view(*ty),
            },
            ImplItem::Const { ident, value } => ImplItemView::Const {
                ident: ident@,
                value: value@,
            },
            ImplItem::Other => ImplItemView::Other,
        }
    }
}

/// The views of the items of an impl block, in order.
pub open spec fn item_views(items: Seq<ImplItem>) -> Seq<ImplItemView> {
    Seq::new(items.len(), |i: int| items[i]@)
}

/// An annotated trait implementation.
#[derive(Debug, PartialEq, Eq)]
pub struct ImplDecl {
    /// The type the trait is implemented for.
    pub self_ty: Type,
    pub items: Vec<ImplItem>,
    pub attrs: Attributes,
}

/// The mathematical value of an [`ImplDecl`].
pub struct ImplDeclView {
    pub self_ty: TypeView,
    pub items: Seq<ImplItemView>,
    pub attrs: AttributesView,
}

impl View for ImplDecl {
    type V = ImplDeclView;

    open spec fn view(&self) -> ImplDeclView {
        ImplDeclView {
            self_ty: self.self_ty@,
            items: item_views(self.items@),
            attrs: self.attrs@,
        }
    }
}

} // verus!
