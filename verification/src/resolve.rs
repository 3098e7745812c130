//! Declaration-type resolution: what kind of declaration a path names.
//!
//! Once every declaration is known, each type reference learns whether its
//! path names a struct, an enum or a union, which decides how the reference
//! is spelled in C. A node passes the resolver on to the references that will
//! be spelled out, and leaves the others as they are.

use vstd::prelude::*;
use crate::gobject::{GObject, GObjectView, GType, GTypeView};
use crate::ir::{DeclarationType, Path, Type, TypeView};
use crate::text::str_eq;

verus! {

/// One entry of the resolver's table.
#[derive(Debug, PartialEq, Eq)]
pub struct Registration {
    pub path: Path,
    pub declaration: DeclarationType,
}

/// The table of the resolution pass: declared paths and their kinds, in the
/// order of registration.
#[derive(Debug, PartialEq, Eq)]
pub struct DeclarationTypeResolver {
    pub types: Vec<Registration>,
}

impl View for DeclarationTypeResolver {
    type V = Seq<(Seq<char>, DeclarationType)>;

    open spec fn view(&self) -> Seq<(Seq<char>, DeclarationType)> {
        Seq::new(self.types@.len(), |i: int| (self.types@[i].path@, self.types@[i].declaration))
    }
}

/// The kind under which `path` was first registered.
pub open spec fn lookup(table: Seq<(Seq<char>, DeclarationType)>, path: Seq<char>) -> Option<
    DeclarationType,
>
    decreases table.len(),
{
    if table.len() == 0 {
        None
    } else if table[0].0 == path {
        Some(table[0].1)
    } else {
        lookup(table.drop_first(), path)
    }
}

impl DeclarationTypeResolver {
    /// An empty table.
    pub fn new() -> (resolver: DeclarationTypeResolver)
        ensures
            resolver@ == Seq::<(Seq<char>, DeclarationType)>::empty(),
    {
        let resolver = DeclarationTypeResolver { types: Vec::new() };
        assert(resolver@ =~= Seq::<(Seq<char>, DeclarationType)>::empty());
        resolver
    }

    /// Registers `path` as a declaration of the given kind. An earlier
    /// registration of the same path keeps its effect.
    pub fn insert(&mut self, path: &Path, declaration: DeclarationType)
        ensures
            final(self)@ == old(self)@.push((path@, declaration)),
    {
        self.types.push(Registration { path: path.clone(), declaration });
        assert(self@ =~= old(self)@.push((path@, declaration)));
    }

    /// The kind of declaration that `path` names, if it names one.
    pub fn type_for(&self, path: &Path) -> (declaration: Option<DeclarationType>)
        ensures
            declaration == lookup(self@, path@),
    {
        let mut i: usize = 0;
        assert(self@.skip(0) =~= self@);
        while i < self.types.len()
            invariant
                i <= self.types@.len(),
                lookup(self@, path@) == lookup(self@.skip(i as int), path@),
            decreases self.types@.len() - i,
        {
            proof {
                assert(self@.skip(i as int).drop_first() =~= self@.skip(i + 1));
                assert(self@.skip(i as int)[0] == self@[i as int]);
            }
            if str_eq(self.types[i].path.name(), path.name()) {
                return Some(self.types[i].declaration);
            }
            i += 1;
        }
        None
    }
}

/// A reference after resolution: the same path and arguments, with the kind
/// that the table gives for the path.
pub open spec fn resolve_type(ty: TypeView, table: Seq<(Seq<char>, DeclarationType)>) -> TypeView {
    TypeView { path: ty.path, generics: ty.generics, declaration: lookup(table, ty.path) }
}

/// An optional reference after resolution.
pub open spec fn resolve_opt_type(
    ty: Option<TypeView>,
    table: Seq<(Seq<char>, DeclarationType)>,
) -> Option<TypeView> {
    match ty {
        Some(t) => Some(resolve_type(t, table)),
        None => None,
    }
}

impl GTypeView {
    /// A descriptor after resolution. The references of a class and of an
    /// interface are resolved. The C enum of an enumeration or of an error
    /// domain is only ever named, never spelled as a declaration, and stays
    /// as it is.
    pub open spec fn resolved(self, table: Seq<(Seq<char>, DeclarationType)>) -> GTypeView {
        match self {
            GTypeView::Object { instance, class, parent_type } => GTypeView::Object {
                instance: resolve_opt_type(instance, table),
                class: resolve_opt_type(class, table),
                parent_type: resolve_type(parent_type, table),
            },
            GTypeView::Interface { type_ } => GTypeView::Interface {
                type_: resolve_type(type_, table),
            },
            GTypeView::Boxed => self,
            GTypeView::Enum { .. } => self,
            GTypeView::Error { .. } => self,
        }
    }
}

impl Type {
    /// Looks the path of this reference up and records what it names.
    pub fn resolve_declaration_types(&mut self, resolver: &DeclarationTypeResolver)
        ensures
            final(self)@ == resolve_type(old(self)@, resolver@),
    {
        let declaration = resolver.type_for(&self.path);
        self.declaration = declaration;
        assert(self@.generics =~= old(self)@.generics);
    }
}

impl GObject {
    /// Resolves the references of this node in place. Nothing but the
    /// descriptor changes.
    pub fn resolve_declaration_types(&mut self, resolver: &DeclarationTypeResolver)
        ensures
            final(self)@ == (GObjectView {
                gtype: old(self)@.gtype.resolved(resolver@),
                ..old(self)@
            }),
    {
        match &mut self.gtype {
            GType::Object { parent_type, instance, class } => {
                parent_type.resolve_declaration_types(resolver);
                match instance {
                    Some(instance) => {
                        instance.resolve_declaration_types(resolver);
                    },
                    None => {},
                }
                match class {
                    Some(class) => {
                        class.resolve_declaration_types(resolver);
                    },
                    None => {},
                }
            },
            GType::Interface { type_ } => {
                type_.resolve_declaration_types(resolver);
            },
            GType::Boxed => {},
            GType::Enum { .. } => {},
            GType::Error { .. } => {},
        }
    }
}

} // verus!
