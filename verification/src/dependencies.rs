//! Dependency propagation: which types a node refers to.
//!
//! The graph builder asks every node for the types its definition mentions
//! and orders the output so that each is declared before it is used. A type
//! that a node fails to report is a forward declaration that goes missing, so
//! the contracts here say exactly what is reported, and in which order.

use vstd::prelude::*;
use crate::gobject::{GObject, GType, GTypeView};
use crate::ir::{Type, TypeView, type_views};

verus! {

/// The type references that nodes have reported, oldest first.
#[derive(Debug, PartialEq, Eq)]
pub struct Dependencies {
    pub types: Vec<Type>,
}

impl View for Dependencies {
    type V = Seq<TypeView>;

    open spec fn view(&self) -> Seq<TypeView> {
        type_views(self.types@)
    }
}

impl Dependencies {
    /// Nothing reported yet.
    pub fn new() -> (out: Dependencies)
        ensures
            out@ == Seq::<TypeView>::empty(),
    {
        let out = Dependencies { types: Vec::new() };
        assert(out@ =~= Seq::<TypeView>::empty());
        out
    }

    /// How many references have been reported.
    pub fn len(&self) -> (n: usize)
        ensures
            n == self@.len(),
    {
        self.types.len()
    }
}

impl Type {
    /// Reports this reference.
    pub fn add_dependencies(&self, out: &mut Dependencies)
        ensures
            final(out)@ == old(out)@.push(self@),
    {
        out.types.push(self.clone());
        assert(out@ =~= old(out)@.push(self@));
    }
}

/// An optional reference as a list of none or one.
pub open spec fn present(ty: Option<TypeView>) -> Seq<TypeView> {
    match ty {
        Some(t) => seq![t],
        None => Seq::empty(),
    }
}

impl GTypeView {
    /// The types that a descriptor mentions: for a class its parent, then its
    /// instance struct and its class struct where it has them; for an
    /// interface, an enumeration and an error domain the one associated type;
    /// for a boxed type none.
    pub open spec fn referenced_types(self) -> Seq<TypeView> {
        match self {
            GTypeView::Object { instance, class, parent_type } => seq![parent_type] + present(
                instance,
            ) + present(class),
            GTypeView::Interface { type_ } => seq![type_],
            GTypeView::Boxed => Seq::empty(),
            GTypeView::Enum { type_ } => seq![type_],
            GTypeView::Error { type_ } => seq![type_],
        }
    }
}

impl GObject {
    /// Reports every type that this node's descriptor mentions.
    pub fn add_dependencies(&self, out: &mut Dependencies)
        ensures
            final(out)@ == old(out)@ + self@.gtype.referenced_types(),
    {
        match &self.gtype {
            GType::Object { parent_type, instance, class } => {
                parent_type.add_dependencies(out);
                match instance {
                    Some(instance) => {
                        instance.add_dependencies(out);
                    },
                    None => {},
                }
                match class {
                    Some(class) => {
                        class.add_dependencies(out);
                    },
                    None => {},
                }
            },
            GType::Interface { type_ } => {
                type_.add_dependencies(out);
            },
            GType::Boxed => {},
            GType::Enum { type_ } => {
                type_.add_dependencies(out);
            },
            GType::Error { type_ } => {
                type_.add_dependencies(out);
            },
        }
        assert(out@ =~= old(out)@ + self@.gtype.referenced_types());
    }
}

} // verus!
