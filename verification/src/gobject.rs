//! The object-system node: one externally visible dynamic type.

use vstd::prelude::*;
use crate::cfg::{Cfg, CfgView, clone_opt_cfg, opt_cfg_view};
use crate::ir::{Path, Type, TypeView, clone_opt_type, opt_type_view};
use crate::metadata::{AnnotationSet, Documentation};

verus! {

/// What kind of dynamic type a node describes, with the types it refers to.
#[derive(Debug, PartialEq, Eq)]
pub enum GType {
    /// A class, with its instance and class structs and its parent.
    Object { instance: Option<Type>, class: Option<Type>, parent_type: Type },
    /// An interface and the type that stands for its instances.
    Interface { type_: Type },
    /// A boxed value type.
    Boxed,
    /// A registered enumeration or flags type and its C enum.
    Enum { type_: Type },
    /// An error domain and the C enum of its codes.
    Error { type_: Type },
}

/// The five kinds, without their payload.
#[derive(Clone, Copy, Debug, PartialEq, Eq, Structural)]
pub enum GKind {
    Object,
    Interface,
    Boxed,
    Enum,
    Error,
}

/// The mathematical value of a [`GType`].
pub enum GTypeView {
    Object { instance: Option<TypeView>, class: Option<TypeView>, parent_type: TypeView },
    Interface { type_: TypeView },
    Boxed,
    Enum { type_: TypeView },
    Error { type_: TypeView },
}

impl GTypeView {
    /// The kind of this descriptor.
    pub open spec fn kind(self) -> GKind {
        match self {
            GTypeView::Object { .. } => GKind::Object,
            GTypeView::Interface { .. } => GKind::Interface,
            GTypeView::Boxed => GKind::Boxed,
            GTypeView::Enum { .. } => GKind::Enum,
            GTypeView::Error { .. } => GKind::Error,
        }
    }
}

impl View for GType {
    type V = GTypeView;

    open spec fn view(&self) -> GTypeView {
        match self {
            GType::Object { instance, class, parent_type } => GTypeView::Object {
                instance: opt_type_view(*instance),
                class: opt_type_view(*class),
                parent_type: parent_type@,
            },
            GType::Interface { type_ } => GTypeView::Interface { type_: type_@ },
            GType::Boxed => GTypeView::Boxed,
            GType::Enum { type_ } => GTypeView::Enum { type_: type_@ },
            GType::Error { type_ } => GTypeView::Error { type_: type_@ },
        }
    }
}

impl GType {
    /// The kind of this descriptor.
    pub fn kind(&self) -> (kind: GKind)
        ensures
            kind == self@.kind(),
    {
        match self {
            GType::Object { .. } => GKind::Object,
            GType::Interface { .. } => GKind::Interface,
            GType::Boxed => GKind::Boxed,
            GType::Enum { .. } => GKind::Enum,
            GType::Error { .. } => GKind::Error,
        }
    }
}

impl Clone for GType {
    fn clone(&self) -> (copy: GType)
        ensures
            copy@ == self@,
    {
        match self {
            GType::Object { instance, class, parent_type } => GType::Object {
                instance: clone_opt_type(instance),
                class: clone_opt_type(class),
                parent_type: parent_type.clone(),
            },
            GType::Interface { type_ } => GType::Interface { type_: type_.clone() },
            GType::Boxed => GType::Boxed,
            GType::Enum { type_ } => GType::Enum { type_: type_.clone() },
            GType::Error { type_ } => GType::Error { type_: type_.clone() },
        }
    }
}

/// A node of the intermediate representation: a dynamic type as the object
/// system will know it.
#[derive(Debug, PartialEq, Eq)]
pub struct GObject {
    /// The host-language path of the declaration.
    pub path: Path,
    /// The runtime name, such as `GtkWidget`.
    pub name: String,
    pub gtype: GType,
    /// The compile-time predicate under which the node is generated.
    pub cfg: Option<Cfg>,
    pub annotations: AnnotationSet,
    pub documentation: Documentation,
}

/// The mathematical value of a [`GObject`].
pub struct GObjectView {
    pub path: Seq<char>,
    pub name: Seq<char>,
    pub gtype: GTypeView,
    pub cfg: Option<CfgView>,
    pub annotations: Seq<Seq<char>>,
    pub documentation: Seq<Seq<char>>,
}

impl View for GObject {
    type V = GObjectView;

    open spec fn view(&self) -> GObjectView {
        GObjectView {
            path: self.path@,
            name: self.name@,
            gtype: self.gtype@,
            cfg: opt_cfg_view(self.cfg),
            annotations: self.annotations@,
            documentation: self.documentation@,
        }
    }
}

/// The views of a list of nodes, in order.
pub open spec fn node_views(nodes: Seq<GObject>) -> Seq<GObjectView> {
    Seq::new(nodes.len(), |i: int| nodes[i]@)
}

impl GObject {
    /// A node made of the given parts, each taken as it is.
    pub fn new(
        path: Path,
        name: String,
        gtype: GType,
        cfg: Option<Cfg>,
        annotations: AnnotationSet,
        documentation: Documentation,
    ) -> (node: GObject)
        ensures
            node@ == (GObjectView {
                path: path@,
                name: name@,
                gtype: gtype@,
                cfg: opt_cfg_view(cfg),
                annotations: annotations@,
                documentation: documentation@,
            }),
    {
        GObject { path, name, gtype, cfg, annotations, documentation }
    }
}

/// How the generic emission dispatcher sees an item: tagged by what it
/// renders as, without a view into the five kinds.
#[derive(Debug, PartialEq, Eq)]
pub enum ItemContainer {
    GObject(GObject),
}

impl GObject {
    /// The host-language path of the declaration.
    pub fn path(&self) -> (path: &Path)
        ensures
            *path == self.path,
    {
        &self.path
    }

    /// The name under which the node is exported: its runtime name.
    pub fn export_name(&self) -> (name: &str)
        ensures
            name@ == self@.name,
    {
        self.name.as_str()
    }

    /// The compile-time predicate of the node, if it has one.
    pub fn cfg(&self) -> (cfg: Option<&Cfg>)
        ensures
            match cfg {
                Some(c) => self.cfg == Some(*c),
                None => self.cfg is None,
            },
    {
        match &self.cfg {
            Some(c) => Some(c),
            None => None,
        }
    }

    /// The annotations of the node.
    pub fn annotations(&self) -> (annotations: &AnnotationSet)
        ensures
            *annotations == self.annotations,
    {
        &self.annotations
    }

    /// The annotations, for a pass that rewrites them. Whatever the caller
    /// leaves behind the reference becomes the node's annotation set; the
    /// rest of the node stays.
    pub fn annotations_mut(&mut self) -> (annotations: &mut AnnotationSet)
        ensures
            *annotations == old(self).annotations,
            *final(self) == (GObject { annotations: *final(annotations), ..*old(self) }),
    {
        &mut self.annotations
    }

    /// The documentation of the node.
    pub fn documentation(&self) -> (documentation: &Documentation)
        ensures
            *documentation == self.documentation,
    {
        &self.documentation
    }

    /// A copy of the node, tagged for the dispatcher.
    pub fn container(&self) -> (container: ItemContainer)
        ensures
            container matches ItemContainer::GObject(node) && node@ == self@,
    {
        ItemContainer::GObject(self.clone())
    }

    /// Applies the renaming rules of the configuration, none of which
    /// touches an object-system node: the runtime name is fixed by convention.
    pub fn rename_for_config(&mut self)
        ensures
            *final(self) == *old(self),
    {
    }
}

impl Clone for GObject {
    fn clone(&self) -> (copy: GObject)
        ensures
            copy@ == self@,
    {
        GObject {
            path: self.path.clone(),
            name: self.name.clone(),
            gtype: self.gtype.clone(),
            cfg: clone_opt_cfg(&self.cfg),
            annotations: self.annotations.clone(),
            documentation: self.documentation.clone(),
        }
    }
}

} // verus!
