//! The loaders: from an annotated declaration to a node.
//!
//! There is one loader per shape of declaration. Each looks for the keys it
//! needs and ignores every entry it does not know, whatever its form: an
//! entry of the wrong shape never fails a load, a missing key always does.
//! Where a key occurs more than once, its last occurrence counts.

use vstd::prelude::*;
use vstd::string::*;
use crate::cfg::{Cfg, CfgView, append_spec, clone_opt_cfg};
use crate::gobject::{GObject, GObjectView, GType, GTypeView};
use crate::ir::{Path, Type, TypeView, clone_opt_type, opt_type_view};
use crate::syntax::{
    Attributes,
    AttributesView,
    DeclView,
    EnumDecl,
    ImplDecl,
    ImplDeclView,
    ImplItem,
    ImplItemView,
    Lit,
    LitView,
    MetaList,
    MetaListView,
    NestedMeta,
    NestedMetaView,
    StructDecl,
    item_views,
    nested_views,
    opt_string_view,
};
use crate::text::str_eq;

verus! {

/// A key that a loader cannot do without.
#[derive(Clone, Copy, Debug, PartialEq, Eq, Structural)]
pub enum RequiredKey {
    /// `name = "..."` in the argument list, or a `NAME` constant in an impl.
    Name,
    /// `type_name = "..."` in the argument list.
    TypeName,
    /// The string that a flags attribute takes as its only argument.
    FlagsValue,
    /// The `ParentType` binding of a class.
    ParentType,
}

/// A declaration that lacks a required key.
#[derive(Debug, PartialEq, Eq)]
pub struct LoadError {
    /// The identifier or path of the declaration.
    pub declaration: String,
    pub missing: RequiredKey,
}

/// The mathematical value of a [`LoadError`].
pub struct LoadErrorView {
    pub declaration: Seq<char>,
    pub missing: RequiredKey,
}

impl View for LoadError {
    type V = LoadErrorView;

    open spec fn view(&self) -> LoadErrorView {
        LoadErrorView { declaration: self.declaration@, missing: self.missing }
    }
}

/// How a required key is written in the source.
pub open spec fn key_text(key: RequiredKey) -> Seq<char> {
    match key {
        RequiredKey::Name => "name"@,
        RequiredKey::TypeName => "type_name"@,
        RequiredKey::FlagsValue => "flags type name"@,
        RequiredKey::ParentType => "ParentType"@,
    }
}

/// The text of a load error.
pub open spec fn load_error_message(error: LoadErrorView) -> Seq<char> {
    "missing required attribute `"@ + key_text(error.missing) + "` on `"@ + error.declaration
        + "`"@
}

impl LoadError {
    /// A sentence that names the declaration and the key it lacks.
    pub fn message(&self) -> (text: String)
        ensures
            text@ == load_error_message(self@),
    {
        let mut text = "missing required attribute `".to_owned();
        match self.missing {
            RequiredKey::Name => text.append("name"),
            RequiredKey::TypeName => text.append("type_name"),
            RequiredKey::FlagsValue => text.append("flags type name"),
            RequiredKey::ParentType => text.append("ParentType"),
        }
        text.append("` on `");
        text.append(self.declaration.as_str());
        text.append("`");
        text
    }
}

/// The view of the outcome of a load.
pub open spec fn load_view(loaded: Result<GObject, LoadError>) -> Result<
    GObjectView,
    LoadErrorView,
> {
    match loaded {
        Ok(node) => Ok(node@),
        Err(error) => Err(error@),
    }
}

/// The view of a predicate that is borrowed, if there is one.
pub open spec fn scope_cfg_view(cfg: Option<&Cfg>) -> Option<CfgView> {
    match cfg {
        Some(c) => Some(c@),
        None => None,
    }
}

/// The string of the last entry `key = "string"` of an argument list.
pub open spec fn last_named_str(nested: Seq<NestedMetaView>, key: Seq<char>) -> Option<Seq<char>>
    decreases nested.len(),
{
    if nested.len() == 0 {
        None
    } else {
        match nested.last() {
            NestedMetaView::NameValue { path, lit: LitView::Str(value) } => if path == Some(key) {
                Some(value)
            } else {
                last_named_str(nested.drop_last(), key)
            },
            _ => last_named_str(nested.drop_last(), key),
        }
    }
}

/// The last literal string that stands on its own in an argument list.
pub open spec fn last_positional_str(nested: Seq<NestedMetaView>) -> Option<Seq<char>>
    decreases nested.len(),
{
    if nested.len() == 0 {
        None
    } else {
        match nested.last() {
            NestedMetaView::Lit(LitView::Str(value)) => Some(value),
            _ => last_positional_str(nested.drop_last()),
        }
    }
}

/// The string of the last associated constant `name` of an impl block whose
/// initialiser is a literal string.
pub open spec fn last_const_str(items: Seq<ImplItemView>, name: Seq<char>) -> Option<Seq<char>>
    decreases items.len(),
{
    if items.len() == 0 {
        None
    } else {
        match items.last() {
            ImplItemView::Const { ident, value: LitView::Str(value) } => if ident == name {
                Some(value)
            } else {
                last_const_str(items.drop_last(), name)
            },
            _ => last_const_str(items.drop_last(), name),
        }
    }
}

/// The type of the last associated type `name` of an impl block. `None` when
/// there is no such binding, and when the last one binds a type that the
/// generator cannot name.
pub open spec fn last_type_binding(items: Seq<ImplItemView>, name: Seq<char>) -> Option<TypeView>
    decreases items.len(),
{
    if items.len() == 0 {
        None
    } else {
        match items.last() {
            ImplItemView::Type { ident, ty } => if ident == name {
                ty
            } else {
                last_type_binding(items.drop_last(), name)
            },
            _ => last_type_binding(items.drop_last(), name),
        }
    }
}

fn find_named_str(nested: &Vec<NestedMeta>, key: &str) -> (found: Option<String>)
    ensures
        opt_string_view(found) == last_named_str(nested_views(nested@), key@),
{
    let ghost all = nested_views(nested@);
    let mut found: Option<String> = None;
    let mut i: usize = 0;
    assert(all.take(0) =~= Seq::<NestedMetaView>::empty());
    while i < nested.len()
        invariant
            i <= nested@.len(),
            all == nested_views(nested@),
            opt_string_view(found) == last_named_str(all.take(i as int), key@),
        decreases nested@.len() - i,
    {
        proof {
            assert(all.take(i + 1).drop_last() =~= all.take(i as int));
            assert(all.take(i + 1).last() == nested@[i as int]@);
        }
        match &nested[i] {
            NestedMeta::NameValue { path, lit } => {
                if path.is_ident(key) {
                    match lit {
                        Lit::Str(value) => {
                            found = Some(value.clone());
                        },
                        Lit::Other => {},
                    }
                }
            },
            _ => {},
        }
        i += 1;
    }
    assert(all.take(nested@.len() as int) =~= all);
    found
}

fn find_positional_str(nested: &Vec<NestedMeta>) -> (found: Option<String>)
    ensures
        opt_string_view(found) == last_positional_str(nested_views(nested@)),
{
    let ghost all = nested_views(nested@);
    let mut found: Option<String> = None;
    let mut i: usize = 0;
    assert(all.take(0) =~= Seq::<NestedMetaView>::empty());
    while i < nested.len()
        invariant
            i <= nested@.len(),
            all == nested_views(nested@),
            opt_string_view(found) == last_positional_str(all.take(i as int)),
        decreases nested@.len() - i,
    {
        proof {
            assert(all.take(i + 1).drop_last() =~= all.take(i as int));
            assert(all.take(i + 1).last() == nested@[i as int]@);
        }
        match &nested[i] {
            NestedMeta::Lit(Lit::Str(value)) => {
                found = Some(value.clone());
            },
            _ => {},
        }
        i += 1;
    }
    assert(all.take(nested@.len() as int) =~= all);
    found
}

fn find_const_str(items: &Vec<ImplItem>, name: &str) -> (found: Option<String>)
    ensures
        opt_string_view(found) == last_const_str(item_views(items@), name@),
{
    let ghost all = item_views(items@);
    let mut found: Option<String> = None;
    let mut i: usize = 0;
    assert(all.take(0) =~= Seq::<ImplItemView>::empty());
    while i < items.len()
        invariant
            i <= items@.len(),
            all == item_views(items@),
            opt_string_view(found) == last_const_str(all.take(i as int), name@),
        decreases items@.len() - i,
    {
        proof {
            assert(all.take(i + 1).drop_last() =~= all.take(i as int));
            assert(all.take(i + 1).last() == items@[i as int]@);
        }
        match &items[i] {
            ImplItem::Const { ident, value } => {
                if str_eq(ident.as_str(), name) {
                    match value {
                        Lit::Str(text) => {
                            found = Some(text.clone());
                        },
                        Lit::Other => {},
                    }
                }
            },
            _ => {},
        }
        i += 1;
    }
    assert(all.take(items@.len() as int) =~= all);
    found
}

fn find_type_binding(items: &Vec<ImplItem>, name: &str) -> (found: Option<Type>)
    ensures
        opt_type_view(found) == last_type_binding(item_views(items@), name@),
{
    let ghost all = item_views(items@);
    let mut found: Option<Type> = None;
    let mut i: usize = 0;
    assert(all.take(0) =~= Seq::<ImplItemView>::empty());
    while i < items.len()
        invariant
            i <= items@.len(),
            all == item_views(items@),
            opt_type_view(found) == last_type_binding(all.take(i as int), name@),
        decreases items@.len() - i,
    {
        proof {
            assert(all.take(i + 1).drop_last() =~= all.take(i as int));
            assert(all.take(i + 1).last() == items@[i as int]@);
        }
        match &items[i] {
            ImplItem::Type { ident, ty } => {
                if str_eq(ident.as_str(), name) {
                    found = clone_opt_type(ty);
                }
            },
            _ => {},
        }
        i += 1;
    }
    assert(all.take(items@.len() as int) =~= all);
    found
}

/// The runtime name that an error-domain attribute gives.
pub open spec fn error_domain_name(list: MetaListView) -> Option<Seq<char>> {
    if list.path == Some("gerror_domain"@) {
        last_named_str(list.nested, "name"@)
    } else {
        None
    }
}

/// The runtime name that an enumeration or flags attribute gives.
pub open spec fn enum_type_name(list: MetaListView) -> Option<Seq<char>> {
    if list.path == Some("genum"@) {
        last_named_str(list.nested, "type_name"@)
    } else if list.path == Some("gflags"@) {
        last_positional_str(list.nested)
    } else {
        None
    }
}

/// The key whose absence makes an enumeration or flags attribute useless.
pub open spec fn enum_required_key(list: MetaListView) -> RequiredKey {
    if list.path == Some("genum"@) {
        RequiredKey::TypeName
    } else if list.path == Some("gflags"@) {
        RequiredKey::FlagsValue
    } else {
        RequiredKey::TypeName
    }
}

/// An unresolved reference to the type that a declaration itself declares.
pub open spec fn own_type(ident: Seq<char>) -> TypeView {
    TypeView { path: ident, generics: Seq::empty(), declaration: None }
}

/// The node of a declaration with the given runtime name and descriptor.
pub open spec fn node_of(
    path: Seq<char>,
    name: Seq<char>,
    gtype: GTypeView,
    scope_cfg: Option<CfgView>,
    attrs: AttributesView,
) -> GObjectView {
    GObjectView {
        path,
        name,
        gtype,
        cfg: append_spec(scope_cfg, attrs.cfg),
        annotations: attrs.annotations,
        documentation: attrs.documentation,
    }
}

/// What loading an error domain gives.
pub open spec fn loaded_error_domain(
    scope_cfg: Option<CfgView>,
    input: DeclView,
    list: MetaListView,
) -> Result<GObjectView, LoadErrorView> {
    match error_domain_name(list) {
        Some(name) => Ok(
            node_of(
                input.ident,
                name,
                GTypeView::Error { type_: own_type(input.ident) },
                scope_cfg,
                input.attrs,
            ),
        ),
        None => Err(LoadErrorView { declaration: input.ident, missing: RequiredKey::Name }),
    }
}

/// What loading an enumeration or a flags type gives.
pub open spec fn loaded_enum(
    scope_cfg: Option<CfgView>,
    input: DeclView,
    list: MetaListView,
) -> Result<GObjectView, LoadErrorView> {
    match enum_type_name(list) {
        Some(name) => Ok(
            node_of(
                input.ident,
                name,
                GTypeView::Enum { type_: own_type(input.ident) },
                scope_cfg,
                input.attrs,
            ),
        ),
        None => Err(LoadErrorView { declaration: input.ident, missing: enum_required_key(list) }),
    }
}

/// What loading a boxed type gives.
pub open spec fn loaded_boxed(
    scope_cfg: Option<CfgView>,
    input: DeclView,
    list: MetaListView,
) -> Result<GObjectView, LoadErrorView> {
    match last_named_str(list.nested, "name"@) {
        Some(name) => Ok(node_of(input.ident, name, GTypeView::Boxed, scope_cfg, input.attrs)),
        None => Err(LoadErrorView { declaration: input.ident, missing: RequiredKey::Name }),
    }
}

/// What loading an interface gives.
pub open spec fn loaded_interface(
    path: Seq<char>,
    scope_cfg: Option<CfgView>,
    input: ImplDeclView,
) -> Result<GObjectView, LoadErrorView> {
    match last_const_str(input.items, "NAME"@) {
        Some(name) => Ok(
            node_of(
                path,
                name,
                GTypeView::Interface { type_: input.self_ty },
                scope_cfg,
                input.attrs,
            ),
        ),
        None => Err(LoadErrorView { declaration: path, missing: RequiredKey::Name }),
    }
}

/// What loading a class gives. A class without a parent is reported as such,
/// whether or not it has a name.
pub open spec fn loaded_object(
    path: Seq<char>,
    scope_cfg: Option<CfgView>,
    input: ImplDeclView,
) -> Result<GObjectView, LoadErrorView> {
    match last_type_binding(input.items, "ParentType"@) {
        None => Err(LoadErrorView { declaration: path, missing: RequiredKey::ParentType }),
        Some(parent_type) => match last_const_str(input.items, "NAME"@) {
            None => Err(LoadErrorView { declaration: path, missing: RequiredKey::Name }),
            Some(name) => Ok(
                node_of(
                    path,
                    name,
                    GTypeView::Object {
                        instance: last_type_binding(input.items, "Instance"@),
                        class: last_type_binding(input.items, "Class"@),
                        parent_type,
                    },
                    scope_cfg,
                    input.attrs,
                ),
            ),
        },
    }
}

fn missing(declaration: &str, key: RequiredKey) -> (error: LoadError)
    ensures
        error@ == (LoadErrorView { declaration: declaration@, missing: key }),
{
    LoadError { declaration: declaration.to_owned(), missing: key }
}

fn node_from(path: Path, name: String, gtype: GType, scope_cfg: Option<&Cfg>, attrs: &Attributes) -> (node:
    GObject)
    ensures
        node@ == node_of(path@, name@, gtype@, scope_cfg_view(scope_cfg), attrs@),
{
    GObject::new(
        path,
        name,
        gtype,
        Cfg::append(scope_cfg, clone_opt_cfg(&attrs.cfg)),
        attrs.annotations.clone(),
        attrs.documentation.clone(),
    )
}

impl GObject {
    /// Loads an enum that declares an error domain. The attribute
    /// `gerror_domain` must give the runtime name as `name = "..."`.
    pub fn load_error_domain(mod_cfg: Option<&Cfg>, input: &EnumDecl, list: &MetaList) -> (loaded:
        Result<GObject, LoadError>)
        ensures
            load_view(loaded) == loaded_error_domain(scope_cfg_view(mod_cfg), input@, list@),
    {
        let mut name: Option<String> = None;
        if list.path.is_ident("gerror_domain") {
            name = find_named_str(&list.nested, "name");
        }
        match name {
            Some(name) => {
                let path = Path::new(input.ident.clone());
                let type_ = Type::from_path(path.clone());
                Ok(node_from(path, name, GType::Error { type_ }, mod_cfg, &input.attrs))
            },
            None => Err(missing(input.ident.as_str(), RequiredKey::Name)),
        }
    }

    /// Loads an enum that declares an enumeration or a flags type. The
    /// attribute `genum` must give the runtime name as `type_name = "..."`,
    /// the attribute `gflags` as its only argument.
    pub fn load_enum(mod_cfg: Option<&Cfg>, input: &EnumDecl, list: &MetaList) -> (loaded: Result<
        GObject,
        LoadError,
    >)
        ensures
            load_view(loaded) == loaded_enum(scope_cfg_view(mod_cfg), input@, list@),
    {
        let mut found: Option<String> = None;
        let mut key = RequiredKey::TypeName;
        if list.path.is_ident("genum") {
            found = find_named_str(&list.nested, "type_name");
        } else if list.path.is_ident("gflags") {
            found = find_positional_str(&list.nested);
            key = RequiredKey::FlagsValue;
        }
        match found {
            Some(name) => {
                let path = Path::new(input.ident.clone());
                let type_ = Type::from_path(path.clone());
                Ok(node_from(path, name, GType::Enum { type_ }, mod_cfg, &input.attrs))
            },
            None => Err(missing(input.ident.as_str(), key)),
        }
    }

    /// Loads a struct that declares a boxed type. The attribute must give the
    /// runtime name as `name = "..."`.
    pub fn load_boxed(mod_cfg: Option<&Cfg>, input: &StructDecl, list: &MetaList) -> (loaded:
        Result<GObject, LoadError>)
        ensures
            load_view(loaded) == loaded_boxed(scope_cfg_view(mod_cfg), input@, list@),
    {
        match find_named_str(&list.nested, "name") {
            Some(name) => {
                let path = Path::new(input.ident.clone());
                Ok(node_from(path, name, GType::Boxed, mod_cfg, &input.attrs))
            },
            None => Err(missing(input.ident.as_str(), RequiredKey::Name)),
        }
    }

    /// Loads a trait implementation that declares an interface. The impl
    /// block must hold a constant `NAME` with the runtime name as a literal
    /// string.
    pub fn load_interface(path: &Path, mod_cfg: Option<&Cfg>, input: &ImplDecl) -> (loaded: Result<
        GObject,
        LoadError,
    >)
        ensures
            load_view(loaded) == loaded_interface(path@, scope_cfg_view(mod_cfg), input@),
    {
        match find_const_str(&input.items, "NAME") {
            Some(name) => {
                let type_ = input.self_ty.clone();
                Ok(
                    node_from(
                        path.clone(),
                        name,
                        GType::Interface { type_ },
                        mod_cfg,
                        &input.attrs,
                    ),
                )
            },
            None => Err(missing(path.name(), RequiredKey::Name)),
        }
    }

    /// Loads a trait implementation that declares a class. The impl block
    /// must bind `ParentType` and hold a constant `NAME` with the runtime
    /// name as a literal string; it may bind `Instance` and `Class`.
    pub fn load_object(path: &Path, mod_cfg: Option<&Cfg>, input: &ImplDecl) -> (loaded: Result<
        GObject,
        LoadError,
    >)
        ensures
            load_view(loaded) == loaded_object(path@, scope_cfg_view(mod_cfg), input@),
    {
        let instance = find_type_binding(&input.items, "Instance");
        let class = find_type_binding(&input.items, "Class");
        let parent_type = find_type_binding(&input.items, "ParentType");
        let name = find_const_str(&input.items, "NAME");
        match parent_type {
            None => Err(missing(path.name(), RequiredKey::ParentType)),
            Some(parent_type) => match name {
                None => Err(missing(path.name(), RequiredKey::Name)),
                Some(name) => {
                    let gtype = GType::Object { instance, class, parent_type };
                    Ok(node_from(path.clone(), name, gtype, mod_cfg, &input.attrs))
                },
            },
        }
    }
}

} // verus!
