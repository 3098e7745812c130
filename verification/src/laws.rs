//! What holds of every node, proved from the definitions that the contracts
//! of the other modules use.

use vstd::prelude::*;
use vstd::string::*;
use crate::case::{shouty_snake_case, snake_case};
use crate::gobject::{GKind, GObjectView, GTypeView};
use crate::cfg::CfgView;
use crate::ir::{DeclarationType, TypeView};
use crate::load::{loaded_boxed, loaded_enum, loaded_error_domain, loaded_interface, loaded_object};
use crate::syntax::{DeclView, ImplDeclView, MetaListView};
use crate::names::NameErrorKind;
use crate::template::{
    class_cast_line,
    class_check_line,
    cleanup_line,
    get_class_line,
    get_interface_line,
    instance_cast_line,
    instance_check_line,
    join_lines,
    lemma_join_push,
    quark_line,
    type_id_line,
    type_macro,
};
use crate::text::{ends_with, lemma_suffix_split, without_suffix};

verus! {

/// A node is well formed exactly when its runtime name ends with its local
/// name. For a class, a boxed type, an enumeration and an error domain the
/// local name is the path's identifier. For an interface it is that
/// identifier without its trailing `Interface`, which must be there.
pub proof fn law_well_formed_is_suffix(node: GObjectView)
    ensures
        node.gtype.kind() != GKind::Interface ==> (node.well_formed() <==> ends_with(
            node.name,
            node.path,
        )),
        node.gtype.kind() == GKind::Interface ==> (node.well_formed() <==> ends_with(
            node.path,
            "Interface"@,
        ) && ends_with(node.name, without_suffix(node.path, "Interface"@))),
{
}

/// The prefix and the local name of a well-formed node make up its runtime
/// name, and a node that is not well formed has an error of one of the two
/// kinds instead.
pub proof fn law_names_recompose(node: GObjectView)
    ensures
        node.names() matches Ok(names) ==> names.prefix + names.local_name == node.name
            && ends_with(node.name, names.local_name),
        node.names() matches Err(kind) ==> !node.well_formed() && (kind
            == NameErrorKind::MissingInterfaceSuffix <==> node.gtype.kind() == GKind::Interface
            && !ends_with(node.path, "Interface"@)),
{
    if let Ok(names) = node.names() {
        lemma_suffix_split(node.name, names.local_name);
    }
}

/// Rendering reads the path, the runtime name and the kind of a node and
/// nothing else: two nodes that agree on these are well formed together and
/// render to the same text, whatever their predicates, annotations,
/// documentation and referenced types are. In particular a node renders to
/// the same text every time.
pub proof fn law_rendering_is_a_function(a: GObjectView, b: GObjectView)
    requires
        a.path == b.path,
        a.name == b.name,
        a.gtype.kind() == b.gtype.kind(),
    ensures
        a.well_formed() == b.well_formed(),
        a.names() == b.names(),
        a.macro_lines() == b.macro_lines(),
        a.rendered() == b.rendered(),
{
}

/// The upper-case prefix of a well-formed node.
pub open spec fn prefix_up(node: GObjectView) -> Seq<char> {
    shouty_snake_case(node.names()->Ok_0.prefix)
}

/// The upper-case local name of a well-formed node.
pub open spec fn name_up(node: GObjectView) -> Seq<char> {
    shouty_snake_case(node.names()->Ok_0.local_name)
}

/// The type-id macro of a well-formed node.
pub open spec fn type_up(node: GObjectView) -> Seq<char> {
    type_macro(prefix_up(node), name_up(node))
}

/// A class renders to seven macro lines in a fixed order: type-id,
/// instance cast, instance check, class cast, class check, get-class and the
/// cleanup declaration. With the empty line that ends the group, eight lines
/// reach the output.
pub proof fn law_object_group(node: GObjectView)
    requires
        node.well_formed(),
        node.gtype is Object,
    ensures
        node.macro_lines().len() == 7,
        node.macro_lines()[0] == type_id_line(type_up(node), snake_case(node.name)),
        node.macro_lines()[1] == instance_cast_line(
            prefix_up(node),
            name_up(node),
            type_up(node),
            node.name,
        ),
        node.macro_lines()[2] == instance_check_line(prefix_up(node), name_up(node), type_up(node)),
        node.macro_lines()[3] == class_cast_line(
            prefix_up(node),
            name_up(node),
            type_up(node),
            node.name,
        ),
        node.macro_lines()[4] == class_check_line(prefix_up(node), name_up(node), type_up(node)),
        node.macro_lines()[5] == get_class_line(
            prefix_up(node),
            name_up(node),
            type_up(node),
            node.name,
        ),
        node.macro_lines()[6] == cleanup_line(node.name),
        node.macro_lines().push(Seq::empty()).len() == 8,
        node.rendered() == join_lines(node.macro_lines().push(Seq::empty())),
{
}

/// An interface renders to four macro lines in a fixed order: type-id,
/// instance cast, instance check and get-interface. The empty line that ends
/// the group follows them.
pub proof fn law_interface_group(node: GObjectView)
    requires
        node.well_formed(),
        node.gtype is Interface,
    ensures
        node.macro_lines() == seq![
            type_id_line(type_up(node), snake_case(node.name)),
            instance_cast_line(prefix_up(node), name_up(node), type_up(node), node.name),
            instance_check_line(prefix_up(node), name_up(node), type_up(node)),
            get_interface_line(prefix_up(node), name_up(node), type_up(node), node.name),
        ],
        node.macro_lines().len() == 4,
        node.rendered() == join_lines(node.macro_lines().push(Seq::empty())),
{
}

/// An enumeration and a boxed type render to the type-id line alone, an
/// error domain to the quark line alone. The empty line that ends the group
/// follows it.
pub proof fn law_single_line_groups(node: GObjectView)
    requires
        node.well_formed(),
        node.gtype is Enum || node.gtype is Boxed || node.gtype is Error,
    ensures
        node.macro_lines().len() == 1,
        node.gtype is Enum || node.gtype is Boxed ==> node.macro_lines()[0] == type_id_line(
            type_up(node),
            snake_case(node.name),
        ),
        node.gtype is Error ==> node.macro_lines()[0] == quark_line(
            prefix_up(node),
            name_up(node),
            snake_case(node.name),
        ),
        node.rendered() == node.macro_lines()[0] + seq!['\n', '\n'],
{
    let line = node.macro_lines()[0];
    let lines = node.macro_lines();
    assert(lines =~= seq![line]);
    let none = Seq::<Seq<char>>::empty();
    assert(none.push(line) =~= lines);
    lemma_join_push(none, line);
    lemma_join_push(lines, Seq::empty());
    assert(join_lines(none) + line.push('\n') + Seq::<char>::empty().push('\n') =~= line
        + seq!['\n', '\n']);
}

/// A class with an instance struct and a class struct refers to three types:
/// its parent, the instance struct and the class struct, in this order. A
/// class with neither refers to its parent alone.
pub proof fn law_object_dependencies(
    parent_type: TypeView,
    instance: Option<TypeView>,
    class: Option<TypeView>,
)
    ensures
        instance is Some && class is Some ==> (GTypeView::Object {
            instance,
            class,
            parent_type,
        }).referenced_types() == seq![parent_type, instance->0, class->0],
        instance is None && class is None ==> (GTypeView::Object {
            instance,
            class,
            parent_type,
        }).referenced_types() == seq![parent_type],
{
    let gtype = GTypeView::Object { instance, class, parent_type };
    if instance is Some && class is Some {
        assert(gtype.referenced_types() =~= seq![parent_type, instance->0, class->0]);
    }
    if instance is None && class is None {
        assert(gtype.referenced_types() =~= seq![parent_type]);
    }
}

/// Resolution never changes which types a node refers to, only what is
/// known about them: the paths and generic arguments reported before and
/// after are the same.
pub proof fn law_resolution_keeps_references(
    gtype: GTypeView,
    table: Seq<(Seq<char>, DeclarationType)>,
)
    ensures
        gtype.resolved(table).kind() == gtype.kind(),
        gtype.resolved(table).referenced_types().len() == gtype.referenced_types().len(),
        forall|i: int|
            0 <= i < gtype.referenced_types().len() ==> {
                &&& (#[trigger] gtype.resolved(table).referenced_types()[i]).path
                    == gtype.referenced_types()[i].path
                &&& gtype.resolved(table).referenced_types()[i].generics
                    == gtype.referenced_types()[i].generics
            },
{
}

/// An error domain and an enumeration never render alike: whatever the names
/// are, the quark line and the type-id line differ.
pub proof fn law_quark_line_is_no_type_id_line(
    prefix_up: Seq<char>,
    name_up: Seq<char>,
    quark_snake: Seq<char>,
    type_up: Seq<char>,
    type_snake: Seq<char>,
)
    ensures
        quark_line(prefix_up, name_up, quark_snake) != type_id_line(type_up, type_snake),
{
    reveal_strlit("_quark())");
    reveal_strlit("_get_type())");
    let quark = quark_line(prefix_up, name_up, quark_snake);
    let type_id = type_id_line(type_up, type_snake);
    assert(quark[quark.len() - 4] == 'k');
    assert(type_id[type_id.len() - 4] == 'e');
}

/// Each loader makes nodes of one kind, under the path of the declaration:
/// an error domain is never loaded as an enumeration, nor the other way
/// round, although both are declared by an enum.
pub proof fn law_loaders_keep_kinds(
    scope_cfg: Option<CfgView>,
    decl: DeclView,
    list: MetaListView,
    path: Seq<char>,
    block: ImplDeclView,
)
    ensures
        loaded_error_domain(scope_cfg, decl, list) matches Ok(node) ==> node.gtype is Error
            && node.path == decl.ident,
        loaded_enum(scope_cfg, decl, list) matches Ok(node) ==> node.gtype is Enum && node.path
            == decl.ident,
        loaded_boxed(scope_cfg, decl, list) matches Ok(node) ==> node.gtype is Boxed && node.path
            == decl.ident,
        loaded_interface(path, scope_cfg, block) matches Ok(node) ==> node.gtype is Interface
            && node.path == path,
        loaded_object(path, scope_cfg, block) matches Ok(node) ==> node.gtype is Object
            && node.path == path,
{
}

} // verus!
