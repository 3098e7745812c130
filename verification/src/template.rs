//! The macro lines of a node, as sequences of characters.
//!
//! Each function gives one line of generated C. The arguments are the pieces
//! that vary from node to node: the upper-case module prefix, the upper-case
//! local name, the type-id macro built from the two, the lower-case form of
//! the runtime name, and the runtime name itself. Everything else is fixed
//! text that the object system's headers expect character for character.

use vstd::prelude::*;
use crate::gobject::GKind;

verus! {

/// The name of the type-id macro: `PREFIX_TYPE_NAME`.
pub open spec fn type_macro(prefix_up: Seq<char>, name_up: Seq<char>) -> Seq<char> {
    prefix_up + "_TYPE_"@ + name_up
}

/// Defines the type-id macro as a call of the `_get_type` function.
pub open spec fn type_id_line(type_up: Seq<char>, snake: Seq<char>) -> Seq<char> {
    "#define "@ + type_up + "                    ("@ + snake + "_get_type())"@
}

/// Defines the error-domain macro as a call of the `_quark` function.
pub open spec fn quark_line(prefix_up: Seq<char>, name_up: Seq<char>, snake: Seq<char>) -> Seq<
    char,
> {
    "#define "@ + prefix_up + "_"@ + name_up + "                    ("@ + snake + "_quark())"@
}

/// Defines the macro that casts an instance pointer.
pub open spec fn instance_cast_line(
    prefix_up: Seq<char>,
    name_up: Seq<char>,
    type_up: Seq<char>,
    runtime_name: Seq<char>,
) -> Seq<char> {
    "#define "@ + prefix_up + "_"@ + name_up
        + "(obj)            (G_TYPE_CHECK_INSTANCE_CAST((obj),"@ + type_up + ","@ + runtime_name
        + "))"@
}

/// Defines the macro that tests the type of an instance pointer.
pub open spec fn instance_check_line(
    prefix_up: Seq<char>,
    name_up: Seq<char>,
    type_up: Seq<char>,
) -> Seq<char> {
    "#define "@ + prefix_up + "_IS_"@ + name_up
        + "(obj)         (G_TYPE_CHECK_INSTANCE_TYPE((obj),"@ + type_up + "))"@
}

/// Defines the macro that casts a class pointer.
pub open spec fn class_cast_line(
    prefix_up: Seq<char>,
    name_up: Seq<char>,
    type_up: Seq<char>,
    runtime_name: Seq<char>,
) -> Seq<char> {
    "#define "@ + prefix_up + "_"@ + name_up
        + "_CLASS(klass)    (G_TYPE_CHECK_CLASS_CAST((klass),"@ + type_up + ","@ + runtime_name
        + "Class))"@
}

/// Defines the macro that tests the type of a class pointer.
pub open spec fn class_check_line(
    prefix_up: Seq<char>,
    name_up: Seq<char>,
    type_up: Seq<char>,
) -> Seq<char> {
    "#define "@ + prefix_up + "_IS_"@ + name_up
        + "_CLASS(klass) (G_TYPE_CHECK_CLASS_TYPE((klass),"@ + type_up + "))"@
}

/// Defines the macro that gets the class of an instance.
pub open spec fn get_class_line(
    prefix_up: Seq<char>,
    name_up: Seq<char>,
    type_up: Seq<char>,
    runtime_name: Seq<char>,
) -> Seq<char> {
    "#define "@ + prefix_up + "_"@ + name_up
        + "_GET_CLASS(obj)  (G_TYPE_INSTANCE_GET_CLASS((obj),"@ + type_up + ","@ + runtime_name
        + "Class))"@
}

/// Declares the cleanup function that lets a scoped pointer drop its
/// reference.
pub open spec fn cleanup_line(runtime_name: Seq<char>) -> Seq<char> {
    "G_DEFINE_AUTOPTR_CLEANUP_FUNC("@ + runtime_name + ", g_object_unref)"@
}

/// Defines the macro that gets the interface table of an instance.
pub open spec fn get_interface_line(
    prefix_up: Seq<char>,
    name_up: Seq<char>,
    type_up: Seq<char>,
    runtime_name: Seq<char>,
) -> Seq<char> {
    "#define "@ + prefix_up + "_"@ + name_up
        + "_GET_INTERFACE(obj)  (G_TYPE_INSTANCE_GET_CLASS((obj),"@ + type_up + ","@
        + runtime_name + "Interface))"@
}

/// The macro group of a node of the given kind, line by line and in the order
/// of emission. A class gets seven lines, an interface four, and a boxed
/// type, an enumeration and an error domain one each; an error domain's line
/// is the quark macro, every other first line the type-id macro.
pub open spec fn macro_lines(
    kind: GKind,
    runtime_name: Seq<char>,
    prefix_up: Seq<char>,
    name_up: Seq<char>,
    snake: Seq<char>,
) -> Seq<Seq<char>> {
    let type_up = type_macro(prefix_up, name_up);
    match kind {
        GKind::Object => seq![
            type_id_line(type_up, snake),
            instance_cast_line(prefix_up, name_up, type_up, runtime_name),
            instance_check_line(prefix_up, name_up, type_up),
            class_cast_line(prefix_up, name_up, type_up, runtime_name),
            class_check_line(prefix_up, name_up, type_up),
            get_class_line(prefix_up, name_up, type_up, runtime_name),
            cleanup_line(runtime_name),
        ],
        GKind::Interface => seq![
            type_id_line(type_up, snake),
            instance_cast_line(prefix_up, name_up, type_up, runtime_name),
            instance_check_line(prefix_up, name_up, type_up),
            get_interface_line(prefix_up, name_up, type_up, runtime_name),
        ],
        GKind::Boxed => seq![type_id_line(type_up, snake)],
        GKind::Enum => seq![type_id_line(type_up, snake)],
        GKind::Error => seq![quark_line(prefix_up, name_up, snake)],
    }
}

/// The text of a list of lines: each line followed by a line feed.
pub open spec fn join_lines(lines: Seq<Seq<char>>) -> Seq<char>
    decreases lines.len(),
{
    if lines.len() == 0 {
        Seq::empty()
    } else {
        join_lines(lines.drop_last()) + lines.last().push('\n')
    }
}

/// What a macro group looks like in the output: its lines, then one empty
/// line that sets it apart from what follows.
pub open spec fn group_text(lines: Seq<Seq<char>>) -> Seq<char> {
    join_lines(lines.push(Seq::empty()))
}

/// Joining one more line appends it and a line feed.
pub proof fn lemma_join_push(lines: Seq<Seq<char>>, line: Seq<char>)
    ensures
        join_lines(lines.push(line)) == join_lines(lines) + line.push('\n'),
{
    assert(lines.push(line).drop_last() =~= lines);
}

} // verus!
