//! The macro renderer.
//!
//! Rendering a node takes three steps: derive prefix and local name, convert
//! their case, and fill the line templates of the node's kind. The first and
//! the last are this crate's own; the second is `heck`'s, so the output is
//! stated in terms of the conversions that [`crate::case`] names.

use vstd::prelude::*;
use vstd::string::*;
use crate::case::{shouty_snake_case, snake_case, to_shouty_snake_case, to_snake_case};
use crate::gobject::{GKind, GObject, GObjectView, node_views};
use crate::names::{NameError, NameErrorView, error_views};
use crate::template;
use crate::template::{group_text, join_lines, lemma_join_push, macro_lines};
use crate::text::strings_view;
use crate::writer::SourceWriter;

verus! {

fn type_macro(prefix_up: &str, name_up: &str) -> (name: String)
    ensures
        name@ == template::type_macro(prefix_up@, name_up@),
{
    let mut name = prefix_up.to_owned();
    name.append("_TYPE_");
    name.append(name_up);
    name
}

fn type_id_line(type_up: &str, snake: &str) -> (line: String)
    ensures
        line@ == template::type_id_line(type_up@, snake@),
{
    let mut line = "#define ".to_owned();
    line.append(type_up);
    line.append("                    (");
    line.append(snake);
    line.append("_get_type())");
    line
}

fn quark_line(prefix_up: &str, name_up: &str, snake: &str) -> (line: String)
    ensures
        line@ == template::quark_line(prefix_up@, name_up@, snake@),
{
    let mut line = "#define ".to_owned();
    line.append(prefix_up);
    line.append("_");
    line.append(name_up);
    line.append("                    (");
    line.append(snake);
    line.append("_quark())");
    line
}

fn instance_cast_line(prefix_up: &str, name_up: &str, type_up: &str, runtime_name: &str) -> (line:
    String)
    ensures
        line@ == template::instance_cast_line(prefix_up@, name_up@, type_up@, runtime_name@),
{
    let mut line = "#define ".to_owned();
    line.append(prefix_up);
    line.append("_");
    line.append(name_up);
    line.append("(obj)            (G_TYPE_CHECK_INSTANCE_CAST((obj),");
    line.append(type_up);
    line.append(",");
    line.append(runtime_name);
    line.append("))");
    line
}

fn instance_check_line(prefix_up: &str, name_up: &str, type_up: &str) -> (line: String)
    ensures
        line@ == template::instance_check_line(prefix_up@, name_up@, type_up@),
{
    let mut line = "#define ".to_owned();
    line.append(prefix_up);
    line.append("_IS_");
    line.append(name_up);
    line.append("(obj)         (G_TYPE_CHECK_INSTANCE_TYPE((obj),");
    line.append(type_up);
    line.append("))");
    line
}

fn class_cast_line(prefix_up: &str, name_up: &str, type_up: &str, runtime_name: &str) -> (line:
    String)
    ensures
        line@ == template::class_cast_line(prefix_up@, name_up@, type_up@, runtime_name@),
{
    let mut line = "#define ".to_owned();
    line.append(prefix_up);
    line.append("_");
    line.append(name_up);
    line.append("_CLASS(klass)    (G_TYPE_CHECK_CLASS_CAST((klass),");
    line.append(type_up);
    line.append(",");
    line.append(runtime_name);
    line.append("Class))");
    line
}

fn class_check_line(prefix_up: &str, name_up: &str, type_up: &str) -> (line: String)
    ensures
        line@ == template::class_check_line(prefix_up@, name_up@, type_up@),
{
    let mut line = "#define ".to_owned();
    line.append(prefix_up);
    line.append("_IS_");
    line.append(name_up);
    line.append("_CLASS(klass) (G_TYPE_CHECK_CLASS_TYPE((klass),");
    line.append(type_up);
    line.append("))");
    line
}

fn get_class_line(prefix_up: &str, name_up: &str, type_up: &str, runtime_name: &str) -> (line:
    String)
    ensures
        line@ == template::get_class_line(prefix_up@, name_up@, type_up@, runtime_name@),
{
    let mut line = "#define ".to_owned();
    line.append(prefix_up);
    line.append("_");
    line.append(name_up);
    line.append("_GET_CLASS(obj)  (G_TYPE_INSTANCE_GET_CLASS((obj),");
    line.append(type_up);
    line.append(",");
    line.append(runtime_name);
    line.append("Class))");
    line
}

fn cleanup_line(runtime_name: &str) -> (line: String)
    ensures
        line@ == template::cleanup_line(runtime_name@),
{
    let mut line = "G_DEFINE_AUTOPTR_CLEANUP_FUNC(".to_owned();
    line.append(runtime_name);
    line.append(", g_object_unref)");
    line
}

fn get_interface_line(prefix_up: &str, name_up: &str, type_up: &str, runtime_name: &str) -> (line:
    String)
    ensures
        line@ == template::get_interface_line(prefix_up@, name_up@, type_up@, runtime_name@),
{
    let mut line = "#define ".to_owned();
    line.append(prefix_up);
    line.append("_");
    line.append(name_up);
    line.append("_GET_INTERFACE(obj)  (G_TYPE_INSTANCE_GET_CLASS((obj),");
    line.append(type_up);
    line.append(",");
    line.append(runtime_name);
    line.append("Interface))");
    line
}

/// The macro group of a node, given its kind, its runtime name and the
/// case-converted pieces: the upper-case prefix, the upper-case local name
/// and the lower-case runtime name.
pub fn render_macros(
    kind: GKind,
    runtime_name: &str,
    prefix_up: &str,
    name_up: &str,
    snake: &str,
) -> (lines: Vec<String>)
    ensures
        strings_view(lines@) == macro_lines(kind, runtime_name@, prefix_up@, name_up@, snake@),
{
    let type_up = type_macro(prefix_up, name_up);
    let mut lines: Vec<String> = Vec::new();
    match kind {
        GKind::Object => {
            lines.push(type_id_line(type_up.as_str(), snake));
            lines.push(instance_cast_line(prefix_up, name_up, type_up.as_str(), runtime_name));
            lines.push(instance_check_line(prefix_up, name_up, type_up.as_str()));
            lines.push(class_cast_line(prefix_up, name_up, type_up.as_str(), runtime_name));
            lines.push(class_check_line(prefix_up, name_up, type_up.as_str()));
            lines.push(get_class_line(prefix_up, name_up, type_up.as_str(), runtime_name));
            lines.push(cleanup_line(runtime_name));
        },
        GKind::Interface => {
            lines.push(type_id_line(type_up.as_str(), snake));
            lines.push(instance_cast_line(prefix_up, name_up, type_up.as_str(), runtime_name));
            lines.push(instance_check_line(prefix_up, name_up, type_up.as_str()));
            lines.push(get_interface_line(prefix_up, name_up, type_up.as_str(), runtime_name));
        },
        GKind::Boxed => {
            lines.push(type_id_line(type_up.as_str(), snake));
        },
        GKind::Enum => {
            lines.push(type_id_line(type_up.as_str(), snake));
        },
        GKind::Error => {
            lines.push(quark_line(prefix_up, name_up, snake));
        },
    }
    assert(strings_view(lines@) =~= macro_lines(
        kind,
        runtime_name@,
        prefix_up@,
        name_up@,
        snake@,
    ));
    lines
}

/// Writes each line to `out` and ends it, then ends one more, empty line.
pub fn write_group(lines: &Vec<String>, out: &mut SourceWriter)
    ensures
        final(out)@ == old(out)@ + group_text(strings_view(lines@)),
{
    let ghost all = strings_view(lines@);
    let mut i: usize = 0;
    assert(all.take(0) =~= Seq::<Seq<char>>::empty());
    assert(old(out)@ + join_lines(Seq::<Seq<char>>::empty()) =~= old(out)@);
    while i < lines.len()
        invariant
            i <= lines@.len(),
            all == strings_view(lines@),
            out@ == old(out)@ + join_lines(all.take(i as int)),
        decreases lines@.len() - i,
    {
        let ghost before = out@;
        out.write(lines[i].as_str());
        out.new_line();
        proof {
            let done = all.take(i as int);
            let line = all[i as int];
            assert(all.take(i + 1) =~= done.push(line));
            lemma_join_push(done, line);
            assert(out@ =~= before + line.push('\n'));
            assert(before + line.push('\n') =~= old(out)@ + (join_lines(done) + line.push('\n')));
        }
        i += 1;
    }
    let ghost before = out@;
    out.new_line();
    proof {
        assert(all.take(lines@.len() as int) =~= all);
        lemma_join_push(all, Seq::<char>::empty());
        assert(Seq::<char>::empty().push('\n') =~= seq!['\n']);
        assert(out@ =~= before + Seq::<char>::empty().push('\n'));
        assert(before + Seq::<char>::empty().push('\n') =~= old(out)@ + (join_lines(all)
            + Seq::<char>::empty().push('\n')));
    }
}

impl GObjectView {
    /// The macro group of this node, line by line.
    pub open spec fn macro_lines(self) -> Seq<Seq<char>>
        recommends
            self.well_formed(),
    {
        let names = self.names()->Ok_0;
        macro_lines(
            self.gtype.kind(),
            self.name,
            shouty_snake_case(names.prefix),
            shouty_snake_case(names.local_name),
            snake_case(self.name),
        )
    }

    /// What rendering this node adds to the output.
    pub open spec fn rendered(self) -> Seq<char>
        recommends
            self.well_formed(),
    {
        group_text(self.macro_lines())
    }
}

/// The name errors of the nodes of a list that are not well formed, in the
/// order of the nodes.
pub open spec fn name_errors(nodes: Seq<GObjectView>) -> Seq<NameErrorView>
    decreases nodes.len(),
{
    if nodes.len() == 0 {
        Seq::empty()
    } else if nodes.last().well_formed() {
        name_errors(nodes.drop_last())
    } else {
        name_errors(nodes.drop_last()).push(nodes.last().name_error())
    }
}

/// What rendering the nodes of a list, one after the other, adds to the
/// output.
pub open spec fn rendered_all(nodes: Seq<GObjectView>) -> Seq<char>
    decreases nodes.len(),
{
    if nodes.len() == 0 {
        Seq::empty()
    } else {
        rendered_all(nodes.drop_last()) + nodes.last().rendered()
    }
}

impl GObject {
    /// The macro group of this node, line by line, without the empty line
    /// that follows it in the output.
    ///
    /// Succeeds exactly on well-formed nodes; the error is the one of
    /// [`GObject::derive_names`].
    pub fn render(&self) -> (lines: Result<Vec<String>, NameError>)
        ensures
            match lines {
                Ok(l) => self@.well_formed() && strings_view(l@) == self@.macro_lines(),
                Err(e) => !self@.well_formed() && e@ == self@.name_error(),
            },
    {
        match self.derive_names() {
            Ok(names) => {
                let name_up = to_shouty_snake_case(names.local_name.as_str());
                let prefix_up = to_shouty_snake_case(names.prefix.as_str());
                let snake = to_snake_case(self.name.as_str());
                Ok(
                    render_macros(
                        self.gtype.kind(),
                        self.name.as_str(),
                        prefix_up.as_str(),
                        name_up.as_str(),
                        snake.as_str(),
                    ),
                )
            },
            Err(error) => Err(error),
        }
    }

    /// Writes the macro group of this node to `out`: its lines, then an empty
    /// line.
    ///
    /// A node that is not well formed writes nothing and is reported instead.
    pub fn write(&self, out: &mut SourceWriter) -> (done: Result<(), NameError>)
        ensures
            match done {
                Ok(_) => self@.well_formed() && final(out)@ == old(out)@ + self@.rendered(),
                Err(e) => !self@.well_formed() && e@ == self@.name_error() && final(out)@ == old(
                    out,
                )@,
            },
    {
        match self.render() {
            Ok(lines) => {
                write_group(&lines, out);
                Ok(())
            },
            Err(error) => Err(error),
        }
    }
}

/// Collects the name errors of all nodes, so that every ill-formed node is
/// reported at once.
pub fn check_names(nodes: &Vec<GObject>) -> (errors: Vec<NameError>)
    ensures
        error_views(errors@) == name_errors(node_views(nodes@)),
{
    let ghost all = node_views(nodes@);
    let mut errors: Vec<NameError> = Vec::new();
    let mut i: usize = 0;
    assert(all.take(0) =~= Seq::<GObjectView>::empty());
    assert(error_views(errors@) =~= name_errors(all.take(0)));
    while i < nodes.len()
        invariant
            i <= nodes@.len(),
            all == node_views(nodes@),
            error_views(errors@) == name_errors(all.take(i as int)),
        decreases nodes@.len() - i,
    {
        let ghost before = error_views(errors@);
        proof {
            assert(all.take(i + 1).drop_last() =~= all.take(i as int));
            assert(all.take(i + 1).last() == nodes@[i as int]@);
        }
        match nodes[i].derive_names() {
            Ok(_) => {},
            Err(error) => {
                errors.push(error);
                assert(error_views(errors@) =~= before.push(error@));
            },
        }
        i += 1;
    }
    assert(all.take(nodes@.len() as int) =~= all);
    errors
}

/// Renders all nodes in order, or none.
///
/// When every node is well formed, the macro groups are written one after
/// the other. Otherwise nothing is written and the errors of all ill-formed
/// nodes are returned, in the order of the nodes.
pub fn write_all(nodes: &Vec<GObject>, out: &mut SourceWriter) -> (done: Result<
    (),
    Vec<NameError>,
>)
    ensures
        match done {
            Ok(_) => name_errors(node_views(nodes@)).len() == 0 && final(out)@ == old(out)@
                + rendered_all(node_views(nodes@)),
            Err(errors) => errors@.len() > 0 && error_views(errors@) == name_errors(
                node_views(nodes@),
            ) && final(out)@ == old(out)@,
        },
{
    let errors = check_names(nodes);
    if errors.len() > 0 {
        return Err(errors);
    }
    let ghost all = node_views(nodes@);
    let mut i: usize = 0;
    assert(all.take(0) =~= Seq::<GObjectView>::empty());
    assert(old(out)@ + rendered_all(all.take(0)) =~= old(out)@);
    while i < nodes.len()
        invariant
            i <= nodes@.len(),
            all == node_views(nodes@),
            name_errors(all).len() == 0,
            out@ == old(out)@ + rendered_all(all.take(i as int)),
        decreases nodes@.len() - i,
    {
        let ghost before = out@;
        proof {
            lemma_no_errors_all_well_formed(all, i as int);
            assert(all.take(i + 1).drop_last() =~= all.take(i as int));
            assert(all.take(i + 1).last() == nodes@[i as int]@);
        }
        let written = nodes[i].write(out);
        assert(written is Ok);
        assert(before + nodes@[i as int]@.rendered() =~= old(out)@ + (rendered_all(
            all.take(i as int),
        ) + nodes@[i as int]@.rendered()));
        i += 1;
    }
    assert(all.take(nodes@.len() as int) =~= all);
    Ok(())
}

/// A list without name errors holds well-formed nodes only.
pub proof fn lemma_no_errors_all_well_formed(nodes: Seq<GObjectView>, i: int)
    requires
        name_errors(nodes).len() == 0,
        0 <= i < nodes.len(),
    ensures
        nodes[i].well_formed(),
    decreases nodes.len(),
{
    if i < nodes.len() - 1 {
        lemma_no_errors_all_well_formed(nodes.drop_last(), i);
    }
}

} // verus!
