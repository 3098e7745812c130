use gbindgen::gobject::{GKind, GObject, GType};
use gbindgen::ir::{Path, Type};
use gbindgen::metadata::{AnnotationSet, Documentation};
use gbindgen::names::{NameError, NameErrorKind};
use gbindgen::render::{check_names, render_macros, write_all, write_group};
use gbindgen::writer::SourceWriter;

fn named(name: &str) -> Type {
    Type::from_path(Path::new(name.to_string()))
}

fn node(path: &str, name: &str, gtype: GType) -> GObject {
    GObject::new(
        Path::new(path.to_string()),
        name.to_string(),
        gtype,
        None,
        AnnotationSet::new(),
        Documentation::none(),
    )
}

fn object(path: &str, name: &str, parent: &str) -> GObject {
    node(
        path,
        name,
        GType::Object { instance: None, class: None, parent_type: named(parent) },
    )
}

fn text_of(lines: &[&str]) -> String {
    let mut text = String::new();
    for line in lines {
        text.push_str(line);
        text.push('\n');
    }
    text.push('\n');
    text
}

fn written(node: &GObject) -> String {
    let mut out = SourceWriter::new();
    node.write(&mut out).unwrap();
    out.into_string()
}

#[test]
fn widget_object_first_line_is_type_id() {
    let widget = object("Widget", "GtkWidget", "GtkContainer");
    let names = widget.derive_names().unwrap();
    assert_eq!(names.prefix, "Gtk");
    assert_eq!(names.local_name, "Widget");
    let lines = widget.render().unwrap();
    assert_eq!(lines[0], "#define GTK_TYPE_WIDGET                    (gtk_widget_get_type())");
    assert!(lines[0].starts_with("#define GTK_TYPE_WIDGET "));
}

#[test]
fn object_renders_seven_macros_and_a_blank_line() {
    let widget = object("Widget", "GtkWidget", "GtkContainer");
    let expected = vec![
        "#define GTK_TYPE_WIDGET                    (gtk_widget_get_type())",
        "#define GTK_WIDGET(obj)            (G_TYPE_CHECK_INSTANCE_CAST((obj),GTK_TYPE_WIDGET,GtkWidget))",
        "#define GTK_IS_WIDGET(obj)         (G_TYPE_CHECK_INSTANCE_TYPE((obj),GTK_TYPE_WIDGET))",
        "#define GTK_WIDGET_CLASS(klass)    (G_TYPE_CHECK_CLASS_CAST((klass),GTK_TYPE_WIDGET,GtkWidgetClass))",
        "#define GTK_IS_WIDGET_CLASS(klass) (G_TYPE_CHECK_CLASS_TYPE((klass),GTK_TYPE_WIDGET))",
        "#define GTK_WIDGET_GET_CLASS(obj)  (G_TYPE_INSTANCE_GET_CLASS((obj),GTK_TYPE_WIDGET,GtkWidgetClass))",
        "G_DEFINE_AUTOPTR_CLEANUP_FUNC(GtkWidget, g_object_unref)",
    ];
    assert_eq!(widget.render().unwrap(), expected);
    let text = written(&widget);
    assert_eq!(text, text_of(&expected));
    assert_eq!(text.split('\n').count() - 1, 8);
    assert!(text.ends_with("g_object_unref)\n\n"));
}

#[test]
fn object_lines_do_not_depend_on_struct_types() {
    let bare = object("Widget", "GtkWidget", "GtkContainer");
    let full = node(
        "Widget",
        "GtkWidget",
        GType::Object {
            instance: Some(named("WidgetInstance")),
            class: Some(named("WidgetClass")),
            parent_type: named("GInitiallyUnowned"),
        },
    );
    assert_eq!(written(&bare), written(&full));
}

#[test]
fn interface_renders_four_macros() {
    let editable = node(
        "EditableInterface",
        "GtkEditable",
        GType::Interface { type_: named("Editable") },
    );
    let names = editable.derive_names().unwrap();
    assert_eq!(names.prefix, "Gtk");
    assert_eq!(names.local_name, "Editable");
    let expected = vec![
        "#define GTK_TYPE_EDITABLE                    (gtk_editable_get_type())",
        "#define GTK_EDITABLE(obj)            (G_TYPE_CHECK_INSTANCE_CAST((obj),GTK_TYPE_EDITABLE,GtkEditable))",
        "#define GTK_IS_EDITABLE(obj)         (G_TYPE_CHECK_INSTANCE_TYPE((obj),GTK_TYPE_EDITABLE))",
        "#define GTK_EDITABLE_GET_INTERFACE(obj)  (G_TYPE_INSTANCE_GET_CLASS((obj),GTK_TYPE_EDITABLE,GtkEditableInterface))",
    ];
    assert_eq!(editable.render().unwrap(), expected);
    assert_eq!(written(&editable), text_of(&expected));
}

#[test]
fn interface_without_suffix_is_reported() {
    let editable = node("Editable", "GtkEditable", GType::Interface { type_: named("Editable") });
    let error = editable.derive_names().unwrap_err();
    assert_eq!(error.kind, NameErrorKind::MissingInterfaceSuffix);
    assert_eq!(error.path, Path::new("Editable".to_string()));
    assert_eq!(error.name, "GtkEditable");
    assert_eq!(
        error.message(),
        "interface path `Editable` does not end with `Interface`"
    );
    assert!(editable.render().is_err());
}

#[test]
fn interface_runtime_name_must_end_with_stripped_name() {
    let editable = node(
        "EditableInterface",
        "GtkEditableInterface",
        GType::Interface { type_: named("Editable") },
    );
    let error = editable.derive_names().unwrap_err();
    assert_eq!(error.kind, NameErrorKind::NotASuffix);
}

#[test]
fn interface_named_only_by_the_suffix_has_an_empty_local_name() {
    let odd = node("Interface", "Gtk", GType::Interface { type_: named("Gtk") });
    let names = odd.derive_names().unwrap();
    assert_eq!(names.prefix, "Gtk");
    assert_eq!(names.local_name, "");
}

#[test]
fn enum_renders_the_type_id_line_alone() {
    let align = node("Align", "GtkAlign", GType::Enum { type_: named("Align") });
    let expected = vec!["#define GTK_TYPE_ALIGN                    (gtk_align_get_type())"];
    assert_eq!(align.render().unwrap(), expected);
    assert_eq!(written(&align), text_of(&expected));
}

#[test]
fn boxed_renders_the_type_id_line_alone() {
    let border = node("Border", "GtkBorder", GType::Boxed);
    let expected = vec!["#define GTK_TYPE_BORDER                    (gtk_border_get_type())"];
    assert_eq!(border.render().unwrap(), expected);
    assert_eq!(written(&border), text_of(&expected));
}

#[test]
fn error_domain_renders_the_quark_line_alone() {
    let error = node("Error", "MyLibError", GType::Error { type_: named("Error") });
    let names = error.derive_names().unwrap();
    assert_eq!(names.prefix, "MyLib");
    assert_eq!(names.local_name, "Error");
    let expected = vec!["#define MY_LIB_ERROR                    (my_lib_error_quark())"];
    assert_eq!(error.render().unwrap(), expected);
    assert_eq!(written(&error), text_of(&expected));
}

#[test]
fn error_and_enum_differ_in_their_line() {
    let as_error = node("Error", "GtkError", GType::Error { type_: named("Error") });
    let as_enum = node("Error", "GtkError", GType::Enum { type_: named("Error") });
    assert_eq!(
        as_error.render().unwrap(),
        vec!["#define GTK_ERROR                    (gtk_error_quark())"]
    );
    assert_eq!(
        as_enum.render().unwrap(),
        vec!["#define GTK_TYPE_ERROR                    (gtk_error_get_type())"]
    );
}

#[test]
fn runtime_name_that_does_not_end_with_local_name_is_an_error() {
    let button = object("Widget", "GtkButton", "GtkContainer");
    let error: NameError = button.derive_names().unwrap_err();
    assert_eq!(error.kind, NameErrorKind::NotASuffix);
    assert_eq!(error.path, Path::new("Widget".to_string()));
    assert_eq!(error.name, "GtkButton");
    assert_eq!(
        error.message(),
        "runtime name `GtkButton` does not end with the local name of `Widget`"
    );
    assert!(button.render().is_err());
    let mut out = SourceWriter::new();
    out.write("before");
    assert!(button.write(&mut out).is_err());
    assert_eq!(out.as_str(), "before");
}

#[test]
fn runtime_name_shorter_than_local_name_is_an_error() {
    let short = node("Widget", "get", GType::Boxed);
    assert_eq!(short.derive_names().unwrap_err().kind, NameErrorKind::NotASuffix);
}

#[test]
fn runtime_name_equal_to_local_name_has_an_empty_prefix() {
    let widget = node("Widget", "Widget", GType::Boxed);
    let names = widget.derive_names().unwrap();
    assert_eq!(names.prefix, "");
    assert_eq!(names.local_name, "Widget");
    assert_eq!(
        widget.render().unwrap(),
        vec!["#define _TYPE_WIDGET                    (widget_get_type())"]
    );
}

#[test]
fn multi_word_names_are_split_at_case_changes() {
    let view = object("SourceView", "GtkSourceView", "GtkTextView");
    let lines = view.render().unwrap();
    assert_eq!(lines[0], "#define GTK_TYPE_SOURCE_VIEW                    (gtk_source_view_get_type())");
    assert_eq!(lines[2], "#define GTK_IS_SOURCE_VIEW(obj)         (G_TYPE_CHECK_INSTANCE_TYPE((obj),GTK_TYPE_SOURCE_VIEW))");
}

#[test]
fn non_ascii_names_are_split_by_characters() {
    let node = node("Größe", "GtkGröße", GType::Boxed);
    let names = node.derive_names().unwrap();
    assert_eq!(names.prefix, "Gtk");
    assert_eq!(names.local_name, "Größe");
}

#[test]
fn rendering_twice_gives_the_same_bytes() {
    let widget = object("Widget", "GtkWidget", "GtkContainer");
    assert_eq!(written(&widget).into_bytes(), written(&widget).into_bytes());
    assert_eq!(widget.render().unwrap(), widget.render().unwrap());
}

#[test]
fn write_appends_to_what_is_there() {
    let border = node("Border", "GtkBorder", GType::Boxed);
    let mut out = SourceWriter::new();
    out.write("/* head */");
    out.new_line();
    border.write(&mut out).unwrap();
    assert_eq!(
        out.as_str(),
        "/* head */\n#define GTK_TYPE_BORDER                    (gtk_border_get_type())\n\n"
    );
}

#[test]
fn render_macros_fills_the_templates_with_what_it_is_given() {
    let lines = render_macros(GKind::Object, "R", "P", "N", "s");
    let expected = vec![
        "#define P_TYPE_N                    (s_get_type())",
        "#define P_N(obj)            (G_TYPE_CHECK_INSTANCE_CAST((obj),P_TYPE_N,R))",
        "#define P_IS_N(obj)         (G_TYPE_CHECK_INSTANCE_TYPE((obj),P_TYPE_N))",
        "#define P_N_CLASS(klass)    (G_TYPE_CHECK_CLASS_CAST((klass),P_TYPE_N,RClass))",
        "#define P_IS_N_CLASS(klass) (G_TYPE_CHECK_CLASS_TYPE((klass),P_TYPE_N))",
        "#define P_N_GET_CLASS(obj)  (G_TYPE_INSTANCE_GET_CLASS((obj),P_TYPE_N,RClass))",
        "G_DEFINE_AUTOPTR_CLEANUP_FUNC(R, g_object_unref)",
    ];
    assert_eq!(lines, expected);
    let lines = render_macros(GKind::Interface, "R", "P", "N", "s");
    let expected = vec![
        "#define P_TYPE_N                    (s_get_type())",
        "#define P_N(obj)            (G_TYPE_CHECK_INSTANCE_CAST((obj),P_TYPE_N,R))",
        "#define P_IS_N(obj)         (G_TYPE_CHECK_INSTANCE_TYPE((obj),P_TYPE_N))",
        "#define P_N_GET_INTERFACE(obj)  (G_TYPE_INSTANCE_GET_CLASS((obj),P_TYPE_N,RInterface))",
    ];
    assert_eq!(lines, expected);
    assert_eq!(
        render_macros(GKind::Error, "R", "P", "N", "s"),
        vec!["#define P_N                    (s_quark())"]
    );
    assert_eq!(
        render_macros(GKind::Enum, "R", "P", "N", "s"),
        vec!["#define P_TYPE_N                    (s_get_type())"]
    );
    assert_eq!(
        render_macros(GKind::Boxed, "R", "P", "N", "s"),
        vec!["#define P_TYPE_N                    (s_get_type())"]
    );
}

#[test]
fn write_group_ends_every_line_and_adds_an_empty_one() {
    let mut out = SourceWriter::new();
    write_group(&vec!["a".to_string(), "b".to_string()], &mut out);
    assert_eq!(out.as_str(), "a\nb\n\n");
    let mut out = SourceWriter::new();
    write_group(&Vec::new(), &mut out);
    assert_eq!(out.as_str(), "\n");
}

#[test]
fn check_names_reports_every_ill_formed_node_in_order() {
    let nodes = vec![
        object("Widget", "GtkButton", "GtkContainer"),
        node("Border", "GtkBorder", GType::Boxed),
        node("Editable", "GtkEditable", GType::Interface { type_: named("Editable") }),
        node("Align", "GtkJustify", GType::Enum { type_: named("Align") }),
    ];
    let errors = check_names(&nodes);
    assert_eq!(errors.len(), 3);
    assert_eq!(errors[0].name, "GtkButton");
    assert_eq!(errors[0].kind, NameErrorKind::NotASuffix);
    assert_eq!(errors[1].name, "GtkEditable");
    assert_eq!(errors[1].kind, NameErrorKind::MissingInterfaceSuffix);
    assert_eq!(errors[2].name, "GtkJustify");
    assert_eq!(errors[2].kind, NameErrorKind::NotASuffix);
    assert!(check_names(&Vec::new()).is_empty());
}

#[test]
fn write_all_writes_every_group_in_order() {
    let nodes = vec![
        node("Border", "GtkBorder", GType::Boxed),
        node("Error", "GtkError", GType::Error { type_: named("Error") }),
    ];
    let mut out = SourceWriter::new();
    assert!(write_all(&nodes, &mut out).is_ok());
    assert_eq!(
        out.as_str(),
        "#define GTK_TYPE_BORDER                    (gtk_border_get_type())\n\n#define GTK_ERROR                    (gtk_error_quark())\n\n"
    );
}

#[test]
fn write_all_writes_nothing_when_a_node_is_ill_formed() {
    let nodes = vec![
        node("Border", "GtkBorder", GType::Boxed),
        object("Widget", "GtkButton", "GtkContainer"),
        node("Align", "GtkJustify", GType::Enum { type_: named("Align") }),
    ];
    let mut out = SourceWriter::new();
    out.write("kept");
    let errors = write_all(&nodes, &mut out).unwrap_err();
    assert_eq!(errors.len(), 2);
    assert_eq!(errors[0].path, Path::new("Widget".to_string()));
    assert_eq!(errors[1].path, Path::new("Align".to_string()));
    assert_eq!(out.as_str(), "kept");
}
