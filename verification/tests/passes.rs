use gbindgen::dependencies::Dependencies;
use gbindgen::gobject::{GObject, GType, ItemContainer};
use gbindgen::ir::{DeclarationType, Path, Type};
use gbindgen::metadata::{AnnotationSet, Documentation};
use gbindgen::resolve::DeclarationTypeResolver;

fn path(name: &str) -> Path {
    Path::new(name.to_string())
}

fn named(name: &str) -> Type {
    Type::from_path(path(name))
}

fn resolved(name: &str, declaration: DeclarationType) -> Type {
    Type { path: path(name), generics: Vec::new(), declaration: Some(declaration) }
}

fn node(name: &str, gtype: GType) -> GObject {
    GObject::new(
        path("Widget"),
        name.to_string(),
        gtype,
        None,
        AnnotationSet::new(),
        Documentation::none(),
    )
}

fn table() -> DeclarationTypeResolver {
    let mut resolver = DeclarationTypeResolver::new();
    resolver.insert(&path("GtkContainer"), DeclarationType::Struct);
    resolver.insert(&path("WidgetClass"), DeclarationType::Union);
    resolver.insert(&path("Align"), DeclarationType::Enum);
    resolver.insert(&path("GtkContainer"), DeclarationType::Enum);
    resolver
}

#[test]
fn object_with_both_structs_reports_three_types() {
    let widget = node(
        "GtkWidget",
        GType::Object {
            instance: Some(named("WidgetInstance")),
            class: Some(named("WidgetClass")),
            parent_type: named("GtkContainer"),
        },
    );
    let mut out = Dependencies::new();
    widget.add_dependencies(&mut out);
    assert_eq!(out.len(), 3);
    assert_eq!(
        out.types,
        vec![named("GtkContainer"), named("WidgetInstance"), named("WidgetClass")]
    );
}

#[test]
fn object_without_structs_reports_its_parent() {
    let widget = node(
        "GtkWidget",
        GType::Object { instance: None, class: None, parent_type: named("GtkContainer") },
    );
    let mut out = Dependencies::new();
    widget.add_dependencies(&mut out);
    assert_eq!(out.len(), 1);
    assert_eq!(out.types, vec![named("GtkContainer")]);
}

#[test]
fn object_with_one_struct_reports_two_types() {
    let widget = node(
        "GtkWidget",
        GType::Object {
            instance: None,
            class: Some(named("WidgetClass")),
            parent_type: named("GtkContainer"),
        },
    );
    let mut out = Dependencies::new();
    widget.add_dependencies(&mut out);
    assert_eq!(out.types, vec![named("GtkContainer"), named("WidgetClass")]);
}

#[test]
fn the_other_kinds_report_their_associated_type() {
    let mut out = Dependencies::new();
    node("GtkWidget", GType::Interface { type_: named("Editable") }).add_dependencies(&mut out);
    node("GtkWidget", GType::Boxed).add_dependencies(&mut out);
    node("GtkWidget", GType::Enum { type_: named("Align") }).add_dependencies(&mut out);
    node("GtkWidget", GType::Error { type_: named("Error") }).add_dependencies(&mut out);
    assert_eq!(out.types, vec![named("Editable"), named("Align"), named("Error")]);
}

#[test]
fn a_reported_type_keeps_its_generic_arguments() {
    let list = Type::new(path("List"), vec![Type::new(path("Rc"), vec![named("Widget")])]);
    let widget = node("GtkWidget", GType::Interface { type_: list.clone() });
    let mut out = Dependencies::new();
    widget.add_dependencies(&mut out);
    assert_eq!(out.types, vec![list]);
}

#[test]
fn the_first_registration_of_a_path_counts() {
    let resolver = table();
    assert_eq!(resolver.type_for(&path("GtkContainer")), Some(DeclarationType::Struct));
    assert_eq!(resolver.type_for(&path("WidgetClass")), Some(DeclarationType::Union));
    assert_eq!(resolver.type_for(&path("Align")), Some(DeclarationType::Enum));
    assert_eq!(resolver.type_for(&path("Widget")), None);
    assert_eq!(DeclarationTypeResolver::new().type_for(&path("Align")), None);
}

#[test]
fn resolving_an_object_rewrites_its_three_types() {
    let mut widget = node(
        "GtkWidget",
        GType::Object {
            instance: Some(resolved("WidgetInstance", DeclarationType::Enum)),
            class: Some(named("WidgetClass")),
            parent_type: named("GtkContainer"),
        },
    );
    widget.resolve_declaration_types(&table());
    assert_eq!(
        widget.gtype,
        GType::Object {
            instance: Some(named("WidgetInstance")),
            class: Some(resolved("WidgetClass", DeclarationType::Union)),
            parent_type: resolved("GtkContainer", DeclarationType::Struct),
        }
    );
    assert_eq!(widget.name, "GtkWidget");
    assert_eq!(widget.path, path("Widget"));
}

#[test]
fn resolving_an_interface_rewrites_its_type() {
    let mut editable = node("GtkEditable", GType::Interface { type_: named("Align") });
    editable.resolve_declaration_types(&table());
    assert_eq!(
        editable.gtype,
        GType::Interface { type_: resolved("Align", DeclarationType::Enum) }
    );
}

#[test]
fn resolving_leaves_enum_error_and_boxed_alone() {
    let mut align = node("GtkAlign", GType::Enum { type_: named("Align") });
    align.resolve_declaration_types(&table());
    assert_eq!(align.gtype, GType::Enum { type_: named("Align") });
    let mut error = node("GtkError", GType::Error { type_: named("Align") });
    error.resolve_declaration_types(&table());
    assert_eq!(error.gtype, GType::Error { type_: named("Align") });
    let mut border = node("GtkBorder", GType::Boxed);
    border.resolve_declaration_types(&table());
    assert_eq!(border.gtype, GType::Boxed);
}

#[test]
fn resolving_keeps_generic_arguments_as_they_are() {
    let mut list = Type::new(path("Align"), vec![named("Align")]);
    list.resolve_declaration_types(&table());
    assert_eq!(list.declaration, Some(DeclarationType::Enum));
    assert_eq!(list.generics, vec![named("Align")]);
}

#[test]
fn a_node_gives_out_what_it_was_made_of() {
    let mut widget = node("GtkWidget", GType::Boxed);
    assert_eq!(widget.path(), &path("Widget"));
    assert_eq!(widget.export_name(), "GtkWidget");
    assert_eq!(widget.cfg(), None);
    assert!(widget.annotations().is_empty());
    assert_eq!(widget.documentation(), &Documentation::none());
    widget.annotations_mut().annotations.push("ignore".to_string());
    assert_eq!(widget.annotations().annotations, vec!["ignore".to_string()]);
    assert_eq!(widget.export_name(), "GtkWidget");
}

#[test]
fn the_container_holds_a_copy_of_the_node() {
    let widget = node("GtkWidget", GType::Enum { type_: named("Align") });
    let ItemContainer::GObject(copy) = widget.container();
    assert_eq!(copy, widget);
}

#[test]
fn renaming_for_the_configuration_changes_nothing() {
    let mut widget = node("GtkWidget", GType::Enum { type_: named("Align") });
    let before = widget.clone();
    widget.rename_for_config();
    assert_eq!(widget, before);
}
