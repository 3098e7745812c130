use gbindgen::cfg::Cfg;
use gbindgen::gobject::{GKind, GObject, GType};
use gbindgen::ir::{DeclarationType, Path, Type};
use gbindgen::metadata::{AnnotationSet, Documentation};
use gbindgen::syntax::Attributes;
use gbindgen::writer::SourceWriter;

#[test]
fn new_keeps_every_part() {
    let gtype = GType::Object {
        instance: None,
        class: Some(Type::from_path(Path::new("WidgetClass".to_string()))),
        parent_type: Type::new(
            Path::new("Container".to_string()),
            vec![Type::from_path(Path::new("T".to_string()))],
        ),
    };
    let node = GObject::new(
        Path::new("Widget".to_string()),
        "GtkWidget".to_string(),
        gtype.clone(),
        Some(Cfg::Boolean("unix".to_string())),
        AnnotationSet { annotations: vec!["ignore".to_string()] },
        Documentation { doc_comment: vec![" A widget.".to_string()] },
    );
    assert_eq!(node.path.name(), "Widget");
    assert_eq!(node.name, "GtkWidget");
    assert_eq!(node.gtype, gtype);
    assert_eq!(node.cfg, Some(Cfg::Boolean("unix".to_string())));
    assert_eq!(node.annotations.annotations, vec!["ignore".to_string()]);
    assert_eq!(node.documentation.doc_comment, vec![" A widget.".to_string()]);
    assert_eq!(node.cfg(), Some(&Cfg::Boolean("unix".to_string())));
}

#[test]
fn every_descriptor_knows_its_kind() {
    let ty = || Type::from_path(Path::new("T".to_string()));
    assert_eq!(
        GType::Object { instance: None, class: None, parent_type: ty() }.kind(),
        GKind::Object
    );
    assert_eq!(GType::Interface { type_: ty() }.kind(), GKind::Interface);
    assert_eq!(GType::Boxed.kind(), GKind::Boxed);
    assert_eq!(GType::Enum { type_: ty() }.kind(), GKind::Enum);
    assert_eq!(GType::Error { type_: ty() }.kind(), GKind::Error);
}

#[test]
fn a_fresh_type_is_unresolved() {
    let plain = Type::from_path(Path::new("Widget".to_string()));
    assert_eq!(plain.path, Path::new("Widget".to_string()));
    assert!(plain.generics.is_empty());
    assert_eq!(plain.declaration, None);
    let generic = Type::new(Path::new("List".to_string()), vec![plain.clone()]);
    assert_eq!(generic.generics, vec![plain]);
    assert_eq!(generic.declaration, None);
}

#[test]
fn copies_are_equal_to_what_they_copy() {
    let ty = Type {
        path: Path::new("List".to_string()),
        generics: vec![Type {
            path: Path::new("Widget".to_string()),
            generics: Vec::new(),
            declaration: Some(DeclarationType::Struct),
        }],
        declaration: Some(DeclarationType::Union),
    };
    assert_eq!(ty.clone(), ty);
    let cfg = Cfg::All(vec![
        Cfg::Boolean("unix".to_string()),
        Cfg::Not(Box::new(Cfg::Any(vec![
            Cfg::Named("feature".to_string(), "gtk".to_string()),
            Cfg::All(Vec::new()),
        ]))),
    ]);
    assert_eq!(cfg.clone(), cfg);
    let node = GObject::new(
        Path::new("Widget".to_string()),
        "GtkWidget".to_string(),
        GType::Interface { type_: ty },
        Some(cfg),
        AnnotationSet { annotations: vec!["a".to_string(), "b".to_string()] },
        Documentation { doc_comment: vec!["c".to_string()] },
    );
    assert_eq!(node.clone(), node);
}

#[test]
fn empty_attributes_hold_nothing() {
    let attrs = Attributes::none();
    assert_eq!(attrs.cfg, None);
    assert!(attrs.annotations.is_empty());
    assert!(attrs.documentation.doc_comment.is_empty());
}

#[test]
fn the_writer_appends_text_and_line_ends() {
    let mut out = SourceWriter::new();
    assert_eq!(out.as_str(), "");
    out.write("#define A");
    out.write(" 1");
    assert_eq!(out.as_str(), "#define A 1");
    out.new_line();
    out.new_line();
    out.write("");
    out.write("x");
    assert_eq!(out.as_str(), "#define A 1\n\nx");
    assert_eq!(out.into_string(), "#define A 1\n\nx");
}
