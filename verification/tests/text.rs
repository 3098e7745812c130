use gbindgen::text::{clone_strings, str_eq, strip_suffix};

#[test]
fn strip_suffix_removes_what_is_at_the_end() {
    assert_eq!(strip_suffix("GtkWidget", "Widget"), Some("Gtk"));
    assert_eq!(strip_suffix("GtkWidget", ""), Some("GtkWidget"));
    assert_eq!(strip_suffix("GtkWidget", "GtkWidget"), Some(""));
    assert_eq!(strip_suffix("", ""), Some(""));
}

#[test]
fn strip_suffix_refuses_what_is_not_at_the_end() {
    assert_eq!(strip_suffix("GtkWidget", "Gtk"), None);
    assert_eq!(strip_suffix("GtkWidget", "widget"), None);
    assert_eq!(strip_suffix("Widget", "GtkWidget"), None);
    assert_eq!(strip_suffix("", "x"), None);
}

#[test]
fn strip_suffix_agrees_with_the_standard_library() {
    let words = ["", "a", "é", "aé", "éa", "日本語", "本語", "語", "Größe", "öße", "GtkGröße"];
    for s in words {
        for suffix in words {
            assert_eq!(strip_suffix(s, suffix), s.strip_suffix(suffix));
        }
    }
}

#[test]
fn str_eq_compares_every_byte() {
    assert!(str_eq("", ""));
    assert!(str_eq("NAME", "NAME"));
    assert!(!str_eq("NAME", "NAMe"));
    assert!(!str_eq("NAME", "NAM"));
    assert!(!str_eq("", "N"));
    assert!(str_eq("Größe", "Größe"));
    assert!(!str_eq("Größe", "Grösse"));
}

#[test]
fn clone_strings_copies_each_string() {
    let lines = vec!["a".to_string(), String::new(), "日本語".to_string()];
    assert_eq!(clone_strings(&lines), lines);
    assert!(clone_strings(&Vec::new()).is_empty());
}
