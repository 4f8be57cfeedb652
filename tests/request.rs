use farfalle::request::{split_extension, upload_extension, upload_location, WithExtension};
use farfalle::storage::PasteId;

#[test]
fn view_path_with_extension() {
    let w = WithExtension::<PasteId>::parse("abc.rs").unwrap();
    assert_eq!(w.0.as_str(), "abc");
    assert_eq!(w.1.as_deref(), Some("rs"));
}

#[test]
fn view_path_without_extension() {
    let w = WithExtension::<PasteId>::parse("abc").unwrap();
    assert_eq!(w.0.as_str(), "abc");
    assert_eq!(w.1, None);
    let w = WithExtension::<PasteId>::parse("abc.").unwrap();
    assert_eq!(w.0.as_str(), "abc");
    assert_eq!(w.1, None);
}

#[test]
fn view_path_splits_at_last_dot() {
    assert_eq!(WithExtension::<PasteId>::parse("a.b.c").err(), Some("a.b".to_string()));
    assert_eq!(split_extension("x.tar.gz"), ("x.tar".to_string(), Some("gz".to_string())));
    assert_eq!(split_extension("ü.rs"), ("ü".to_string(), Some("rs".to_string())));
}

#[test]
fn upload_extension_from_file_name() {
    assert_eq!(upload_extension(Some("main.rs")), Some("rs".to_string()));
    assert_eq!(upload_extension(Some("Makefile")), Some("Makefile".to_string()));
    assert_eq!(upload_extension(Some("x.")), None);
    assert_eq!(upload_extension(Some("")), None);
    assert_eq!(upload_extension(None), None);
}

#[test]
fn upload_location_prefers_file_extension() {
    let id = PasteId::new("abc".to_string()).unwrap();
    assert_eq!(upload_location(&id, Some("rs"), Some("png")), "abc.rs");
    assert_eq!(upload_location(&id, None, Some("png")), "abc.png");
    assert_eq!(upload_location(&id, None, None), "abc");
}
