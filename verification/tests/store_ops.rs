use typ_js::adapter::TypJs;
use typ_js::store::FsError;

#[test]
fn fresh_adapter_lists_exactly_main() {
    let a = TypJs::new();
    let names = a.list();
    assert_eq!(names, vec!["main.typ".to_string()]);
}

#[test]
fn write_then_listed_and_overwrite_replaces() {
    let mut a = TypJs::new();
    a.write("notes.typ", "first");
    let names = a.list();
    assert!(names.contains(&"notes.typ".to_string()));
    assert_eq!(names.len(), 2);

    a.write("notes.typ", "second");
    let names2 = a.list();
    assert_eq!(names2.len(), 2, "overwrite must replace, not duplicate");
    let text = a.source("notes.typ").expect("text entry");
    assert_eq!(text, "second");
}

#[test]
fn delete_removes_and_absent_delete_is_noop() {
    let mut a = TypJs::new();
    a.write("tmp.typ", "x");
    a.delete("tmp.typ");
    assert!(!a.list().contains(&"tmp.typ".to_string()));

    let before = a.list();
    a.delete("never-stored.typ");
    let after = a.list();
    assert_eq!(before, after);
}

#[test]
fn delete_main_is_permitted() {
    let mut a = TypJs::new();
    a.delete("main.typ");
    assert!(a.list().is_empty());
    assert!(matches!(a.source("main.typ"), Err(FsError::NotFound(_))));
}

#[test]
fn attach_roundtrips_bytes_and_rejects_source_lookup() {
    let mut a = TypJs::new();
    let data = vec![0u8, 159, 146, 150, 255, 1, 2, 3];
    a.attach("blob.bin", data.clone());

    let back = a.file("blob.bin").expect("binary entry");
    assert_eq!(back, data, "attached bytes must come back byte-identical");

    assert!(matches!(a.source("blob.bin"), Err(FsError::NotSource)));
}

#[test]
fn text_bytes_are_utf8_of_the_text() {
    let mut a = TypJs::new();
    a.write("t.typ", "héllo");
    let bytes = a.file("t.typ").expect("text entry as bytes");
    assert_eq!(bytes, "héllo".as_bytes().to_vec());
}

#[test]
fn missing_file_reports_its_name() {
    let a = TypJs::new();
    match a.file("nowhere.png") {
        Err(FsError::NotFound(p)) => assert_eq!(p, "nowhere.png"),
        other => panic!("expected NotFound, got {:?}", other.is_ok()),
    }
}

#[test]
fn fresh_adapter_has_no_diagnostics() {
    let a = TypJs::new();
    assert!(a.errors().is_empty());
}
