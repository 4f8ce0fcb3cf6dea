use typ_js::adapter::TypJs;

#[test]
fn catalog_is_preloaded() {
    let a = TypJs::new();
    assert!(a.font_count() > 0, "the bundled assets hold at least one face");
}

#[test]
fn every_catalog_index_resolves_to_its_metadata() {
    let a = TypJs::new();
    let book = a.book_ref().clone();
    let count = a.font_count();
    for i in 0..count {
        let face = a.font(i);
        let entry = book.info(i).expect("the book has an entry for every face");
        assert_eq!(face.info(), entry, "metadata table entry {i} must describe face {i}");
    }
    assert!(book.info(count).is_none(), "the book holds no entries beyond the faces");
}

#[test]
fn catalog_construction_is_deterministic() {
    let a = TypJs::new();
    let b = TypJs::new();
    assert_eq!(a.font_count(), b.font_count());
    assert_eq!(a.font(0).info(), b.font(0).info());
    let last = a.font_count() - 1;
    assert_eq!(a.font(last).info(), b.font(last).info());
}
