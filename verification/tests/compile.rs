//! End-to-end tests: the adapter serving a real compilation as the engine's
//! world, with outcomes fed back through the library's pipeline entry
//! points.

use std::sync::Mutex;

use typ_js::adapter::TypJs;
use typ_js::diag::DiagnosticRecord;
use typ_js::store::FsError;
use typst::diag::{FileError, FileResult, SourceDiagnostic, SourceResult};
use typst::foundations::{Bytes, Datetime, Duration};
use typst::syntax::{FileId, RootedPath, Source, VirtualPath, VirtualRoot};
use typst::text::{Font, FontBook};
use typst::utils::LazyHash;
use typst::{Library, LibraryExt, World};
use typst_layout::PagedDocument;

struct TestWorld {
    inner: Mutex<TypJs>,
    lib: LazyHash<Library>,
    book: LazyHash<FontBook>,
    main: FileId,
}

fn fid(name: &str) -> FileId {
    let vp = VirtualPath::new(format!("/{name}")).expect("valid virtual path");
    FileId::new(RootedPath::new(VirtualRoot::Project, vp))
}

fn rootless(id: FileId) -> String {
    id.vpath().get_without_slash().to_string()
}

fn convert_diags(list: &[SourceDiagnostic]) -> Vec<DiagnosticRecord> {
    list.iter()
        .map(|d| DiagnosticRecord {
            span: format!("{:?}", d.span),
            message: d.message.to_string(),
            hints: d.hints.iter().map(|h| h.v.to_string()).collect(),
        })
        .collect()
}

fn convert_outcome(
    out: SourceResult<PagedDocument>,
) -> Result<PagedDocument, Vec<DiagnosticRecord>> {
    match out {
        Ok(d) => Ok(d),
        Err(e) => Err(convert_diags(&e)),
    }
}

impl TestWorld {
    fn new() -> Self {
        let adapter = TypJs::new();
        let book = LazyHash::new(adapter.book_ref().clone());
        TestWorld {
            inner: Mutex::new(adapter),
            lib: LazyHash::new(Library::default()),
            book,
            main: fid("main.typ"),
        }
    }

    fn write(&self, name: &str, text: &str) {
        self.inner.lock().unwrap().write(name, text);
    }

    fn attach(&self, name: &str, data: Vec<u8>) {
        self.inner.lock().unwrap().attach(name, data);
    }

    fn svg(&self) -> String {
        let compiled = typst::compile::<PagedDocument>(self);
        let outcome = convert_outcome(compiled.output);
        let warnings = convert_diags(&compiled.warnings);
        self.inner.lock().unwrap().svg_outcome(outcome, warnings)
    }

    fn pdf(&self) -> Vec<u8> {
        let compiled = typst::compile::<PagedDocument>(self);
        let outcome = convert_outcome(compiled.output);
        let warnings = convert_diags(&compiled.warnings);
        self.inner.lock().unwrap().pdf_outcome(outcome, warnings)
    }

    fn errors(&self) -> Vec<String> {
        self.inner.lock().unwrap().errors()
    }
}

impl World for TestWorld {
    fn library(&self) -> &LazyHash<Library> {
        &self.lib
    }

    fn book(&self) -> &LazyHash<FontBook> {
        &self.book
    }

    fn main(&self) -> FileId {
        self.main
    }

    fn source(&self, id: FileId) -> FileResult<Source> {
        let name = rootless(id);
        let g = self.inner.lock().map_err(|_| FileError::AccessDenied)?;
        match g.source(&name) {
            Ok(t) => Ok(Source::new(id, t)),
            Err(FsError::NotSource) => Err(FileError::NotSource),
            Err(FsError::NotFound(p)) => Err(FileError::NotFound(p.into())),
        }
    }

    fn file(&self, id: FileId) -> FileResult<Bytes> {
        let name = rootless(id);
        let g = self.inner.lock().map_err(|_| FileError::AccessDenied)?;
        match g.file(&name) {
            Ok(b) => Ok(Bytes::new(b)),
            Err(FsError::NotSource) => Err(FileError::NotSource),
            Err(FsError::NotFound(p)) => Err(FileError::NotFound(p.into())),
        }
    }

    fn font(&self, index: usize) -> Option<Font> {
        let g = self.inner.lock().ok()?;
        if index < g.font_count() {
            Some(g.font(index).clone())
        } else {
            None
        }
    }

    fn today(&self, offset: Option<Duration>) -> Option<Datetime> {
        let secs = offset.map(|d| {
            let [weeks, days, hours, minutes, seconds] = d.decompose();
            (((weeks * 7 + days) * 24 + hours) * 60 + minutes) * 60 + seconds
        });
        let v = self.inner.lock().ok()?.today(secs)?;
        Datetime::from_ymd(v.year, v.month, v.day)
    }
}

#[test]
fn trivial_document_renders_svg_without_diagnostics() {
    let w = TestWorld::new();
    w.write("main.typ", "Hello, world!");
    let svg = w.svg();
    assert!(!svg.is_empty());
    assert!(svg.starts_with("<svg"));
    assert!(w.errors().is_empty());
}

#[test]
fn trivial_document_renders_pdf() {
    let w = TestWorld::new();
    w.write("main.typ", "Hello, world!");
    let pdf = w.pdf();
    assert!(pdf.starts_with(b"%PDF-"));
    assert!(w.errors().is_empty());
    let again = w.pdf();
    assert_eq!(pdf, again, "the encoding is a function of the document alone");
}

#[test]
fn missing_resource_yields_empty_output_and_a_diagnostic() {
    let w = TestWorld::new();
    w.write("main.typ", "#image(\"missing.png\")");
    let svg = w.svg();
    assert!(svg.is_empty());
    let errors = w.errors();
    assert!(!errors.is_empty());
    assert!(errors[0].contains("missing.png"), "diagnostic names the resource: {}", errors[0]);
    assert!(errors[0].starts_with("SPAN: "));
    assert!(errors[0].contains(" ||| MSG: "));
    assert!(errors[0].contains(" ||| HINT: "));

    let pdf = w.pdf();
    assert!(pdf.is_empty());
}

#[test]
fn attached_file_is_served_to_the_engine() {
    let w = TestWorld::new();
    w.attach("data.txt", b"from the attachment".to_vec());
    w.write("main.typ", "#read(\"data.txt\")");
    let svg = w.svg();
    assert!(!svg.is_empty());
    assert!(w.errors().is_empty());
}

#[test]
fn second_compilation_replaces_diagnostics() {
    let w = TestWorld::new();
    w.write("main.typ", "#image(\"first.png\")");
    let _ = w.svg();
    let first = w.errors();
    assert!(first.iter().any(|e| e.contains("first.png")));

    w.write("main.typ", "#image(\"second.png\")");
    let _ = w.svg();
    let second = w.errors();
    assert!(second.iter().any(|e| e.contains("second.png")));
    assert!(
        second.iter().all(|e| !e.contains("first.png")),
        "the sink must hold only the latest attempt's records"
    );

    w.write("main.typ", "All good now.");
    let _ = w.svg();
    assert!(w.errors().is_empty());
}
