//! The world adapter: one instance owns a virtual file store, the font
//! catalog, a one-shot clock snapshot, and the diagnostics sink of the most
//! recent compilation attempt.
//!
//! The engine-facing queries (main file, source text, raw bytes, font by
//! index, today's date) are answered from this state; the host-facing
//! mutators (write, attach, delete) change only the file store. Compilation
//! itself is driven by the host layer, which hands the engine's outcome to
//! [`TypJs::svg_outcome`] or [`TypJs::pdf_outcome`]; those replace the sink
//! wholesale and render the document, so the sink always reflects exactly
//! the most recent attempt.

use vstd::prelude::*;

use crate::clock;
use crate::clock::ClockSnapshot;
use crate::clock::EngineDate;
use crate::diag::format_record;
use crate::diag::format_all;
use crate::diag::DiagnosticRecord;
use crate::diag::DiagSnap;
use crate::fonts::book_infos;
use crate::fonts::bundled_blobs;
use crate::fonts::concat_faces;
use crate::fonts::face_info;
use crate::fonts::FontCatalog;
use crate::render;
use crate::render::concat_svg;
use crate::render::doc_pages_of;
use crate::render::pdf_of;
use crate::store::EntrySnap;
use crate::store::FileStore;
use crate::store::FsError;

verus! {

/// The environment adapter.
pub struct TypJs {
    files: FileStore,
    catalog: FontCatalog,
    errors: Vec<DiagnosticRecord>,
    now: Option<ClockSnapshot>,
}

impl TypJs {
    /// The virtual filesystem, as a map from rootless names to entries.
    pub closed spec fn vfs(&self) -> Map<Seq<char>, EntrySnap> {
        self.files@
    }

    /// Number of stored files.
    pub closed spec fn file_count(&self) -> nat {
        self.files.len()
    }

    /// The diagnostics sink: the records of the most recent compilation.
    pub closed spec fn sink(&self) -> Seq<DiagSnap> {
        self.errors.deep_view()
    }

    /// The loaded font faces, in catalog order.
    pub closed spec fn fonts_seq(&self) -> Seq<typst::text::Font> {
        self.catalog.fonts_seq()
    }

    /// The font metadata index, as tokens in catalog order.
    pub closed spec fn font_infos(&self) -> Seq<int> {
        self.catalog.infos()
    }

    /// Whether the clock snapshot has been captured yet.
    pub closed spec fn clock(&self) -> Option<ClockSnapshot> {
        self.now
    }

    /// Internal invariants: distinct store names, catalog correspondence.
    pub closed spec fn wf(&self) -> bool {
        self.files.wf() && self.catalog.wf()
    }

    /// Catalog index correspondence at the adapter: the metadata index and
    /// the face sequence have equal length, and entry `i` of the index is
    /// the metadata token of the face that `font(i)` returns.
    pub proof fn lemma_catalog_correspondence(&self, i: int)
        requires
            self.wf(),
            0 <= i < self.font_infos().len(),
        ensures
            self.font_infos().len() == self.fonts_seq().len(),
            self.font_infos()[i] == face_info(self.fonts_seq()[i]),
    {
        crate::fonts::law_catalog_correspondence(&self.catalog, i);
    }

    /// The designated main file's rootless name.
    pub fn main_name() -> (r: &'static str)
        ensures
            r@ == "main.typ"@,
    {
        "main.typ"
    }

    /// A fresh adapter: the font catalog preloaded with every face of the
    /// bundled font data, the store holding only the main file with its
    /// placeholder body, no diagnostics, no clock snapshot yet.
    pub fn new() -> (r: Self)
        ensures
            r.wf(),
            r.vfs() == Map::<Seq<char>, EntrySnap>::empty().insert(
                "main.typ"@,
                EntrySnap::Text("typ-js is ready"@),
            ),
            r.file_count() == 1,
            r.sink() == Seq::<DiagSnap>::empty(),
            r.clock() is None,
            r.fonts_seq() == concat_faces(bundled_blobs(0)),
            r.font_infos() == r.fonts_seq().map_values(|f: typst::text::Font| face_info(f)),
    {
        let catalog = FontCatalog::new();
        let mut files = FileStore::new();
        files.insert_text("main.typ".to_owned(), "typ-js is ready".to_owned());
        TypJs { files, catalog, errors: Vec::new(), now: None }
    }

    /// Upserts the text file named `filename` (last write wins); the root
    /// file is named `main.typ`.
    pub fn write(&mut self, filename: &str, text: &str)
        requires
            old(self).wf(),
        ensures
            final(self).wf(),
            final(self).vfs() == old(self).vfs().insert(
                filename@,
                EntrySnap::Text(text@),
            ),
            final(self).file_count() == if old(self).vfs().contains_key(filename@) {
                old(self).file_count()
            } else {
                old(self).file_count() + 1
            },
            final(self).sink() == old(self).sink(),
            final(self).fonts_seq() == old(self).fonts_seq(),
            final(self).font_infos() == old(self).font_infos(),
            final(self).clock() == old(self).clock(),
    {
        self.files.insert_text(filename.to_owned(), text.to_owned());
    }

    /// Upserts the binary file named `filename` (images, fonts, and the
    /// like; last write wins).
    pub fn attach(&mut self, filename: &str, data: Vec<u8>)
        requires
            old(self).wf(),
        ensures
            final(self).wf(),
            final(self).vfs() == old(self).vfs().insert(filename@, EntrySnap::Bin(data@)),
            final(self).file_count() == if old(self).vfs().contains_key(filename@) {
                old(self).file_count()
            } else {
                old(self).file_count() + 1
            },
            final(self).sink() == old(self).sink(),
            final(self).fonts_seq() == old(self).fonts_seq(),
            final(self).font_infos() == old(self).font_infos(),
            final(self).clock() == old(self).clock(),
    {
        self.files.insert_binary(filename.to_owned(), data);
    }

    /// Removes the file named `name`; removing a name never stored is a
    /// no-op. Removing `main.typ` is permitted and leaves the store without
    /// a main entry, which the next compilation reports as a missing file.
    pub fn delete(&mut self, name: &str)
        requires
            old(self).wf(),
        ensures
            final(self).wf(),
            final(self).vfs() == old(self).vfs().remove(name@),
            !old(self).vfs().contains_key(name@) ==> final(self).vfs() == old(self).vfs(),
            final(self).sink() == old(self).sink(),
            final(self).fonts_seq() == old(self).fonts_seq(),
            final(self).font_infos() == old(self).font_infos(),
            final(self).clock() == old(self).clock(),
    {
        self.files.remove(&name.to_owned());
    }

    /// The stored rootless names: every stored name exactly once, in
    /// storage order.
    pub fn list(&self) -> (r: Vec<String>)
        requires
            self.wf(),
        ensures
            r@.len() == self.file_count(),
            forall|i: int, j: int| 0 <= i < j < r@.len() ==> r@[i]@ != r@[j]@,
            forall|n: Seq<char>|
                self.vfs().contains_key(n) <==> exists|i: int|
                    0 <= i < r@.len() && r@[i]@ == n,
    {
        self.files.list()
    }

    /// One line per record of the most recent compilation's diagnostics:
    /// errors if it failed, warnings if it finished.
    pub fn errors(&self) -> (r: Vec<String>)
        ensures
            r@.len() == self.sink().len(),
            forall|i: int| 0 <= i < r@.len() ==> r@[i]@ == format_record(self.sink()[i]),
    {
        format_all(&self.errors)
    }

    /// Source text stored under `name`: the text of a text entry,
    /// `NotSource` for a binary entry, `NotFound` for an absent name.
    pub fn source(&self, name: &str) -> (r: Result<String, FsError>)
        requires
            self.wf(),
        ensures
            match r {
                Ok(t) => self.vfs().contains_key(name@) && self.vfs()[name@]
                    == EntrySnap::Text(t@),
                Err(FsError::NotSource) => self.vfs().contains_key(name@)
                    && self.vfs()[name@] is Bin,
                Err(FsError::NotFound(p)) => !self.vfs().contains_key(name@) && p@ == name@,
            },
    {
        self.files.get_source(&name.to_owned())
    }

    /// Raw bytes stored under `name`: a binary entry's bytes as they are, a
    /// text entry re-encoded as UTF-8 on demand, `NotFound` for an absent
    /// name.
    pub fn file(&self, name: &str) -> (r: Result<Vec<u8>, FsError>)
        requires
            self.wf(),
        ensures
            match r {
                Ok(b) => self.vfs().contains_key(name@) && match self.vfs()[name@] {
                    EntrySnap::Bin(bb) => b@ == bb,
                    EntrySnap::Text(t) => b@ == vstd::utf8::encode_utf8(t),
                },
                Err(FsError::NotSource) => false,
                Err(FsError::NotFound(p)) => !self.vfs().contains_key(name@) && p@ == name@,
            },
    {
        self.files.get_bytes(&name.to_owned())
    }

    /// Number of loaded font faces.
    pub fn font_count(&self) -> (r: usize)
        ensures
            r == self.fonts_seq().len(),
    {
        self.catalog.font_count()
    }

    /// The face at a metadata index. Indices are only ever supplied back
    /// from the metadata table, so an out-of-range index is a caller error,
    /// excluded here.
    pub fn font(&self, index: usize) -> (r: &typst::text::Font)
        requires
            index < self.fonts_seq().len(),
        ensures
            *r == self.fonts_seq()[index as int],
    {
        self.catalog.font(index)
    }

    /// The font metadata index, for handing to the engine.
    pub fn book_ref(&self) -> (r: &typst::text::FontBook)
        ensures
            book_infos(*r) == self.font_infos(),
    {
        self.catalog.book_ref()
    }

    /// Today's calendar date: of the snapshot's local reading when no
    /// offset is given, else of its UTC reading shifted by the given number
    /// of seconds. The snapshot is captured on first use and reused, so
    /// repeated same-offset queries on one adapter return the same date;
    /// nothing is returned exactly when the shift leaves the representable
    /// range or the resulting date cannot be represented.
    pub fn today(&mut self, offset_seconds: Option<i64>) -> (r: Option<EngineDate>)
        requires
            old(self).wf(),
        ensures
            final(self).wf(),
            final(self).vfs() == old(self).vfs(),
            final(self).file_count() == old(self).file_count(),
            final(self).sink() == old(self).sink(),
            final(self).fonts_seq() == old(self).fonts_seq(),
            final(self).font_infos() == old(self).font_infos(),
            final(self).clock() is Some,
            old(self).clock() is Some ==> final(self).clock() == old(self).clock(),
            match final(self).clock() {
                Some(snap) => match offset_seconds {
                    None => r == clock::date_of_fields(
                        clock::year_of(snap.local),
                        clock::month_of(snap.local),
                        clock::day_of(snap.local),
                    ),
                    Some(o) => match clock::shifted_of(snap.utc, o as int) {
                        Some(sh) => r == clock::date_of_fields(
                            clock::year_of(sh),
                            clock::month_of(sh),
                            clock::day_of(sh),
                        ),
                        None => r is None,
                    },
                },
                None => false,
            },
            r matches Some(v) ==> v.wf(),
    {
        if self.now.is_none() {
            self.now = Some(clock::capture_now());
        }
        let snap = match &self.now {
            Some(s) => s,
            None => {
                return None;
            },
        };
        let naive = match offset_seconds {
            None => snap.local,
            Some(o) => {
                match clock::shift_seconds(snap.utc, o) {
                    Some(n) => n,
                    None => {
                        return None;
                    },
                }
            },
        };
        let y = clock::naive_year(&naive);
        let m = clock::naive_month(&naive);
        let d = clock::naive_day(&naive);
        clock::date_from_fields(y, m, d)
    }

    /// Takes the engine's outcome for a vector-graphics target: a failure
    /// replaces the sink with the error set and yields the empty string; a
    /// produced document replaces the sink with the warning set and yields
    /// the pages' vector forms concatenated in page order.
    pub fn svg_outcome(
        &mut self,
        outcome: Result<typst_layout::PagedDocument, Vec<DiagnosticRecord>>,
        warnings: Vec<DiagnosticRecord>,
    ) -> (r: String)
        requires
            old(self).wf(),
        ensures
            final(self).wf(),
            final(self).vfs() == old(self).vfs(),
            final(self).file_count() == old(self).file_count(),
            final(self).fonts_seq() == old(self).fonts_seq(),
            final(self).font_infos() == old(self).font_infos(),
            final(self).clock() == old(self).clock(),
            match outcome {
                Err(errs) => final(self).sink() == errs.deep_view() && r@ == Seq::<
                    char,
                >::empty(),
                Ok(doc) => final(self).sink() == warnings.deep_view() && r@ == concat_svg(
                    doc_pages_of(doc),
                ),
            },
    {
        match outcome {
            Err(errs) => {
                self.errors = errs;
                String::new()
            },
            Ok(doc) => {
                self.errors = warnings;
                let pages = render::doc_pages(&doc);
                render::render_pages_svg(&pages)
            },
        }
    }

    /// Takes the engine's outcome for a binary-document target: a failure
    /// replaces the sink with the error set and yields the empty blob; a
    /// produced document replaces the sink with the warning set and yields
    /// the encoder's blob, with an encoder failure absorbed into the empty
    /// blob.
    pub fn pdf_outcome(
        &mut self,
        outcome: Result<typst_layout::PagedDocument, Vec<DiagnosticRecord>>,
        warnings: Vec<DiagnosticRecord>,
    ) -> (r: Vec<u8>)
        requires
            old(self).wf(),
        ensures
            final(self).wf(),
            final(self).vfs() == old(self).vfs(),
            final(self).file_count() == old(self).file_count(),
            final(self).fonts_seq() == old(self).fonts_seq(),
            final(self).font_infos() == old(self).font_infos(),
            final(self).clock() == old(self).clock(),
            match outcome {
                Err(errs) => final(self).sink() == errs.deep_view() && r@ == Seq::<
                    u8,
                >::empty(),
                Ok(doc) => final(self).sink() == warnings.deep_view() && r@ == (match pdf_of(
                    doc,
                ) {
                    Some(b) => b,
                    None => Seq::<u8>::empty(),
                }),
            },
    {
        match outcome {
            Err(errs) => {
                self.errors = errs;
                Vec::new()
            },
            Ok(doc) => {
                self.errors = warnings;
                let res = render::pdf_bytes(&doc);
                let ghost gr = res;
                let out = render::pdf_or_empty(res);
                proof {
                    match gr {
                        Some(b) => {
                            assert(pdf_of(doc) == Some(b.deep_view()));
                        },
                        None => {
                            assert(pdf_of(doc) is None);
                        },
                    }
                }
                out
            },
        }
    }
}

} // verus!
