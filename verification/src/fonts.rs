//! The font catalog: every face found in the bundled font data, loaded once
//! at construction, together with a parallel metadata index (the engine's
//! font book).
//!
//! The invariant that matters to the engine is the index correspondence:
//! entry `i` of the metadata index describes exactly face `i` of the loaded
//! sequence. The catalog is never reordered or rebuilt after construction.
//!
//! The faces and the book are values of the engine's own types; they are
//! opaque here. The metadata of a face is modelled by an abstract token
//! ([`face_info`]), the book's contents by the sequence of such tokens
//! ([`book_infos`]), the bundled data by [`bundled_blobs`], and the faces
//! one blob embeds by [`faces_of`]; construction is proved to load exactly
//! the bundle's faces, in discovery order.
//!
//! Only the engine's bundled asset set is scanned: this crate carries no
//! font binaries of its own beside it.

use vstd::prelude::*;

verus! {

#[verifier::external_type_specification]
#[verifier::external_body]
pub struct ExFont(typst::text::Font);

#[verifier::external_type_specification]
#[verifier::external_body]
pub struct ExFontInfo(typst::text::FontInfo);

#[verifier::external_type_specification]
#[verifier::external_body]
pub struct ExFontBook(typst::text::FontBook);

/// Abstract token for the metadata that `typst::text::Font::info` returns
/// for a face; the metadata is a function of the face alone.
pub uninterp spec fn face_info(f: typst::text::Font) -> int;

/// The metadata entries a font book holds, in index order, as their tokens.
pub uninterp spec fn book_infos(b: typst::text::FontBook) -> Seq<int>;

/// The embedded default font bundle of `typst_assets::fonts`, one byte
/// blob per font file, in enumeration order. The bundle is a compile-time
/// constant: it is the same sequence for every value of the parameter,
/// which exists only because a name must take one.
pub uninterp spec fn bundled_blobs(sel: int) -> Seq<Seq<u8>>;

/// The font faces embedded in one font file's data, in discovery order; a
/// function of the bytes alone.
pub uninterp spec fn faces_of(data: Seq<u8>) -> Seq<typst::text::Font>;

/// Relies on `typst_assets::fonts`: the embedded default font data, one
/// byte blob per font file.
#[verifier::external_body]
fn bundled_fonts() -> (r: Vec<&'static [u8]>)
    ensures
        r@.map_values(|b: &'static [u8]| b@) == bundled_blobs(0),
{
    typst_assets::fonts().collect()
}

/// Relies on `typst::text::Font::iter`: parses every face embedded in one
/// font file's data, in discovery order; parsing is deterministic in the
/// data.
#[verifier::external_body]
fn font_faces(data: &[u8]) -> (r: Vec<typst::text::Font>)
    ensures
        r@ == faces_of(data@),
{
    typst::text::Font::iter(typst::foundations::Bytes::new(data.to_vec())).collect()
}

/// Every face of every blob, blobs in order, faces in discovery order.
pub open spec fn concat_faces(blobs: Seq<Seq<u8>>) -> Seq<typst::text::Font>
    decreases blobs.len(),
{
    if blobs.len() == 0 {
        Seq::empty()
    } else {
        concat_faces(blobs.drop_last()) + faces_of(blobs.last())
    }
}

/// Relies on `typst::text::FontBook::new`: a book with no entries.
#[verifier::external_body]
fn book_new() -> (r: typst::text::FontBook)
    ensures
        book_infos(r) == Seq::<int>::empty(),
{
    typst::text::FontBook::new()
}

/// Relies on `typst::text::FontBook::push` and `typst::text::Font::info`:
/// appends the face's metadata as the book's next entry, leaving the prior
/// entries as they were.
#[verifier::external_body]
fn book_push(b: &mut typst::text::FontBook, f: &typst::text::Font)
    ensures
        book_infos(*final(b)) == book_infos(*old(b)).push(face_info(*f)),
{
    b.push(f.info().clone());
}

/// The precomputed, immutable catalog of usable font faces and their
/// searchable metadata index.
pub struct FontCatalog {
    book: typst::text::FontBook,
    fonts: Vec<typst::text::Font>,
}

impl FontCatalog {
    /// The loaded faces, in discovery order.
    pub closed spec fn fonts_seq(&self) -> Seq<typst::text::Font> {
        self.fonts@
    }

    /// The metadata index, as the tokens of its entries in index order.
    pub closed spec fn infos(&self) -> Seq<int> {
        book_infos(self.book)
    }

    /// Index correspondence: entry `i` of the metadata index is the metadata
    /// of face `i`.
    pub open spec fn wf(&self) -> bool {
        self.infos() == self.fonts_seq().map_values(|f: typst::text::Font| face_info(f))
    }

    /// Builds the catalog by scanning every bundled font file and appending
    /// each face it contains, with its metadata, in discovery order: the
    /// loaded faces are exactly the bundle's faces, blobs in order.
    pub fn new() -> (r: Self)
        ensures
            r.wf(),
            r.fonts_seq() == concat_faces(bundled_blobs(0)),
    {
        let blobs = bundled_fonts();
        let ghost bv = blobs@.map_values(|b: &'static [u8]| b@);
        let mut book = book_new();
        let mut fonts: Vec<typst::text::Font> = Vec::new();
        proof {
            assert(book_infos(book) =~= fonts@.map_values(
                |f: typst::text::Font| face_info(f),
            ));
            assert(fonts@ =~= concat_faces(bv.take(0)));
        }
        let nb = blobs.len();
        for bi in 0..nb
            invariant
                nb == blobs@.len(),
                bv == blobs@.map_values(|b: &'static [u8]| b@),
                book_infos(book) == fonts@.map_values(|f: typst::text::Font| face_info(f)),
                fonts@ == concat_faces(bv.take(bi as int)),
        {
            let mut faces = font_faces(blobs[bi]);
            let ghost blob = bv[bi as int];
            proof {
                assert(blobs@[bi as int]@ == blob);
            }
            while faces.len() > 0
                invariant
                    book_infos(book) == fonts@.map_values(
                        |f: typst::text::Font| face_info(f),
                    ),
                    fonts@ + faces@ == concat_faces(bv.take(bi as int)) + faces_of(blob),
                decreases faces.len(),
            {
                let ghost before = faces@;
                let f = faces.remove(0);
                book_push(&mut book, &f);
                fonts.push(f);
                proof {
                    assert(before =~= before.take(1) + before.skip(1));
                    assert(before.take(1) =~= seq![before[0]]);
                    assert(fonts@ + faces@ =~= concat_faces(bv.take(bi as int)) + faces_of(
                        blob,
                    ));
                    assert(book_infos(book) =~= fonts@.map_values(
                        |g: typst::text::Font| face_info(g),
                    ));
                }
            }
            proof {
                assert(bv.take(bi + 1).drop_last() =~= bv.take(bi as int));
                assert(bv.take(bi + 1).last() == blob);
                assert(fonts@ =~= concat_faces(bv.take(bi + 1)));
            }
        }
        proof {
            assert(bv.take(nb as int) =~= bv);
        }
        FontCatalog { book, fonts }
    }

    /// Number of loaded faces (equally: of metadata entries, when well-formed).
    pub fn font_count(&self) -> (r: usize)
        ensures
            r == self.fonts_seq().len(),
    {
        self.fonts.len()
    }

    /// The face at a metadata index. Indices come back from the metadata
    /// table, so an out-of-range index is a caller error, excluded here.
    pub fn font(&self, index: usize) -> (r: &typst::text::Font)
        requires
            index < self.fonts_seq().len(),
        ensures
            *r == self.fonts_seq()[index as int],
    {
        &self.fonts[index]
    }

    /// The metadata index, for handing to the engine.
    pub fn book_ref(&self) -> (r: &typst::text::FontBook)
        ensures
            book_infos(*r) == self.infos(),
    {
        &self.book
    }
}

/// Catalog index correspondence: for every index `i` of the metadata table
/// of a well-formed catalog, the face at `i` is the one whose metadata the
/// table describes at `i`.
pub proof fn law_catalog_correspondence(cat: &FontCatalog, i: int)
    requires
        cat.wf(),
        0 <= i < cat.infos().len(),
    ensures
        cat.infos().len() == cat.fonts_seq().len(),
        cat.infos()[i] == face_info(cat.fonts_seq()[i]),
{
}

} // verus!
