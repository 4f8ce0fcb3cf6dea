//! Rendering of a compiled document: vector output page by page, or the
//! whole document as one binary blob.
//!
//! The engine's document and page values are opaque here. The vector form
//! of a page is a function of the page alone and is given the name
//! [`svg_of`]; the pages a document holds are named by [`doc_pages_of`].
//! What this module proves is the pipeline's own behaviour: the returned
//! vector output is exactly the concatenation of the per-page renderings in
//! page order, and a failed binary encoding is absorbed into an empty blob.

use vstd::prelude::*;
use vstd::string::StringExecFns;

verus! {

#[verifier::external_type_specification]
#[verifier::external_body]
pub struct ExPagedDocument(typst_layout::PagedDocument);

#[verifier::external_type_specification]
#[verifier::external_body]
pub struct ExPage(typst_layout::Page);

/// The pages a finished document holds, in page order.
pub uninterp spec fn doc_pages_of(d: typst_layout::PagedDocument) -> Seq<typst_layout::Page>;

/// The vector rendering of one page; a function of the page alone.
pub uninterp spec fn svg_of(p: typst_layout::Page) -> Seq<char>;

/// The binary encoding of a document under default options, or nothing
/// when the encoder fails; with no timestamp set, a function of the
/// document alone.
pub uninterp spec fn pdf_of(d: typst_layout::PagedDocument) -> Option<Seq<u8>>;

/// Relies on `typst_layout::PagedDocument::pages`: the document's finished
/// pages, in order.
#[verifier::external_body]
pub(crate) fn doc_pages(d: &typst_layout::PagedDocument) -> (r: Vec<typst_layout::Page>)
    ensures
        r@ == doc_pages_of(*d),
{
    d.pages().to_vec()
}

/// Relies on `typst_svg::svg` with default options: the page's vector form.
#[verifier::external_body]
pub(crate) fn page_svg(p: &typst_layout::Page) -> (r: String)
    ensures
        r@ == svg_of(*p),
{
    typst_svg::svg(p, &typst_svg::SvgOptions::default())
}

/// Relies on `typst_pdf::pdf` with default options: the document as one
/// binary blob, or `None` when the encoder itself fails. Default options
/// set no timestamp and the encoder derives its identifiers from content
/// hashes, so the blob is deterministic in the document, named [`pdf_of`].
#[verifier::external_body]
pub(crate) fn pdf_bytes(d: &typst_layout::PagedDocument) -> (r: Option<Vec<u8>>)
    ensures
        r.deep_view() == pdf_of(*d),
{
    typst_pdf::pdf(d, &typst_pdf::PdfOptions::default()).ok()
}

/// The concatenation of the pages' vector forms, in page order.
pub open spec fn concat_svg(pages: Seq<typst_layout::Page>) -> Seq<char>
    decreases pages.len(),
{
    if pages.len() == 0 {
        Seq::empty()
    } else {
        concat_svg(pages.drop_last()) + svg_of(pages.last())
    }
}

/// Renders every page and concatenates the outputs in page order.
pub fn render_pages_svg(pages: &Vec<typst_layout::Page>) -> (r: String)
    ensures
        r@ == concat_svg(pages@),
{
    let mut s = String::new();
    let n = pages.len();
    for i in 0..n
        invariant
            n == pages@.len(),
            s@ == concat_svg(pages@.take(i as int)),
    {
        let page = page_svg(&pages[i]);
        s.append(page.as_str());
        proof {
            assert(pages@.take(i + 1).drop_last() =~= pages@.take(i as int));
            assert(pages@.take(i + 1).last() == pages@[i as int]);
        }
    }
    proof {
        assert(pages@.take(n as int) =~= pages@);
    }
    s
}

/// The binary-encoding fallback: a successful encoding is returned as it
/// is, a failed one is absorbed into an empty blob.
pub fn pdf_or_empty(res: Option<Vec<u8>>) -> (r: Vec<u8>)
    ensures
        match res {
            Some(b) => r@ == b@,
            None => r@ == Seq::<u8>::empty(),
        },
{
    match res {
        Some(b) => b,
        None => Vec::new(),
    }
}

} // verus!
