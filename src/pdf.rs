//! Pages of a PDF as numbered chunks, with failures kept to their page.
use vstd::prelude::*;

use crate::chunk::{error_text, item_view, items_view, Chunk, ChunkView, ErrorView, ExtractError, Item, MetaView, Metadata};

verus! {

/// The stream item of the page at `index` (0-based): its text, or an
/// in-band error; either way numbered `index + 1`.
pub open spec fn page_item_view(index: int, page: Result<String, String>) -> Result<ChunkView, ErrorView> {
    match page {
        Ok(t) => Ok(ChunkView { content: t@, meta: MetaView::Pdf { page: (index + 1) as nat } }),
        Err(m) => Err(ErrorView::Page { page: (index + 1) as nat, message: m@ }),
    }
}

pub open spec fn pdf_item_views(pages: Seq<Result<String, String>>) -> Seq<Result<ChunkView, ErrorView>> {
    Seq::new(pages.len(), |i: int| page_item_view(i, pages[i]))
}

/// The page number that a stream item carries, if any.
pub open spec fn item_page(item: Result<ChunkView, ErrorView>) -> Option<nat> {
    match item {
        Ok(c) => match c.meta {
            MetaView::Pdf { page } => Some(page),
            _ => None,
        },
        Err(e) => match e {
            ErrorView::Page { page, .. } => Some(page),
            _ => None,
        },
    }
}

/// The whole-file text of a page: its text, or a line that says why it
/// could not be extracted.
pub open spec fn page_text(index: int, page: Result<String, String>) -> Seq<char> {
    match page {
        Ok(t) => t@,
        Err(m) => error_text(ErrorView::Page { page: (index + 1) as nat, message: m@ }) + "\n"@,
    }
}

pub open spec fn pdf_text_of(pages: Seq<Result<String, String>>) -> Seq<char>
    decreases pages.len(),
{
    if pages.len() == 0 {
        Seq::empty()
    } else {
        pdf_text_of(pages.drop_last()) + page_text(pages.len() - 1, pages.last())
    }
}

/// The stream item of the page at `index` (0-based).
pub fn page_item(index: usize, page: Result<String, String>) -> (r: Item)
    requires
        index < usize::MAX,
    ensures
        item_view(r) == page_item_view(index as int, page),
{
    match page {
        Ok(t) => Ok(Chunk { content: t, metadata: Metadata::Pdf { page_number: index + 1 } }),
        Err(m) => Err(ExtractError::Page { page_number: index + 1, message: m }),
    }
}

/// One stream item per page, in page order.
pub fn pdf_items(pages: &Vec<Result<String, String>>) -> (r: Vec<Item>)
    ensures
        items_view(r@) == pdf_item_views(pages@),
{
    let mut out: Vec<Item> = Vec::new();
    let mut i: usize = 0;
    while i < pages.len()
        invariant
            i <= pages@.len(),
            out@.len() == i,
            forall|k: int| 0 <= k < i ==> #[trigger] items_view(out@)[k] == page_item_view(k, pages@[k]),
        decreases pages@.len() - i,
    {
        let page = match &pages[i] {
            Ok(t) => Ok(t.clone()),
            Err(m) => Err(m.clone()),
        };
        let ghost before = out@;
        out.push(page_item(i, page));
        proof {
            assert(items_view(out@) =~= items_view(before).push(page_item_view(i as int, pages@[i as int])));
        }
        i = i + 1;
    }
    assert(items_view(out@) =~= pdf_item_views(pages@));
    out
}

/// The whole-file text of a PDF: the pages' texts in order, a failed page
/// replaced by a line that names it.
pub fn pdf_text(pages: &Vec<Result<String, String>>) -> (r: String)
    ensures
        r@ == pdf_text_of(pages@),
{
    let mut out = String::new();
    let mut i: usize = 0;
    while i < pages.len()
        invariant
            i <= pages@.len(),
            out@ == pdf_text_of(pages@.subrange(0, i as int)),
        decreases pages@.len() - i,
    {
        match &pages[i] {
            Ok(t) => {
                out.append(t.as_str());
            },
            Err(m) => {
                let e = ExtractError::Page { page_number: i + 1, message: m.clone() };
                let line = e.message();
                out.append(line.as_str());
                out.append("\n");
            },
        }
        proof {
            let next = pages@.subrange(0, i + 1);
            assert(next.drop_last() =~= pages@.subrange(0, i as int));
            assert(out@ =~= pdf_text_of(next));
        }
        i = i + 1;
    }
    assert(pages@.subrange(0, pages@.len() as int) =~= pages@);
    out
}

/// A PDF of `P` pages gives exactly `P` items numbered `1..P` in order,
/// whether or not the text of a page could be extracted.
pub proof fn lemma_pages_numbered(pages: Seq<Result<String, String>>)
    ensures
        pdf_item_views(pages).len() == pages.len(),
        forall|i: int| 0 <= i < pages.len() ==> item_page(#[trigger] pdf_item_views(pages)[i]) == Some((i + 1) as nat),
{
}

} // verus!
