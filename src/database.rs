//! Decoding of a whole file into its ordered pages.

use vstd::prelude::*;

use crate::page::{
    decode_page, decodes_to, page_error, FormatError, Page, Unknown, PAGE_SIZE, VERSION_AT,
};

verus! {

/// A decoded file: its pages in physical order.
#[derive(Debug, Clone, PartialEq, Eq)]
pub struct Database {
    pub page_size: usize,
    pub pages: Vec<Page>,
}

/// The page-sized frame of `b` that starts at byte `start`.
pub open spec fn frame_at(b: Seq<u8>, start: int) -> Seq<u8> {
    b.subrange(start, start + PAGE_SIZE)
}

/// The first fatal error met when reading frames from byte `start` on: a
/// frame cut short by the end of the input, or a frame that fails to decode.
pub open spec fn scan_error(b: Seq<u8>, start: int) -> Option<FormatError>
    decreases b.len() - start,
{
    if start < 0 || start >= b.len() {
        None
    } else if b.len() - start < PAGE_SIZE {
        Some(FormatError::Truncated(start as usize))
    } else if page_error(frame_at(b, start)) is Some {
        page_error(frame_at(b, start))
    } else {
        scan_error(b, start + PAGE_SIZE)
    }
}

/// The fatal error, if any, in decoding the whole input `b`.
pub open spec fn parse_error(b: Seq<u8>) -> Option<FormatError> {
    if b.len() < PAGE_SIZE {
        Some(FormatError::Truncated(0))
    } else if b[0] != 0 {
        Some(FormatError::MissingDatabaseHeader)
    } else {
        scan_error(b, 0)
    }
}

/// Decodes every page of `input`. The first page must describe the
/// database; every page must be whole.
pub fn parse_access_file(input: &[u8]) -> (r: Result<Database, FormatError>)
    ensures
        match r {
            Ok(db) => {
                &&& parse_error(input@) is None
                &&& db.page_size == PAGE_SIZE
                &&& db.pages@.len() * PAGE_SIZE == input@.len()
                &&& forall|i: int|
                    0 <= i < db.pages@.len() ==> decodes_to(
                        #[trigger] frame_at(input@, i * PAGE_SIZE),
                        db.pages@[i],
                    )
            },
            Err(e) => parse_error(input@) == Some(e),
        },
{
    let b = Ghost(input@);
    if input.len() < PAGE_SIZE {
        return Err(FormatError::Truncated(0));
    }
    let (first, mut rest) = input.split_at(PAGE_SIZE);
    assert(first@ =~= frame_at(b@, 0));
    let head = match decode_page(first) {
        Ok(p) => p,
        Err(e) => return Err(e),
    };
    match head {
        Page::DatabaseDefinition(_) => {},
        _ => return Err(FormatError::MissingDatabaseHeader),
    }
    let mut pages: Vec<Page> = Vec::new();
    pages.push(head);
    let mut pos: usize = PAGE_SIZE;
    assert(scan_error(b@, 0) == scan_error(b@, PAGE_SIZE as int));
    while rest.len() > 0
        invariant
            b@ == input@,
            b@[0] == 0,
            pos <= input@.len(),
            pos == pages@.len() * PAGE_SIZE,
            rest@ == b@.subrange(pos as int, b@.len() as int),
            rest@.len() == input@.len() - pos,
            input@.len() <= usize::MAX,
            parse_error(b@) == scan_error(b@, pos as int),
            forall|i: int|
                0 <= i < pages@.len() ==> decodes_to(
                    #[trigger] frame_at(b@, i * PAGE_SIZE),
                    pages@[i],
                ),
        decreases rest.len(),
    {
        if rest.len() < PAGE_SIZE {
            return Err(FormatError::Truncated(pos));
        }
        let (frame, tail) = rest.split_at(PAGE_SIZE);
        assert(frame@ =~= frame_at(b@, pos as int));
        let p = match decode_page(frame) {
            Ok(p) => p,
            Err(e) => return Err(e),
        };
        let ghost n = pages@.len();
        pages.push(p);
        assert(frame_at(b@, n * PAGE_SIZE) == frame@);
        pos = pos + PAGE_SIZE;
        rest = tail;
        assert(rest@ =~= b@.subrange(pos as int, b@.len() as int));
    }
    Ok(Database { page_size: PAGE_SIZE, pages })
}

} // verus!

verus! {

proof fn lemma_scan_whole_pages(b: Seq<u8>, k: int)
    requires
        0 <= k,
        k * PAGE_SIZE <= b.len(),
        b.len() % PAGE_SIZE as nat == 0,
        forall|j: int|
            0 <= j < b.len() / PAGE_SIZE as nat && #[trigger] b[j * PAGE_SIZE] == 0 ==> b[j
                * PAGE_SIZE + VERSION_AT] <= 6,
    ensures
        scan_error(b, k * PAGE_SIZE) is None,
    decreases b.len() - k * PAGE_SIZE,
{
    let q = b.len() / PAGE_SIZE as nat;
    assert(b.len() == q * PAGE_SIZE);
    if k * PAGE_SIZE < b.len() {
        assert(k < q);
        let f = frame_at(b, k * PAGE_SIZE);
        assert(f[0] == b[k * PAGE_SIZE]);
        assert(f[VERSION_AT as int] == b[k * PAGE_SIZE + VERSION_AT]);
        assert((k + 1) * PAGE_SIZE == k * PAGE_SIZE + PAGE_SIZE);
        lemma_scan_whole_pages(b, k + 1);
    }
}

/// An input made of whole pages, whose first page describes the database
/// and whose database-definition pages all name a known version, decodes
/// without error into one page per page-sized run of bytes.
pub proof fn lemma_whole_pages_decode(b: Seq<u8>)
    requires
        b.len() >= PAGE_SIZE,
        b.len() % PAGE_SIZE as nat == 0,
        b[0] == 0,
        forall|j: int|
            0 <= j < b.len() / PAGE_SIZE as nat && #[trigger] b[j * PAGE_SIZE] == 0 ==> b[j
                * PAGE_SIZE + VERSION_AT] <= 6,
    ensures
        parse_error(b) is None,
        (b.len() / PAGE_SIZE as nat) * PAGE_SIZE == b.len(),
{
    lemma_scan_whole_pages(b, 0);
}

/// An input shorter than one page is refused as truncated at its start.
pub proof fn lemma_short_input_truncated(b: Seq<u8>)
    requires
        b.len() < PAGE_SIZE,
    ensures
        parse_error(b) == Some(FormatError::Truncated(0)),
{
}

/// A whole page whose kind byte is not modelled decodes as `Unknown` with
/// that byte, and decoding goes on with the next page.
pub proof fn lemma_unknown_kind_continues(b: Seq<u8>, start: int, p: Page)
    requires
        0 <= start,
        start + PAGE_SIZE <= b.len(),
        b[start] > 5,
    ensures
        page_error(frame_at(b, start)) is None,
        scan_error(b, start) == scan_error(b, start + PAGE_SIZE),
        decodes_to(frame_at(b, start), p) ==> p == Page::Unknown(Unknown { page_type: b[start] }),
{
    assert(frame_at(b, start)[0] == b[start]);
}

} // verus!
