//! The pre-pass over a document: finding the document type declaration,
//! counting the entities it declares, and cutting it out.

use vstd::prelude::*;
use vstd::slice::slice_subrange;
use vstd::string::StringSliceAdditionalSpecFns;
use crate::error::DmarcError;
use crate::error::ErrorView;
use crate::text::find_from;
use crate::text::first_occurrence;
use crate::text::lemma_first_occurrence;

verus! {

/// The keyword that opens a document type declaration.
pub open spec fn block_opening() -> Seq<u8> {
    "<!DOCTYPE".spec_bytes()
}

/// The two bytes that close a declaration with an internal subset.
pub open spec fn block_closing() -> Seq<u8> {
    "]>".spec_bytes()
}

/// The keyword that opens an entity declaration.
pub open spec fn entity_marker() -> Seq<u8> {
    "<!ENTITY".spec_bytes()
}

/// Where the declaration block of a document begins and where it ends: from
/// the first opening keyword to the end of the first closing that follows
/// the keyword. A document without such a pair has no block.
pub open spec fn doctype_block(doc: Seq<u8>) -> Option<(int, int)> {
    match first_occurrence(doc, block_opening(), 0) {
        Some(begin) => match first_occurrence(
            doc,
            block_closing(),
            begin + block_opening().len(),
        ) {
            Some(close) => Some((begin, close + block_closing().len())),
            None => None,
        },
        None => None,
    }
}

/// How often `needle` stands in `hay` from `from` on, counted from the left
/// and without overlap.
pub open spec fn occurrences(hay: Seq<u8>, needle: Seq<u8>, from: int) -> nat
    decreases hay.len() + 1 - from,
{
    if needle.len() == 0 || from < 0 {
        0
    } else {
        match first_occurrence(hay, needle, from) {
            Some(at) => if from <= at && at + needle.len() <= hay.len() {
                1 + occurrences(hay, needle, at + needle.len())
            } else {
                0
            },
            None => 0,
        }
    }
}

/// How many entities a declaration block declares.
pub open spec fn entity_declarations(block: Seq<u8>) -> nat {
    occurrences(block, entity_marker(), 0)
}

/// A document with the bytes from `begin` up to `end` cut out.
pub open spec fn without(doc: Seq<u8>, begin: int, end: int) -> Seq<u8> {
    doc.subrange(0, begin) + doc.subrange(end, doc.len() as int)
}

/// What the pre-pass makes of a document: a refusal where its declaration
/// block declares two or more entities, otherwise the document without the
/// block.
pub open spec fn neutralized(doc: Seq<u8>) -> Result<Seq<u8>, ErrorView> {
    match doctype_block(doc) {
        Some((begin, end)) => if entity_declarations(doc.subrange(begin, end)) >= 2 {
            Err(ErrorView::RecursiveEntities)
        } else {
            Ok(without(doc, begin, end))
        },
        None => Ok(doc),
    }
}

/// Finds the declaration block of a document.
pub fn find_doctype(doc: &[u8]) -> (r: Option<(usize, usize)>)
    ensures
        match r {
            Some((begin, end)) => doctype_block(doc@) == Some((begin as int, end as int))
                && begin <= end <= doc@.len(),
            None => doctype_block(doc@) is None,
        },
{
    let opening = "<!DOCTYPE".as_bytes();
    let closing = "]>".as_bytes();
    let total = doc.len();
    match find_from(doc, opening, 0) {
        Some(begin) => {
            proof {
                lemma_first_occurrence(doc@, opening@, 0);
            }
            assert(begin + opening.len() <= total);
            match find_from(doc, closing, begin + opening.len()) {
                Some(close) => {
                    proof {
                        lemma_first_occurrence(doc@, closing@, begin + opening@.len());
                    }
                    assert(close + closing.len() <= total);
                    Some((begin, close + closing.len()))
                },
                None => None,
            }
        },
        None => None,
    }
}

/// Counts how often `needle` stands in `hay`, from the left and without
/// overlap.
pub fn count_occurrences(hay: &[u8], needle: &[u8]) -> (n: usize)
    ensures
        n == occurrences(hay@, needle@, 0),
{
    if needle.len() == 0 {
        return 0;
    }
    let total = hay.len();
    let mut n: usize = 0;
    let mut from: usize = 0;
    loop
        invariant
            needle@.len() > 0,
            total == hay@.len(),
            from <= hay@.len(),
            n <= from,
            n + occurrences(hay@, needle@, from as int) == occurrences(hay@, needle@, 0),
        decreases hay@.len() - from,
    {
        match find_from(hay, needle, from) {
            Some(at) => {
                proof {
                    lemma_first_occurrence(hay@, needle@, from as int);
                }
                assert(at + needle.len() <= total);
                n = n + 1;
                from = at + needle.len();
            },
            None => {
                return n;
            },
        }
    }
}

/// Copies a document without the bytes from `begin` up to `end`.
pub fn cut_out(doc: &[u8], begin: usize, end: usize) -> (r: Vec<u8>)
    requires
        begin <= end <= doc@.len(),
    ensures
        r@ == without(doc@, begin as int, end as int),
{
    let mut r: Vec<u8> = Vec::new();
    r.extend_from_slice(slice_subrange(doc, 0, begin));
    r.extend_from_slice(slice_subrange(doc, end, doc.len()));
    r
}

/// Runs the pre-pass: refuses a document whose declaration block declares
/// two or more entities, and hands back any other document without its
/// block.
pub fn neutralize(doc: &[u8]) -> (r: Result<Vec<u8>, DmarcError>)
    ensures
        match r {
            Ok(clean) => neutralized(doc@) == Ok::<Seq<u8>, ErrorView>(clean@),
            Err(e) => neutralized(doc@) == Err::<Seq<u8>, ErrorView>(e@),
        },
{
    match find_doctype(doc) {
        Some((begin, end)) => {
            let declared = count_occurrences(slice_subrange(doc, begin, end), "<!ENTITY".as_bytes());
            if declared >= 2 {
                Err(DmarcError::RecursiveEntities)
            } else {
                Ok(cut_out(doc, begin, end))
            }
        },
        None => {
            let r = cut_out(doc, 0, 0);
            assert(r@ =~= doc@);
            Ok(r)
        },
    }
}

} // verus!
