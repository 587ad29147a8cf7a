//! Keyword expansion: the `$Id$` marker, its expanded form `$Id: <identifier>$`, and the
//! content id that stands for the bytes a marker is expanded in.

use vstd::prelude::*;
use crate::bytes::append_bytes;
use crate::eol::{LF, SPACE};

verus! {

/// The byte `$`, which opens and closes a marker.
pub const DOLLAR: u8 = 36;

/// The byte `I`.
pub const UPPER_I: u8 = 73;

/// The byte `d`.
pub const LOWER_D: u8 = 100;

/// The byte `:`, which separates the keyword from its value.
pub const COLON: u8 = 58;

/// Whether the bare marker `$Id$` stands in `s` from index `i` on.
pub open spec fn bare_marker_at(s: Seq<u8>, i: int) -> bool {
    0 <= i && i + 4 <= s.len() && s[i] == DOLLAR && s[i + 1] == UPPER_I && s[i + 2] == LOWER_D
        && s[i + 3] == DOLLAR
}

/// Whether `$Id:`, the start of an expanded marker, stands in `s` from index `i` on.
pub open spec fn open_marker_at(s: Seq<u8>, i: int) -> bool {
    0 <= i && i + 4 <= s.len() && s[i] == DOLLAR && s[i + 1] == UPPER_I && s[i + 2] == LOWER_D
        && s[i + 3] == COLON
}

/// The index of the first `$` at or after `j`, unless a line feed or the end of `s` comes first.
pub open spec fn closing_dollar(s: Seq<u8>, j: int) -> Option<int>
    decreases s.len() - j,
{
    if j < 0 || j >= s.len() {
        None
    } else if s[j] == DOLLAR {
        Some(j)
    } else if s[j] == LF {
        None
    } else {
        closing_dollar(s, j + 1)
    }
}

/// The index just past the expanded marker that starts at index `i` of `s`, if one starts
/// there: `$Id:`, then a value free of `$` and line feeds, then `$`.
pub open spec fn expanded_marker_end(s: Seq<u8>, i: int) -> Option<int> {
    if open_marker_at(s, i) {
        match closing_dollar(s, i + 4) {
            Some(j) => Some(j + 1),
            None => None,
        }
    } else {
        None
    }
}

/// The bare marker `$Id$`.
pub open spec fn bare_marker() -> Seq<u8> {
    seq![DOLLAR, UPPER_I, LOWER_D, DOLLAR]
}

/// The marker expanded with `id`: `$Id: `, the identifier, `$`.
pub open spec fn expanded_marker(id: Seq<u8>) -> Seq<u8> {
    seq![DOLLAR, UPPER_I, LOWER_D, COLON, SPACE] + id + seq![DOLLAR]
}

/// The bytes of `s` from index `i` on, each expanded marker among them collapsed to `$Id$`.
/// Markers are found from left to right and do not overlap.
pub open spec fn collapse_from(s: Seq<u8>, i: int) -> Seq<u8>
    decreases s.len() - i,
{
    if i < 0 || i >= s.len() {
        Seq::empty()
    } else {
        let end = expanded_marker_end(s, i);
        if end is Some && i < end->0 <= s.len() {
            bare_marker() + collapse_from(s, end->0)
        } else {
            seq![s[i]] + collapse_from(s, i + 1)
        }
    }
}

/// `s` with every expanded marker collapsed to `$Id$`.
pub open spec fn collapsed(s: Seq<u8>) -> Seq<u8> {
    collapse_from(s, 0)
}

/// The bytes of `s` from index `i` on, each bare marker among them expanded with `id`.
pub open spec fn expand_from(s: Seq<u8>, i: int, id: Seq<u8>) -> Seq<u8>
    decreases s.len() - i,
{
    if i < 0 || i >= s.len() {
        Seq::empty()
    } else if bare_marker_at(s, i) {
        expanded_marker(id) + expand_from(s, i + 4, id)
    } else {
        seq![s[i]] + expand_from(s, i + 1, id)
    }
}

/// `s` with every bare marker `$Id$` expanded with `id`.
pub open spec fn expanded(s: Seq<u8>, id: Seq<u8>) -> Seq<u8> {
    expand_from(s, 0, id)
}

/// Tells whether the bare marker `$Id$` stands in `input` from index `i` on.
pub fn is_bare_marker_at(input: &[u8], i: usize) -> (found: bool)
    ensures
        found == bare_marker_at(input@, i as int),
{
    i < input.len() && input.len() - i >= 4 && input[i] == DOLLAR && input[i + 1] == UPPER_I
        && input[i + 2] == LOWER_D && input[i + 3] == DOLLAR
}

/// Finds the end of the expanded marker that starts at index `i` of `input`, if one does.
pub fn find_expanded_marker_end(input: &[u8], i: usize) -> (end: Option<usize>)
    ensures
        end is Some <==> expanded_marker_end(input@, i as int) is Some,
        end matches Some(e) ==> expanded_marker_end(input@, i as int) == Some(e as int) && i + 5 <= e
            <= input.len(),
{
    if !(i < input.len() && input.len() - i >= 4 && input[i] == DOLLAR && input[i + 1] == UPPER_I
        && input[i + 2] == LOWER_D && input[i + 3] == COLON) {
        return None;
    }
    let mut j: usize = i + 4;
    while j < input.len() && input[j] != DOLLAR && input[j] != LF
        invariant
            i + 4 <= j <= input.len(),
            closing_dollar(input@, i + 4) == closing_dollar(input@, j as int),
        decreases input.len() - j,
    {
        j += 1;
    }
    if j < input.len() && input[j] == DOLLAR {
        Some(j + 1)
    } else {
        None
    }
}

/// Collapses every expanded marker `$Id: ...$` of `input` to the bare `$Id$`.
///
/// A marker's value ends at the first `$`; where a line feed or the end of the content comes
/// first, the bytes are no marker and stay as they are.
pub fn collapse_keywords(input: &[u8]) -> (out: Vec<u8>)
    ensures
        out@ == collapsed(input@),
{
    let mut out: Vec<u8> = Vec::new();
    let mut i: usize = 0;
    while i < input.len()
        invariant
            i <= input.len(),
            out@ + collapse_from(input@, i as int) == collapsed(input@),
        decreases input.len() - i,
    {
        let ghost before = out@;
        match find_expanded_marker_end(input, i) {
            Some(end) => {
                out.push(DOLLAR);
                out.push(UPPER_I);
                out.push(LOWER_D);
                out.push(DOLLAR);
                assert(out@ + collapse_from(input@, end as int) =~= before + (bare_marker()
                    + collapse_from(input@, end as int)));
                i = end;
            },
            None => {
                out.push(input[i]);
                assert(out@ + collapse_from(input@, i + 1) =~= before + (seq![input@[i as int]]
                    + collapse_from(input@, i + 1)));
                i += 1;
            },
        }
    }
    assert(out@ + Seq::<u8>::empty() =~= out@);
    out
}

/// Expands every bare marker `$Id$` of `input` to `$Id: <id>$`.
pub fn expand_keywords(input: &[u8], id: &[u8]) -> (out: Vec<u8>)
    ensures
        out@ == expanded(input@, id@),
{
    let mut out: Vec<u8> = Vec::new();
    let mut i: usize = 0;
    while i < input.len()
        invariant
            i <= input.len(),
            out@ + expand_from(input@, i as int, id@) == expanded(input@, id@),
        decreases input.len() - i,
    {
        let ghost before = out@;
        if is_bare_marker_at(input, i) {
            out.push(DOLLAR);
            out.push(UPPER_I);
            out.push(LOWER_D);
            out.push(COLON);
            out.push(SPACE);
            append_bytes(&mut out, id);
            out.push(DOLLAR);
            assert(out@ + expand_from(input@, i + 4, id@) =~= before + (expanded_marker(id@)
                + expand_from(input@, i + 4, id@)));
            i += 4;
        } else {
            out.push(input[i]);
            assert(out@ + expand_from(input@, i + 1, id@) =~= before + (seq![input@[i as int]]
                + expand_from(input@, i + 1, id@)));
            i += 1;
        }
    }
    assert(out@ + Seq::<u8>::empty() =~= out@);
    out
}

/// The object id of the blob that holds `data`, as the object hasher computes it from the
/// content alone; `None` for content that the hasher refuses to give an id.
pub uninterp spec fn blob_id(data: Seq<u8>) -> Option<Seq<u8>>;

/// Calls `gix_object::compute_hash` for a SHA-1 blob id of `data` and hands out the raw bytes
/// of the id. The contract claims that the id, or the hasher's refusal on a detected collision
/// attack, is determined by the content: equal content gives the equal outcome, named
/// `blob_id`. Nothing is claimed of the id's bytes.
#[verifier::external_body]
pub(crate) fn compute_blob_id(data: &[u8]) -> (id: Option<Vec<u8>>)
    ensures
        id is Some <==> blob_id(data@) is Some,
        id matches Some(bytes) ==> blob_id(data@) == Some(bytes@),
{
    match gix_object::compute_hash(gix_hash::Kind::Sha1, gix_object::Kind::Blob, data) {
        Ok(id) => Some(id.as_bytes().to_vec()),
        Err(_) => None,
    }
}

} // verus!
