//! Line-ending conversion between the worktree form (CRLF) and the stored form (LF),
//! with the check that a normalization can be undone.

use vstd::prelude::*;
use crate::bytes::bytes_equal;

verus! {

/// The carriage-return byte.
pub const CR: u8 = 13;

/// The line-feed byte.
pub const LF: u8 = 10;

/// The space byte.
pub const SPACE: u8 = 32;

/// The horizontal-tab byte.
pub const TAB: u8 = 9;

/// What line-ending normalization does to a file on its way into the repository.
#[derive(Clone, Copy, Debug, PartialEq, Eq, Structural)]
pub enum Policy {
    /// Replace every CRLF pair by a line feed.
    Normalize,
    /// Replace every CRLF pair by a line feed, then drop the blanks at the end of each line.
    NormalizeAndTrim,
}

/// Whether a normalization is verified to be reversible before its result is accepted.
#[derive(Clone, Copy, Debug, PartialEq, Eq, Structural)]
pub enum CrlfRoundTripCheck {
    /// Refuse content that the inverse conversion would not restore byte for byte.
    Fail,
    /// Do not verify; trust the normalized result.
    Skip,
}

/// The normalization of some content would not be undone by the inverse conversion.
#[derive(Clone, Copy, Debug, PartialEq, Eq, Structural)]
pub struct RoundTripMismatch;

/// Whether a carriage return sits at index `i` of `s` directly before a line feed.
pub open spec fn is_crlf_at(s: Seq<u8>, i: int) -> bool {
    0 <= i && i + 1 < s.len() && s[i] == CR && s[i + 1] == LF
}

/// The first `n` bytes of `s` without the carriage returns that directly precede a line feed.
pub open spec fn crlf_to_lf_prefix(s: Seq<u8>, n: int) -> Seq<u8>
    decreases n,
{
    if n <= 0 {
        Seq::empty()
    } else if is_crlf_at(s, n - 1) {
        crlf_to_lf_prefix(s, n - 1)
    } else {
        crlf_to_lf_prefix(s, n - 1).push(s[n - 1])
    }
}

/// `s` with every CRLF pair replaced by a single line feed.
pub open spec fn crlf_to_lf(s: Seq<u8>) -> Seq<u8> {
    crlf_to_lf_prefix(s, s.len() as int)
}

/// `s` with a carriage return put before every line feed.
pub open spec fn lf_to_crlf(s: Seq<u8>) -> Seq<u8>
    decreases s.len(),
{
    if s.len() == 0 {
        Seq::empty()
    } else if s.last() == LF {
        lf_to_crlf(s.drop_last()).push(CR).push(LF)
    } else {
        lf_to_crlf(s.drop_last()).push(s.last())
    }
}

/// Whether `b` is a space or a tab.
pub open spec fn is_blank(b: u8) -> bool {
    b == SPACE || b == TAB
}

/// Whether nothing but blanks stands between index `i` of `s` and the end of its line.
pub open spec fn at_line_end(s: Seq<u8>, i: int) -> bool
    decreases s.len() - i,
{
    if i < 0 {
        false
    } else if i >= s.len() {
        true
    } else if s[i] == LF {
        true
    } else if is_blank(s[i]) {
        at_line_end(s, i + 1)
    } else {
        false
    }
}

/// Whether index `i` of `s` holds a blank that only blanks separate from the end of its line.
pub open spec fn is_trailing_blank(s: Seq<u8>, i: int) -> bool {
    0 <= i < s.len() && is_blank(s[i]) && at_line_end(s, i + 1)
}

/// The first `n` bytes of `s` without the blanks at the end of a line.
pub open spec fn trim_prefix(s: Seq<u8>, n: int) -> Seq<u8>
    decreases n,
{
    if n <= 0 {
        Seq::empty()
    } else if is_trailing_blank(s, n - 1) {
        trim_prefix(s, n - 1)
    } else {
        trim_prefix(s, n - 1).push(s[n - 1])
    }
}

/// `s` without the blanks that end a line, the last line included.
pub open spec fn trim_trailing_blanks(s: Seq<u8>) -> Seq<u8> {
    trim_prefix(s, s.len() as int)
}

/// The stored form of the worktree content `s` under `policy`.
pub open spec fn to_git_text(s: Seq<u8>, policy: Policy) -> Seq<u8> {
    match policy {
        Policy::Normalize => crlf_to_lf(s),
        Policy::NormalizeAndTrim => trim_trailing_blanks(crlf_to_lf(s)),
    }
}

/// The worktree form of the stored content `s`.
pub open spec fn to_worktree_text(s: Seq<u8>) -> Seq<u8> {
    lf_to_crlf(s)
}

/// Whether converting `s` to its stored form and back gives `s` again.
pub open spec fn round_trips(s: Seq<u8>, policy: Policy) -> bool {
    to_worktree_text(to_git_text(s, policy)) == s
}

/// Whether index `i` of `s` holds a line feed that no carriage return precedes.
pub open spec fn is_bare_lf(s: Seq<u8>, i: int) -> bool {
    0 <= i < s.len() && s[i] == LF && (i == 0 || s[i - 1] != CR)
}

/// Whether every line of `s` ends in CRLF: no line feed stands alone.
pub open spec fn has_only_crlf(s: Seq<u8>) -> bool {
    forall|i: int| !is_bare_lf(s, i)
}

/// The number of line feeds among the first `n` bytes of `s` that no carriage return precedes.
pub open spec fn bare_lf_count(s: Seq<u8>, n: int) -> nat
    decreases n,
{
    if n <= 0 {
        0
    } else if is_bare_lf(s, n - 1) {
        bare_lf_count(s, n - 1) + 1
    } else {
        bare_lf_count(s, n - 1)
    }
}

/// Replaces every CRLF pair of `input` by a single line feed.
pub fn convert_crlf_to_lf(input: &[u8]) -> (out: Vec<u8>)
    ensures
        out@ == crlf_to_lf(input@),
{
    let mut out: Vec<u8> = Vec::new();
    let mut i: usize = 0;
    while i < input.len()
        invariant
            i <= input.len(),
            out@ == crlf_to_lf_prefix(input@, i as int),
        decreases input.len() - i,
    {
        let b = input[i];
        if !(b == CR && i + 1 < input.len() && input[i + 1] == LF) {
            out.push(b);
        }
        i += 1;
    }
    out
}

/// Puts a carriage return before every line feed of `input`.
pub fn convert_lf_to_crlf(input: &[u8]) -> (out: Vec<u8>)
    ensures
        out@ == lf_to_crlf(input@),
{
    let mut out: Vec<u8> = Vec::new();
    let mut i: usize = 0;
    while i < input.len()
        invariant
            i <= input.len(),
            out@ == lf_to_crlf(input@.subrange(0, i as int)),
        decreases input.len() - i,
    {
        let b = input[i];
        assert(input@.subrange(0, i + 1).drop_last() =~= input@.subrange(0, i as int));
        if b == LF {
            out.push(CR);
        }
        out.push(b);
        i += 1;
    }
    assert(input@.subrange(0, input.len() as int) =~= input@);
    out
}

/// Along a run of blanks, every index is as close to the end of its line as the run's end is.
proof fn lemma_blank_run(s: Seq<u8>, i: int, j: int)
    requires
        0 <= i <= j <= s.len(),
        forall|k: int| i <= k < j ==> is_blank(#[trigger] s[k]),
    ensures
        at_line_end(s, i) == at_line_end(s, j),
    decreases j - i,
{
    if i < j {
        lemma_blank_run(s, i + 1, j);
    }
}

/// Drops the spaces and tabs that end a line of `input`, the last line included.
pub fn trim_trailing_whitespace(input: &[u8]) -> (out: Vec<u8>)
    ensures
        out@ == trim_trailing_blanks(input@),
{
    let mut out: Vec<u8> = Vec::new();
    let mut i: usize = 0;
    while i < input.len()
        invariant
            i <= input.len(),
            out@ == trim_prefix(input@, i as int),
        decreases input.len() - i,
    {
        let b = input[i];
        if b == SPACE || b == TAB {
            let mut j: usize = i + 1;
            while j < input.len() && (input[j] == SPACE || input[j] == TAB)
                invariant
                    i < j <= input.len(),
                    forall|k: int| i <= k < j ==> is_blank(#[trigger] input@[k]),
                decreases input.len() - j,
            {
                j += 1;
            }
            let ends_line = j == input.len() || input[j] == LF;
            assert(ends_line == at_line_end(input@, j as int));
            while i < j
                invariant
                    i <= j <= input.len(),
                    forall|k: int| i <= k < j ==> is_blank(#[trigger] input@[k]),
                    ends_line == at_line_end(input@, j as int),
                    out@ == trim_prefix(input@, i as int),
                decreases j - i,
            {
                proof {
                    lemma_blank_run(input@, i + 1, j as int);
                }
                if !ends_line {
                    out.push(input[i]);
                }
                i += 1;
            }
        } else {
            out.push(b);
            i += 1;
        }
    }
    out
}

/// Converts worktree content to its stored form under `policy`, without any check.
pub fn normalize(input: &[u8], policy: Policy) -> (out: Vec<u8>)
    ensures
        out@ == to_git_text(input@, policy),
{
    let converted = convert_crlf_to_lf(input);
    match policy {
        Policy::Normalize => converted,
        Policy::NormalizeAndTrim => trim_trailing_whitespace(converted.as_slice()),
    }
}

/// Converts worktree content to its stored form under `policy`.
///
/// With `CrlfRoundTripCheck::Fail` the result is converted back in memory and compared with
/// `input`; content that would not be restored byte for byte is refused. With
/// `CrlfRoundTripCheck::Skip` the normalized content is returned whatever it is.
pub fn convert_to_git(input: &[u8], policy: Policy, check: CrlfRoundTripCheck) -> (res: Result<
    Vec<u8>,
    RoundTripMismatch,
>)
    ensures
        res is Err <==> check == CrlfRoundTripCheck::Fail && !round_trips(input@, policy),
        res matches Ok(out) ==> out@ == to_git_text(input@, policy),
{
    let out = normalize(input, policy);
    match check {
        CrlfRoundTripCheck::Skip => Ok(out),
        CrlfRoundTripCheck::Fail => {
            let back = convert_lf_to_crlf(out.as_slice());
            if bytes_equal(back.as_slice(), input) {
                Ok(out)
            } else {
                Err(RoundTripMismatch)
            }
        },
    }
}

/// Converts stored content to its worktree form: every line feed becomes a CRLF pair.
pub fn convert_to_worktree(input: &[u8]) -> (out: Vec<u8>)
    ensures
        out@ == to_worktree_text(input@),
{
    convert_lf_to_crlf(input)
}

/// What converting the first `n` bytes of `s` to LF and back to CRLF yields: its length always,
/// and the bytes themselves where no line feed among them stands alone. A carriage return at
/// `n - 1` that precedes a line feed is still held back.
proof fn lemma_round_trip_prefix(s: Seq<u8>, n: int)
    requires
        0 <= n <= s.len(),
    ensures
        lf_to_crlf(crlf_to_lf_prefix(s, n)).len() == n - (if is_crlf_at(s, n - 1) {
            1int
        } else {
            0int
        }) + bare_lf_count(s, n),
        bare_lf_count(s, n) == 0 ==> lf_to_crlf(crlf_to_lf_prefix(s, n)) == s.subrange(
            0,
            n - (if is_crlf_at(s, n - 1) {
                1int
            } else {
                0int
            }),
        ),
    decreases n,
{
    if n > 0 {
        lemma_round_trip_prefix(s, n - 1);
        let before = crlf_to_lf_prefix(s, n - 1);
        let b = s[n - 1];
        if !is_crlf_at(s, n - 1) {
            assert(before.push(b).drop_last() =~= before);
            if bare_lf_count(s, n) == 0 {
                if b == LF {
                    assert(is_crlf_at(s, n - 2));
                    assert(s.subrange(0, n - 2).push(CR).push(LF) =~= s.subrange(0, n));
                } else {
                    assert(s.subrange(0, n - 1).push(b) =~= s.subrange(0, n));
                }
            }
        }
    } else {
        assert(s.subrange(0, 0) =~= Seq::<u8>::empty());
    }
}

/// The count of lone line feeds is positive as soon as one of them is among the bytes counted.
proof fn lemma_bare_lf_counted(s: Seq<u8>, n: int, i: int)
    requires
        is_bare_lf(s, i),
        i < n,
    ensures
        bare_lf_count(s, n) > 0,
    decreases n,
{
    if i < n - 1 {
        lemma_bare_lf_counted(s, n - 1, i);
    }
}

/// Where no line feed stands alone, none is counted.
proof fn lemma_only_crlf_counts_none(s: Seq<u8>, n: int)
    requires
        has_only_crlf(s),
    ensures
        bare_lf_count(s, n) == 0,
    decreases n,
{
    if n > 0 {
        lemma_only_crlf_counts_none(s, n - 1);
    }
}

/// Content whose lines all end in CRLF survives the round trip: converting it to LF and back
/// to CRLF reproduces it byte for byte.
pub proof fn law_uniform_crlf_round_trips(s: Seq<u8>)
    requires
        has_only_crlf(s),
    ensures
        lf_to_crlf(crlf_to_lf(s)) == s,
        round_trips(s, Policy::Normalize),
{
    lemma_only_crlf_counts_none(s, s.len() as int);
    lemma_round_trip_prefix(s, s.len() as int);
    assert(s.subrange(0, s.len() as int) =~= s);
}

/// Content with a line feed that no carriage return precedes cannot be restored: converting it
/// to LF and back to CRLF gives something longer.
pub proof fn law_bare_lf_breaks_round_trip(s: Seq<u8>, i: int)
    requires
        is_bare_lf(s, i),
    ensures
        lf_to_crlf(crlf_to_lf(s)) != s,
        !round_trips(s, Policy::Normalize),
{
    lemma_bare_lf_counted(s, s.len() as int, i);
    lemma_round_trip_prefix(s, s.len() as int);
}

/// What normalization makes of the first `n` bytes depends on those bytes and, for a carriage
/// return at `n - 1`, on whether a line feed follows.
proof fn lemma_prefix_agrees(a: Seq<u8>, b: Seq<u8>, n: int)
    requires
        0 <= n <= a.len(),
        n <= b.len(),
        forall|i: int| 0 <= i < n ==> a[i] == b[i],
        is_crlf_at(a, n - 1) == is_crlf_at(b, n - 1),
    ensures
        crlf_to_lf_prefix(a, n) == crlf_to_lf_prefix(b, n),
    decreases n,
{
    if n > 0 {
        lemma_prefix_agrees(a, b, n - 1);
    }
}

/// Converting to CRLF and back to LF changes nothing, whatever the content: every carriage
/// return that the first conversion puts in is taken out by the second, and no other.
pub proof fn law_smudge_then_clean_restores(s: Seq<u8>)
    ensures
        crlf_to_lf(lf_to_crlf(s)) == s,
    decreases s.len(),
{
    if s.len() > 0 {
        let head = s.drop_last();
        let b = s.last();
        let before = lf_to_crlf(head);
        let all = lf_to_crlf(s);
        let n = before.len() as int;
        law_smudge_then_clean_restores(head);
        lemma_prefix_agrees(all, before, n);
        assert(head.push(b) =~= s);
        if b == LF {
            assert(is_crlf_at(all, n));
            assert(crlf_to_lf_prefix(all, n + 1) == crlf_to_lf_prefix(all, n));
            assert(crlf_to_lf_prefix(all, n + 2) == crlf_to_lf_prefix(all, n + 1).push(LF));
        } else {
            assert(crlf_to_lf_prefix(all, n + 1) == crlf_to_lf_prefix(all, n).push(b));
        }
    } else {
        assert(s =~= Seq::<u8>::empty());
    }
}

/// Plain normalization can be undone exactly for the content whose lines all end in CRLF.
pub proof fn law_round_trip_iff_uniform_crlf(s: Seq<u8>)
    ensures
        round_trips(s, Policy::Normalize) <==> has_only_crlf(s),
{
    if has_only_crlf(s) {
        law_uniform_crlf_round_trips(s);
    } else {
        let i = choose|i: int| is_bare_lf(s, i);
        law_bare_lf_breaks_round_trip(s, i);
    }
}

} // verus!
