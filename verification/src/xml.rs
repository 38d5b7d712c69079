//! A minimal pull scanner over raw XML bytes.
//!
//! The scanner recognises just enough structure to walk a document token by
//! token: opening, closing and self-closing tags with their qualified names,
//! attribute lists, and the markup forms that must be skipped as opaque
//! (character data, comments, CDATA sections, processing instructions and
//! doctype declarations). Every token is described first by a specification
//! function over the byte sequence; the executable scanner is proved to
//! return exactly what the specification says.

use vstd::arithmetic::div_mod::lemma_fundamental_div_mod;
use vstd::prelude::*;

verus! {

/// Byte value of `<`.
pub const LT: u8 = 60;
/// Byte value of `>`.
pub const GT: u8 = 62;
/// Byte value of `/`.
pub const SLASH: u8 = 47;
/// Byte value of `!`.
pub const BANG: u8 = 33;
/// Byte value of `?`.
pub const QUESTION: u8 = 63;
/// Byte value of `:`.
pub const COLON: u8 = 58;
/// Byte value of `=`.
pub const EQUALS: u8 = 61;
/// Byte value of `"`.
pub const DQUOTE: u8 = 34;
/// Byte value of `'`.
pub const SQUOTE: u8 = 39;
/// Byte value of `&`.
pub const AMP: u8 = 38;

/// XML whitespace: space, tab, carriage return, line feed.
pub open spec fn is_ws(b: u8) -> bool {
    b == 32 || b == 9 || b == 13 || b == 10
}

/// Executable twin of [`is_ws`].
pub fn byte_is_ws(b: u8) -> (r: bool)
    ensures
        r == is_ws(b),
{
    b == 32 || b == 9 || b == 13 || b == 10
}

/// Index of the first occurrence of `b` in `d[i .. end)`, if any.
pub open spec fn find_byte(d: Seq<u8>, b: u8, i: int, end: int) -> Option<int>
    decreases end - i,
{
    if i < 0 || i >= end || end > d.len() {
        None
    } else if d[i] == b {
        Some(i)
    } else {
        find_byte(d, b, i + 1, end)
    }
}

/// What a successful or failed byte search means for the bytes themselves.
pub proof fn lemma_find_byte(d: Seq<u8>, b: u8, i: int, end: int)
    requires
        0 <= i <= end <= d.len(),
    ensures
        match find_byte(d, b, i, end) {
            Some(j) => i <= j < end && d[j] == b && forall|k: int| i <= k < j ==> d[k] != b,
            None => forall|k: int| i <= k < end ==> d[k] != b,
        },
    decreases end - i,
{
    if i < end && d[i] != b {
        lemma_find_byte(d, b, i + 1, end);
    }
}

/// Executable byte search, proved against [`find_byte`].
pub fn find_byte_from(d: &[u8], b: u8, i: usize, end: usize) -> (r: Option<usize>)
    requires
        i <= end <= d@.len(),
    ensures
        match r {
            Some(j) => Some(j as int) == find_byte(d@, b, i as int, end as int),
            None => find_byte(d@, b, i as int, end as int) is None,
        },
{
    let mut k: usize = i;
    while k < end
        invariant
            i <= k <= end <= d@.len(),
            find_byte(d@, b, i as int, end as int) == find_byte(d@, b, k as int, end as int),
        decreases end - k,
    {
        if d[k] == b {
            return Some(k);
        }
        k = k + 1;
    }
    None
}

/// `pat` occurs in `d` starting at `i`, entirely before `end`.
pub open spec fn matches_within(d: Seq<u8>, pat: Seq<u8>, i: int, end: int) -> bool {
    0 <= i && i + pat.len() <= end && end <= d.len() && d.subrange(i, i + pat.len() as int)
        == pat
}

/// Index of the first occurrence of `pat` in `d[i .. end)`, if any.
pub open spec fn find_pat(d: Seq<u8>, pat: Seq<u8>, i: int, end: int) -> Option<int>
    decreases end - i,
{
    if i < 0 || i >= end || i + pat.len() > end || end > d.len() {
        None
    } else if d.subrange(i, i + pat.len() as int) == pat {
        Some(i)
    } else {
        find_pat(d, pat, i + 1, end)
    }
}

/// Bounds carried by a successful pattern search.
pub proof fn lemma_find_pat(d: Seq<u8>, pat: Seq<u8>, i: int, end: int)
    requires
        0 <= i,
        end <= d.len(),
    ensures
        match find_pat(d, pat, i, end) {
            Some(j) => i <= j && j + pat.len() <= end && matches_within(d, pat, j, end),
            None => true,
        },
    decreases end - i,
{
    if i < end && i + pat.len() <= end && d.subrange(i, i + pat.len() as int) != pat {
        lemma_find_pat(d, pat, i + 1, end);
    }
}

/// The bytes of `-->`.
pub open spec fn comment_close() -> Seq<u8> {
    seq![45u8, 45u8, 62u8]
}

/// The bytes of `]]>`.
pub open spec fn cdata_close() -> Seq<u8> {
    seq![93u8, 93u8, 62u8]
}

/// The bytes of `?>`.
pub open spec fn pi_close() -> Seq<u8> {
    seq![63u8, 62u8]
}

/// The bytes of `<!--`.
pub open spec fn comment_open() -> Seq<u8> {
    seq![60u8, 33u8, 45u8, 45u8]
}

/// The bytes of `<![CDATA[`.
pub open spec fn cdata_open() -> Seq<u8> {
    seq![60u8, 33u8, 91u8, 67u8, 68u8, 65u8, 84u8, 65u8, 91u8]
}

/// Executable search for a two-byte pattern.
pub fn find_pat2_from(d: &[u8], b0: u8, b1: u8, i: usize, end: usize) -> (r: Option<usize>)
    requires
        i <= end <= d@.len(),
    ensures
        match r {
            Some(j) => Some(j as int) == find_pat(d@, seq![b0, b1], i as int, end as int),
            None => find_pat(d@, seq![b0, b1], i as int, end as int) is None,
        },
{
    let mut k: usize = i;
    while end - k >= 2
        invariant
            i <= k <= end <= d@.len(),
            find_pat(d@, seq![b0, b1], i as int, end as int) == find_pat(
                d@,
                seq![b0, b1],
                k as int,
                end as int,
            ),
        decreases end - k,
    {
        if d[k] == b0 && d[k + 1] == b1 {
            proof {
                assert(d@.subrange(k as int, k + 2int) =~= seq![b0, b1]);
            }
            return Some(k);
        }
        proof {
            assert(d@.subrange(k as int, k + 2int) != seq![b0, b1]) by {
                if d@.subrange(k as int, k + 2int) == seq![b0, b1] {
                    assert(d@.subrange(k as int, k + 2int)[0] == b0);
                    assert(d@.subrange(k as int, k + 2int)[1] == b1);
                }
            }
        }
        k = k + 1;
    }
    None
}

/// Executable search for a three-byte pattern.
pub fn find_pat3_from(d: &[u8], b0: u8, b1: u8, b2: u8, i: usize, end: usize) -> (r: Option<
    usize,
>)
    requires
        i <= end <= d@.len(),
    ensures
        match r {
            Some(j) => Some(j as int) == find_pat(d@, seq![b0, b1, b2], i as int, end as int),
            None => find_pat(d@, seq![b0, b1, b2], i as int, end as int) is None,
        },
{
    let mut k: usize = i;
    while end - k >= 3
        invariant
            i <= k <= end <= d@.len(),
            find_pat(d@, seq![b0, b1, b2], i as int, end as int) == find_pat(
                d@,
                seq![b0, b1, b2],
                k as int,
                end as int,
            ),
        decreases end - k,
    {
        if d[k] == b0 && d[k + 1] == b1 && d[k + 2] == b2 {
            proof {
                assert(d@.subrange(k as int, k + 3int) =~= seq![b0, b1, b2]);
            }
            return Some(k);
        }
        proof {
            assert(d@.subrange(k as int, k + 3int) != seq![b0, b1, b2]) by {
                if d@.subrange(k as int, k + 3int) == seq![b0, b1, b2] {
                    assert(d@.subrange(k as int, k + 3int)[0] == b0);
                    assert(d@.subrange(k as int, k + 3int)[1] == b1);
                    assert(d@.subrange(k as int, k + 3int)[2] == b2);
                }
            }
        }
        k = k + 1;
    }
    None
}

/// Index of the first whitespace byte in `d[i .. end)`, if any.
pub open spec fn find_ws(d: Seq<u8>, i: int, end: int) -> Option<int>
    decreases end - i,
{
    if i < 0 || i >= end || end > d.len() {
        None
    } else if is_ws(d[i]) {
        Some(i)
    } else {
        find_ws(d, i + 1, end)
    }
}

/// Bounds and meaning of a whitespace search.
pub proof fn lemma_find_ws(d: Seq<u8>, i: int, end: int)
    requires
        0 <= i <= end <= d.len(),
    ensures
        match find_ws(d, i, end) {
            Some(j) => i <= j < end && is_ws(d[j]) && forall|k: int| i <= k < j ==> !is_ws(d[k]),
            None => forall|k: int| i <= k < end ==> !is_ws(d[k]),
        },
    decreases end - i,
{
    if i < end && !is_ws(d[i]) {
        lemma_find_ws(d, i + 1, end);
    }
}

/// Executable whitespace search.
pub fn find_ws_from(d: &[u8], i: usize, end: usize) -> (r: Option<usize>)
    requires
        i <= end <= d@.len(),
    ensures
        match r {
            Some(j) => Some(j as int) == find_ws(d@, i as int, end as int),
            None => find_ws(d@, i as int, end as int) is None,
        },
{
    let mut k: usize = i;
    while k < end
        invariant
            i <= k <= end <= d@.len(),
            find_ws(d@, i as int, end as int) == find_ws(d@, k as int, end as int),
        decreases end - k,
    {
        if byte_is_ws(d[k]) {
            return Some(k);
        }
        k = k + 1;
    }
    None
}

/// Where a tag name ends: at the first whitespace byte before `cap`, or at
/// `cap` itself when the name runs to the end of the tag.
pub open spec fn name_end(d: Seq<u8>, lo: int, cap: int) -> int {
    match find_ws(d, lo, cap) {
        Some(j) => j,
        None => cap,
    }
}

/// Executable twin of [`name_end`].
pub fn name_end_from(d: &[u8], lo: usize, cap: usize) -> (r: usize)
    requires
        lo <= cap <= d@.len(),
    ensures
        r as int == name_end(d@, lo as int, cap as int),
        lo <= r <= cap,
{
    proof {
        lemma_find_ws(d@, lo as int, cap as int);
    }
    match find_ws_from(d, lo, cap) {
        Some(j) => j,
        None => cap,
    }
}

/// One token of the scan, described over the mathematical byte sequence.
/// All positions are absolute indexes into the scanned sequence; `next` is
/// where the following token begins.
pub ghost enum SpecToken {
    /// Markup-free character data; the scan skips it.
    Text { next: int },
    /// An opening tag `<name ...>`; `name_lo .. name_hi` is the qualified name.
    Start { name_lo: int, name_hi: int, next: int },
    /// A self-closing tag `<name .../>`.
    SelfClosed { name_lo: int, name_hi: int, next: int },
    /// A closing tag `</name>`.
    End { name_lo: int, name_hi: int, next: int },
    /// A comment, CDATA section, processing instruction or doctype; skipped.
    Misc { next: int },
    /// The scanned span is exhausted.
    Eof,
    /// Malformed markup, e.g. a tag that never closes before the span ends.
    Bad,
}

/// The token that begins at position `i` of the span `d[.. end)`.
///
/// This is the library's whole grammar for walking a document: text runs to
/// the next `<`; a tag runs to the next `>`; comments, CDATA sections and
/// processing instructions run to their own closing sequences; a tag whose
/// content ends in `/` is self-closing; a tag name ends at the first
/// whitespace byte.
pub open spec fn spec_token(d: Seq<u8>, i: int, end: int) -> SpecToken
    recommends
        0 <= i <= end <= d.len(),
{
    if i >= end {
        SpecToken::Eof
    } else if d[i] != LT {
        match find_byte(d, LT, i + 1, end) {
            Some(j) => SpecToken::Text { next: j },
            None => SpecToken::Text { next: end },
        }
    } else if i + 1 >= end {
        SpecToken::Bad
    } else if d[i + 1] == SLASH {
        match find_byte(d, GT, i + 2, end) {
            None => SpecToken::Bad,
            Some(g) => SpecToken::End {
                name_lo: i + 2,
                name_hi: name_end(d, i + 2, g),
                next: g + 1,
            },
        }
    } else if d[i + 1] == BANG {
        if matches_within(d, comment_open(), i, end) {
            match find_pat(d, comment_close(), i + 4, end) {
                Some(j) => SpecToken::Misc { next: j + 3 },
                None => SpecToken::Bad,
            }
        } else if matches_within(d, cdata_open(), i, end) {
            match find_pat(d, cdata_close(), i + 9, end) {
                Some(j) => SpecToken::Misc { next: j + 3 },
                None => SpecToken::Bad,
            }
        } else {
            match find_byte(d, GT, i + 2, end) {
                Some(g) => SpecToken::Misc { next: g + 1 },
                None => SpecToken::Bad,
            }
        }
    } else if d[i + 1] == QUESTION {
        match find_pat(d, pi_close(), i + 2, end) {
            Some(j) => SpecToken::Misc { next: j + 2 },
            None => SpecToken::Bad,
        }
    } else {
        match find_byte(d, GT, i + 1, end) {
            None => SpecToken::Bad,
            Some(g) => {
                if g > i + 1 && d[g - 1] == SLASH {
                    SpecToken::SelfClosed {
                        name_lo: i + 1,
                        name_hi: name_end(d, i + 1, g - 1),
                        next: g + 1,
                    }
                } else {
                    SpecToken::Start {
                        name_lo: i + 1,
                        name_hi: name_end(d, i + 1, g),
                        next: g + 1,
                    }
                }
            },
        }
    }
}

/// Every token advances the position, and no token reaches past the span.
pub proof fn lemma_token_bounds(d: Seq<u8>, i: int, end: int)
    requires
        0 <= i <= end <= d.len(),
    ensures
        match spec_token(d, i, end) {
            SpecToken::Text { next } => i < next <= end,
            SpecToken::Start { name_lo, name_hi, next } => i < next <= end && name_lo == i + 1
                && name_lo <= name_hi < next,
            SpecToken::SelfClosed { name_lo, name_hi, next } => i < next <= end && name_lo == i
                + 1 && name_lo <= name_hi < next,
            SpecToken::End { name_lo, name_hi, next } => i < next <= end && name_lo == i + 2
                && name_lo <= name_hi < next,
            SpecToken::Misc { next } => i < next <= end,
            SpecToken::Eof => i == end,
            SpecToken::Bad => true,
        },
{
    if i < end {
        if d[i] != LT {
            lemma_find_byte(d, LT, i + 1, end);
        } else if i + 1 < end {
            if d[i + 1] == SLASH {
                lemma_find_byte(d, GT, i + 2, end);
                if let Some(g) = find_byte(d, GT, i + 2, end) {
                    lemma_find_ws(d, i + 2, g);
                }
            } else if d[i + 1] == BANG {
                lemma_find_pat(d, comment_close(), i + 4, end);
                lemma_find_pat(d, cdata_close(), i + 9, end);
                lemma_find_byte(d, GT, i + 2, end);
            } else if d[i + 1] == QUESTION {
                lemma_find_pat(d, pi_close(), i + 2, end);
            } else {
                lemma_find_byte(d, GT, i + 1, end);
                if let Some(g) = find_byte(d, GT, i + 1, end) {
                    lemma_find_ws(d, i + 1, g);
                    if g >= i + 2 {
                        lemma_find_ws(d, i + 1, g - 1);
                    }
                }
            }
        }
    }
}

/// Executable token, mirroring [`SpecToken`] with machine indexes.
pub enum Token {
    Text { next: usize },
    Start { name_lo: usize, name_hi: usize, next: usize },
    SelfClosed { name_lo: usize, name_hi: usize, next: usize },
    End { name_lo: usize, name_hi: usize, next: usize },
    Misc { next: usize },
    Eof,
    Bad,
}

/// The specification-level reading of an executable token.
pub open spec fn abs_token(t: Token) -> SpecToken {
    match t {
        Token::Text { next } => SpecToken::Text { next: next as int },
        Token::Start { name_lo, name_hi, next } => SpecToken::Start {
            name_lo: name_lo as int,
            name_hi: name_hi as int,
            next: next as int,
        },
        Token::SelfClosed { name_lo, name_hi, next } => SpecToken::SelfClosed {
            name_lo: name_lo as int,
            name_hi: name_hi as int,
            next: next as int,
        },
        Token::End { name_lo, name_hi, next } => SpecToken::End {
            name_lo: name_lo as int,
            name_hi: name_hi as int,
            next: next as int,
        },
        Token::Misc { next } => SpecToken::Misc { next: next as int },
        Token::Eof => SpecToken::Eof,
        Token::Bad => SpecToken::Bad,
    }
}

/// Reads the token that begins at `i` in the span `d[.. end)`.
pub fn next_token(d: &[u8], i: usize, end: usize) -> (t: Token)
    requires
        i <= end <= d@.len(),
    ensures
        abs_token(t) == spec_token(d@, i as int, end as int),
{
    if i >= end {
        return Token::Eof;
    }
    if d[i] != LT {
        return match find_byte_from(d, LT, i + 1, end) {
            Some(j) => Token::Text { next: j },
            None => Token::Text { next: end },
        };
    }
    if i + 1 >= end {
        return Token::Bad;
    }
    let b1 = d[i + 1];
    if b1 == SLASH {
        match find_byte_from(d, GT, i + 2, end) {
            None => Token::Bad,
            Some(g) => {
                proof {
                    lemma_find_byte(d@, GT, i + 2, end as int);
                }
                let nh = name_end_from(d, i + 2, g);
                Token::End { name_lo: i + 2, name_hi: nh, next: g + 1 }
            },
        }
    } else if b1 == BANG {
        if end - i >= 4 && d[i + 2] == 45 && d[i + 3] == 45 {
            proof {
                assert(d@.subrange(i as int, i + 4int) =~= comment_open());
            }
            match find_pat3_from(d, 45, 45, 62, i + 4, end) {
                Some(j) => {
                    proof {
                        lemma_find_pat(d@, comment_close(), i + 4, end as int);
                    }
                    Token::Misc { next: j + 3 }
                },
                None => Token::Bad,
            }
        } else if end - i >= 9 && d[i + 2] == 91 && d[i + 3] == 67 && d[i + 4] == 68 && d[i + 5]
            == 65 && d[i + 6] == 84 && d[i + 7] == 65 && d[i + 8] == 91 {
            proof {
                assert(d@.subrange(i as int, i + 9int) =~= cdata_open());
                assert(!matches_within(d@, comment_open(), i as int, end as int)) by {
                    if matches_within(d@, comment_open(), i as int, end as int) {
                        assert(d@.subrange(i as int, i + 4int)[2] == 45u8);
                    }
                }
            }
            match find_pat3_from(d, 93, 93, 62, i + 9, end) {
                Some(j) => {
                    proof {
                        lemma_find_pat(d@, cdata_close(), i + 9, end as int);
                    }
                    Token::Misc { next: j + 3 }
                },
                None => Token::Bad,
            }
        } else {
            proof {
                assert(!matches_within(d@, comment_open(), i as int, end as int)) by {
                    if matches_within(d@, comment_open(), i as int, end as int) {
                        assert(d@.subrange(i as int, i + 4int)[2] == 45u8);
                        assert(d@.subrange(i as int, i + 4int)[3] == 45u8);
                    }
                }
                assert(!matches_within(d@, cdata_open(), i as int, end as int)) by {
                    if matches_within(d@, cdata_open(), i as int, end as int) {
                        assert(forall|k: int|
                            0 <= k < 9 ==> d@.subrange(i as int, i + 9int)[k]
                                == cdata_open()[k]);
                    }
                }
            }
            match find_byte_from(d, GT, i + 2, end) {
                Some(g) => {
                    proof {
                        lemma_find_byte(d@, GT, i + 2, end as int);
                    }
                    Token::Misc { next: g + 1 }
                },
                None => Token::Bad,
            }
        }
    } else if b1 == QUESTION {
        match find_pat2_from(d, 63, 62, i + 2, end) {
            Some(j) => {
                proof {
                    lemma_find_pat(d@, pi_close(), i + 2, end as int);
                }
                Token::Misc { next: j + 2 }
            },
            None => Token::Bad,
        }
    } else {
        match find_byte_from(d, GT, i + 1, end) {
            None => Token::Bad,
            Some(g) => {
                proof {
                    lemma_find_byte(d@, GT, i + 1, end as int);
                }
                if g > i + 1 && d[g - 1] == SLASH {
                    let nh = name_end_from(d, i + 1, g - 1);
                    Token::SelfClosed { name_lo: i + 1, name_hi: nh, next: g + 1 }
                } else {
                    let nh = name_end_from(d, i + 1, g);
                    Token::Start { name_lo: i + 1, name_hi: nh, next: g + 1 }
                }
            },
        }
    }
}

/// Where the local part of a qualified name `d[lo .. hi)` begins: after the
/// first `:`, or at `lo` when the name carries no prefix.
pub open spec fn local_lo(d: Seq<u8>, lo: int, hi: int) -> int {
    match find_byte(d, COLON, lo, hi) {
        Some(c) => c + 1,
        None => lo,
    }
}

/// The local part of the qualified name `d[lo .. hi)`.
pub open spec fn local_name(d: Seq<u8>, lo: int, hi: int) -> Seq<u8> {
    d.subrange(local_lo(d, lo, hi), hi)
}

/// Executable start of the local part of a name.
pub fn local_lo_from(d: &[u8], lo: usize, hi: usize) -> (r: usize)
    requires
        lo <= hi <= d@.len(),
    ensures
        r as int == local_lo(d@, lo as int, hi as int),
        lo <= r <= hi,
{
    proof {
        lemma_find_byte(d@, COLON, lo as int, hi as int);
    }
    match find_byte_from(d, COLON, lo, hi) {
        Some(c) => c + 1,
        None => lo,
    }
}

/// Whether `d[lo .. hi)` equals the bytes of `pat`.
pub fn range_eq(d: &[u8], lo: usize, hi: usize, pat: &[u8]) -> (r: bool)
    requires
        lo <= hi <= d@.len(),
    ensures
        r == (d@.subrange(lo as int, hi as int) == pat@),
{
    if hi - lo != pat.len() {
        proof {
            assert(d@.subrange(lo as int, hi as int).len() == hi - lo);
        }
        return false;
    }
    let n: usize = pat.len();
    let mut k: usize = 0;
    while k < n
        invariant
            lo <= hi <= d@.len(),
            n == pat@.len(),
            hi - lo == n,
            0 <= k <= n,
            forall|j: int| 0 <= j < k ==> d@.subrange(lo as int, hi as int)[j] == pat@[j],
        decreases n - k,
    {
        if d[lo + k] != pat[k] {
            proof {
                assert(d@.subrange(lo as int, hi as int)[k as int] == d@[lo + k as int]);
            }
            return false;
        }
        proof {
            assert(d@.subrange(lo as int, hi as int)[k as int] == d@[lo + k as int]);
        }
        k = k + 1;
    }
    proof {
        assert(d@.subrange(lo as int, hi as int) =~= pat@);
    }
    true
}

/// Whether the local part of the name `d[lo .. hi)` equals `pat`.
pub fn local_name_eq(d: &[u8], lo: usize, hi: usize, pat: &[u8]) -> (r: bool)
    requires
        lo <= hi <= d@.len(),
    ensures
        r == (local_name(d@, lo as int, hi as int) == pat@),
{
    let ll = local_lo_from(d, lo, hi);
    range_eq(d, ll, hi, pat)
}

/// First index in `d[i .. end)` holding a byte that is not whitespace, or
/// `end` when only whitespace remains.
pub open spec fn skip_ws(d: Seq<u8>, i: int, end: int) -> int
    decreases end - i,
{
    if i < 0 || i >= end || end > d.len() {
        end
    } else if is_ws(d[i]) {
        skip_ws(d, i + 1, end)
    } else {
        i
    }
}

/// Skipping whitespace never moves backwards nor past the span.
pub proof fn lemma_skip_ws(d: Seq<u8>, i: int, end: int)
    requires
        0 <= i <= end <= d.len(),
    ensures
        i <= skip_ws(d, i, end) <= end,
        skip_ws(d, i, end) < end ==> !is_ws(d[skip_ws(d, i, end)]),
    decreases end - i,
{
    if i < end && is_ws(d[i]) {
        lemma_skip_ws(d, i + 1, end);
    }
}

/// Executable whitespace skip.
pub fn skip_ws_from(d: &[u8], i: usize, end: usize) -> (r: usize)
    requires
        i <= end <= d@.len(),
    ensures
        r as int == skip_ws(d@, i as int, end as int),
        i <= r <= end,
{
    proof {
        lemma_skip_ws(d@, i as int, end as int);
    }
    let mut k: usize = i;
    while k < end
        invariant
            i <= k <= end <= d@.len(),
            skip_ws(d@, i as int, end as int) == skip_ws(d@, k as int, end as int),
        decreases end - k,
    {
        if !byte_is_ws(d[k]) {
            return k;
        }
        k = k + 1;
    }
    end
}

/// One attribute `key="value"` parsed inside a tag, by byte spans.
pub ghost struct SpecAttr {
    pub key_lo: int,
    pub key_hi: int,
    pub val_lo: int,
    pub val_hi: int,
    pub next: int,
}

/// Index where an attribute key ends: the first whitespace or `=` byte.
pub open spec fn find_key_end(d: Seq<u8>, i: int, end: int) -> Option<int>
    decreases end - i,
{
    if i < 0 || i >= end || end > d.len() {
        None
    } else if is_ws(d[i]) || d[i] == EQUALS {
        Some(i)
    } else {
        find_key_end(d, i + 1, end)
    }
}

/// Bounds and meaning of the key-end search.
pub proof fn lemma_find_key_end(d: Seq<u8>, i: int, end: int)
    requires
        0 <= i <= end <= d.len(),
    ensures
        match find_key_end(d, i, end) {
            Some(j) => i <= j < end && (is_ws(d[j]) || d[j] == EQUALS),
            None => true,
        },
    decreases end - i,
{
    if i < end && !is_ws(d[i]) && d[i] != EQUALS {
        lemma_find_key_end(d, i + 1, end);
    }
}

/// Executable key-end search.
pub fn find_key_end_from(d: &[u8], i: usize, end: usize) -> (r: Option<usize>)
    requires
        i <= end <= d@.len(),
    ensures
        match r {
            Some(j) => Some(j as int) == find_key_end(d@, i as int, end as int) && i <= j < end,
            None => find_key_end(d@, i as int, end as int) is None,
        },
{
    proof {
        lemma_find_key_end(d@, i as int, end as int);
    }
    let mut k: usize = i;
    while k < end
        invariant
            i <= k <= end <= d@.len(),
            find_key_end(d@, i as int, end as int) == find_key_end(d@, k as int, end as int),
        decreases end - k,
    {
        if byte_is_ws(d[k]) || d[k] == EQUALS {
            proof {
                lemma_find_key_end(d@, i as int, end as int);
            }
            return Some(k);
        }
        k = k + 1;
    }
    None
}

/// The attribute that begins at the non-whitespace position `i`, if the bytes
/// from `i` follow the shape `key = "value"` (single or double quotes, with
/// optional whitespace around `=`).
pub open spec fn spec_attr_at(d: Seq<u8>, i: int, end: int) -> Option<SpecAttr> {
    match find_key_end(d, i, end) {
        None => None,
        Some(key_hi) => {
            let e = skip_ws(d, key_hi, end);
            if e >= end || d[e] != EQUALS {
                None
            } else {
                let q = skip_ws(d, e + 1, end);
                if q >= end || (d[q] != DQUOTE && d[q] != SQUOTE) {
                    None
                } else {
                    match find_byte(d, d[q], q + 1, end) {
                        None => None,
                        Some(v) => Some(
                            SpecAttr {
                                key_lo: i,
                                key_hi: key_hi,
                                val_lo: q + 1,
                                val_hi: v,
                                next: v + 1,
                            },
                        ),
                    }
                }
            }
        },
    }
}

/// A parsed attribute lies inside the span and strictly advances the scan.
pub proof fn lemma_attr_at_bounds(d: Seq<u8>, i: int, end: int)
    requires
        0 <= i <= end <= d.len(),
    ensures
        match spec_attr_at(d, i, end) {
            Some(a) => i <= a.key_lo <= a.key_hi <= a.val_lo <= a.val_hi < a.next <= end && i
                < a.next,
            None => true,
        },
{
    lemma_find_key_end(d, i, end);
    if let Some(key_hi) = find_key_end(d, i, end) {
        lemma_skip_ws(d, key_hi, end);
        let e = skip_ws(d, key_hi, end);
        if e < end && d[e] == EQUALS {
            lemma_skip_ws(d, e + 1, end);
            let q = skip_ws(d, e + 1, end);
            if q < end && (d[q] == DQUOTE || d[q] == SQUOTE) {
                lemma_find_byte(d, d[q], q + 1, end);
            }
        }
    }
}

/// Whether the attribute list in `d[i .. end)` contains an attribute whose
/// key has local part `key` and whose raw value is `val`.
pub open spec fn spec_has_attr(d: Seq<u8>, i: int, end: int, key: Seq<u8>, val: Seq<u8>) -> bool
    decreases end - i,
{
    if i < 0 || end > d.len() {
        false
    } else {
        let j = skip_ws(d, i, end);
        if j >= end {
            false
        } else {
            match spec_attr_at(d, j, end) {
                None => false,
                Some(a) => {
                    proof {
                        if 0 <= i <= end <= d.len() {
                            lemma_skip_ws(d, i, end);
                            lemma_attr_at_bounds(d, j, end);
                        }
                    }
                    if local_name(d, a.key_lo, a.key_hi) == key && d.subrange(a.val_lo, a.val_hi)
                        == val {
                        true
                    } else {
                        spec_has_attr(d, a.next, end, key, val)
                    }
                },
            }
        }
    }
}

/// Executable scan of a tag's attribute list.
pub fn has_attr(d: &[u8], i: usize, end: usize, key: &[u8], val: &[u8]) -> (r: bool)
    requires
        i <= end <= d@.len(),
    ensures
        r == spec_has_attr(d@, i as int, end as int, key@, val@),
{
    let mut k: usize = i;
    loop
        invariant
            i <= k <= end <= d@.len(),
            spec_has_attr(d@, i as int, end as int, key@, val@) == spec_has_attr(
                d@,
                k as int,
                end as int,
                key@,
                val@,
            ),
        decreases end - k,
    {
        let j = skip_ws_from(d, k, end);
        if j >= end {
            return false;
        }
        proof {
            lemma_attr_at_bounds(d@, j as int, end as int);
        }
        match find_key_end_from(d, j, end) {
            None => {
                return false;
            },
            Some(key_hi) => {
                let e = skip_ws_from(d, key_hi, end);
                if e >= end || d[e] != EQUALS {
                    return false;
                }
                let q = skip_ws_from(d, e + 1, end);
                if q >= end || (d[q] != DQUOTE && d[q] != SQUOTE) {
                    return false;
                }
                match find_byte_from(d, d[q], q + 1, end) {
                    None => {
                        return false;
                    },
                    Some(v) => {
                        if local_name_eq(d, j, key_hi, key) && range_eq(d, q + 1, v, val) {
                            return true;
                        }
                        k = v + 1;
                    },
                }
            },
        }
    }
}

/// The numeric value of the ASCII digits `d[i .. end)`, read left to right.
pub open spec fn digits_val(d: Seq<u8>, i: int, end: int) -> nat
    decreases end - i,
{
    if i < 0 || i >= end || end > d.len() {
        0
    } else {
        digits_val(d, i, end - 1) * 10 + (d[end - 1] - 48) as nat
    }
}

/// Whether `d[i .. end)` is a non-empty run of ASCII digits.
pub open spec fn all_digits(d: Seq<u8>, i: int, end: int) -> bool {
    i < end && end <= d.len() && 0 <= i && forall|k: int| i <= k < end ==> 48 <= #[trigger] d[k] <= 57
}

/// The reading of the bytes `d[i .. end)` as a decimal `usize`, mirroring how
/// the fault decoder accepts a retry hint: an optional leading `+`, then
/// digits only, and a value that fits the machine word.
pub open spec fn spec_parse_usize(d: Seq<u8>, i: int, end: int) -> Option<usize> {
    let lo = if 0 <= i < end && end <= d.len() && d[i] == 43 {
        i + 1
    } else {
        i
    };
    if all_digits(d, lo, end) && digits_val(d, lo, end) <= usize::MAX {
        Some(digits_val(d, lo, end) as usize)
    } else {
        None
    }
}

/// Executable decimal parse, proved against [`spec_parse_usize`].
#[verifier::loop_isolation(false)]
pub fn parse_usize(d: &[u8], i: usize, end: usize) -> (r: Option<usize>)
    requires
        i <= end <= d@.len(),
    ensures
        r == spec_parse_usize(d@, i as int, end as int),
{
    let lo: usize = if i < end && d[i] == 43 {
        i + 1
    } else {
        i
    };
    if lo >= end {
        proof {
            assert(!all_digits(d@, lo as int, end as int));
        }
        return None;
    }
    let mut k: usize = lo;
    let mut acc: usize = 0;
    while k < end
        invariant
            lo <= k <= end <= d@.len(),
            lo < end,
            forall|j: int| lo <= j < k ==> 48 <= #[trigger] d@[j] <= 57,
            acc == digits_val(d@, lo as int, k as int),
        decreases end - k,
    {
        let b = d[k];
        if b < 48 || b > 57 {
            proof {
                assert(!(48 <= d@[k as int] <= 57));
                assert(!all_digits(d@, lo as int, end as int));
            }
            return None;
        }
        let digit: usize = (b - 48) as usize;
        if acc > (usize::MAX - digit) / 10 {
            proof {
                let m = usize::MAX as int;
                let dg = digit as int;
                lemma_fundamental_div_mod(m - dg, 10);
                assert(acc * 10 + digit > usize::MAX);
                assert(digits_val(d@, lo as int, k + 1) == acc * 10 + dg);
                assert(spec_parse_usize(d@, i as int, end as int) is None) by {
                    if all_digits(d@, lo as int, end as int) {
                        lemma_digits_val_monotone(d@, lo as int, k + 1, end as int);
                    }
                }
            }
            return None;
        }
        acc = acc * 10 + digit;
        k = k + 1;
    }
    Some(acc)
}

/// A longer digit run never reads as a smaller number.
pub proof fn lemma_digits_val_monotone(d: Seq<u8>, i: int, mid: int, end: int)
    requires
        0 <= i <= mid <= end <= d.len(),
        forall|k: int| i <= k < mid ==> 48 <= #[trigger] d[k] <= 57,
    ensures
        all_digits(d, i, end) ==> digits_val(d, i, end) >= digits_val(d, i, mid),
    decreases end - mid,
{
    if mid < end && all_digits(d, i, end) {
        lemma_digits_val_monotone(d, i, mid + 1, end);
        assert(digits_val(d, i, mid + 1) == digits_val(d, i, mid) * 10 + (d[mid] - 48) as nat);
    }
}

/// The bytes of a string literal, as specification shorthand for tag and
/// attribute names.
pub open spec fn nm(s: &str) -> Seq<u8> {
    vstd::utf8::encode_utf8(s@)
}

/// Whether two byte slices hold the same bytes.
pub fn bytes_eq(a: &[u8], b: &[u8]) -> (r: bool)
    ensures
        r == (a@ == b@),
{
    let n = a.len();
    let r = range_eq(a, 0, n, b);
    proof {
        assert(a@.subrange(0, n as int) =~= a@);
    }
    r
}

/// A token's positions, moved by a fixed offset.
pub open spec fn shift_token(t: SpecToken, k: int) -> SpecToken {
    match t {
        SpecToken::Text { next } => SpecToken::Text { next: next + k },
        SpecToken::Start { name_lo, name_hi, next } => SpecToken::Start {
            name_lo: name_lo + k,
            name_hi: name_hi + k,
            next: next + k,
        },
        SpecToken::SelfClosed { name_lo, name_hi, next } => SpecToken::SelfClosed {
            name_lo: name_lo + k,
            name_hi: name_hi + k,
            next: next + k,
        },
        SpecToken::End { name_lo, name_hi, next } => SpecToken::End {
            name_lo: name_lo + k,
            name_hi: name_hi + k,
            next: next + k,
        },
        SpecToken::Misc { next } => SpecToken::Misc { next: next + k },
        SpecToken::Eof => SpecToken::Eof,
        SpecToken::Bad => SpecToken::Bad,
    }
}

/// Two equal regions hold the same byte at corresponding offsets.
pub open spec fn regions_eq(d1: Seq<u8>, i1: int, end1: int, d2: Seq<u8>, i2: int, end2: int) -> bool {
    &&& 0 <= i1 <= end1 <= d1.len()
    &&& 0 <= i2 <= end2 <= d2.len()
    &&& end1 - i1 == end2 - i2
    &&& d1.subrange(i1, end1) == d2.subrange(i2, end2)
}

/// A byte search sees only its own region.
pub proof fn lemma_find_byte_shift(d1: Seq<u8>, i1: int, end1: int, d2: Seq<u8>, i2: int, end2: int, b: u8, p: int)
    requires
        regions_eq(d1, i1, end1, d2, i2, end2),
        i1 <= p <= end1,
    ensures
        find_byte(d1, b, p, end1) == match find_byte(d2, b, p - i1 + i2, end2) {
            Some(j) => Some(j - i2 + i1),
            None => None,
        },
    decreases end1 - p,
{
    let q = p - i1 + i2;
    if p < end1 {
        assert(d1[p] == d1.subrange(i1, end1)[p - i1]);
        assert(d2[q] == d2.subrange(i2, end2)[q - i2]);
        if d1[p] != b {
            lemma_find_byte_shift(d1, i1, end1, d2, i2, end2, b, p + 1);
        }
    }
}

/// A whitespace search sees only its own region.
pub proof fn lemma_find_ws_shift(d1: Seq<u8>, i1: int, end1: int, d2: Seq<u8>, i2: int, end2: int, p: int)
    requires
        regions_eq(d1, i1, end1, d2, i2, end2),
        i1 <= p <= end1,
    ensures
        find_ws(d1, p, end1) == match find_ws(d2, p - i1 + i2, end2) {
            Some(j) => Some(j - i2 + i1),
            None => None,
        },
    decreases end1 - p,
{
    let q = p - i1 + i2;
    if p < end1 {
        assert(d1[p] == d1.subrange(i1, end1)[p - i1]);
        assert(d2[q] == d2.subrange(i2, end2)[q - i2]);
        if !is_ws(d1[p]) {
            lemma_find_ws_shift(d1, i1, end1, d2, i2, end2, p + 1);
        }
    }
}

/// A pattern search sees only its own region.
pub proof fn lemma_find_pat_shift(d1: Seq<u8>, i1: int, end1: int, d2: Seq<u8>, i2: int, end2: int, pat: Seq<u8>, p: int)
    requires
        regions_eq(d1, i1, end1, d2, i2, end2),
        i1 <= p <= end1,
    ensures
        find_pat(d1, pat, p, end1) == match find_pat(d2, pat, p - i1 + i2, end2) {
            Some(j) => Some(j - i2 + i1),
            None => None,
        },
    decreases end1 - p,
{
    let q = p - i1 + i2;
    if p < end1 && p + pat.len() <= end1 {
        assert(d1.subrange(p, p + pat.len() as int) =~= d2.subrange(q, q + pat.len() as int))
            by {
            assert(forall|k: int|
                0 <= k < pat.len() ==> #[trigger] d1.subrange(p, p + pat.len() as int)[k]
                    == d1.subrange(i1, end1)[p - i1 + k] && d2.subrange(
                    q,
                    q + pat.len() as int,
                )[k] == d2.subrange(i2, end2)[q - i2 + k]);
        }
        if d1.subrange(p, p + pat.len() as int) != pat {
            lemma_find_pat_shift(d1, i1, end1, d2, i2, end2, pat, p + 1);
        }
    }
}

/// Pattern presence at a position sees only its own region.
pub proof fn lemma_matches_within_shift(d1: Seq<u8>, i1: int, end1: int, d2: Seq<u8>, i2: int, end2: int, pat: Seq<u8>, p: int)
    requires
        regions_eq(d1, i1, end1, d2, i2, end2),
        i1 <= p <= end1,
    ensures
        matches_within(d1, pat, p, end1) == matches_within(d2, pat, p - i1 + i2, end2),
{
    let q = p - i1 + i2;
    if p + pat.len() <= end1 {
        assert(d1.subrange(p, p + pat.len() as int) =~= d2.subrange(q, q + pat.len() as int))
            by {
            assert(forall|k: int|
                0 <= k < pat.len() ==> #[trigger] d1.subrange(p, p + pat.len() as int)[k]
                    == d1.subrange(i1, end1)[p - i1 + k] && d2.subrange(
                    q,
                    q + pat.len() as int,
                )[k] == d2.subrange(i2, end2)[q - i2 + k]);
        }
    }
}

/// A token is a function of the bytes of its own region alone: reading at
/// corresponding positions of two equal regions yields the same token,
/// shifted.
pub proof fn lemma_token_shift(d1: Seq<u8>, i1: int, end1: int, d2: Seq<u8>, i2: int, end2: int, p: int)
    requires
        regions_eq(d1, i1, end1, d2, i2, end2),
        i1 <= p <= end1,
    ensures
        spec_token(d1, p, end1) == shift_token(spec_token(d2, p - i1 + i2, end2), i1 - i2),
{
    let q = p - i1 + i2;
    if p < end1 {
        assert(d1[p] == d1.subrange(i1, end1)[p - i1]);
        assert(d2[q] == d2.subrange(i2, end2)[q - i2]);
        if p + 1 < end1 {
            assert(d1[p + 1] == d1.subrange(i1, end1)[p + 1 - i1]);
            assert(d2[q + 1] == d2.subrange(i2, end2)[q + 1 - i2]);
        }
        lemma_find_byte_shift(d1, i1, end1, d2, i2, end2, LT, if p + 1 <= end1 { p + 1 } else { end1 });
        if d1[p] == LT && p + 1 < end1 {
            lemma_find_byte_shift(d1, i1, end1, d2, i2, end2, GT, p + 1);
            if p + 2 <= end1 {
                lemma_find_byte_shift(d1, i1, end1, d2, i2, end2, GT, p + 2);
            }
            lemma_matches_within_shift(d1, i1, end1, d2, i2, end2, comment_open(), p);
            lemma_matches_within_shift(d1, i1, end1, d2, i2, end2, cdata_open(), p);
            if p + 4 <= end1 {
                lemma_find_pat_shift(d1, i1, end1, d2, i2, end2, comment_close(), p + 4);
            }
            if p + 9 <= end1 {
                lemma_find_pat_shift(d1, i1, end1, d2, i2, end2, cdata_close(), p + 9);
            }
            if p + 2 <= end1 {
                lemma_find_pat_shift(d1, i1, end1, d2, i2, end2, pi_close(), p + 2);
            }
            if d1[p + 1] == SLASH {
                if let Some(g) = find_byte(d1, GT, p + 2, end1) {
                    lemma_find_byte(d1, GT, p + 2, end1);
                    lemma_find_ws_shift(d1, i1, end1, d2, i2, end2, p + 2);
                    lemma_find_ws_at(d1, i1, end1, d2, i2, end2, p + 2, g);
                }
            } else if d1[p + 1] != BANG && d1[p + 1] != QUESTION {
                if let Some(g) = find_byte(d1, GT, p + 1, end1) {
                    lemma_find_byte(d1, GT, p + 1, end1);
                    if g > p + 1 {
                        assert(d1[g - 1] == d1.subrange(i1, end1)[g - 1 - i1]);
                        assert(d2[g - 1 - i1 + i2] == d2.subrange(i2, end2)[g - 1 - i1]);
                        lemma_find_ws_at(d1, i1, end1, d2, i2, end2, p + 1, g - 1);
                    }
                    lemma_find_ws_at(d1, i1, end1, d2, i2, end2, p + 1, g);
                }
            }
        }
    }
}

/// Helper: a name-end computation within a region shifts with it.
pub proof fn lemma_find_ws_at(d1: Seq<u8>, i1: int, end1: int, d2: Seq<u8>, i2: int, end2: int, lo: int, cap: int)
    requires
        regions_eq(d1, i1, end1, d2, i2, end2),
        i1 <= lo <= end1,
        lo <= cap <= end1,
    ensures
        name_end(d1, lo, cap) == name_end(d2, lo - i1 + i2, cap - i1 + i2) + i1 - i2,
    decreases cap - lo,
{
    if lo < cap {
        assert(d1[lo] == d1.subrange(i1, end1)[lo - i1]);
        assert(d2[lo - i1 + i2] == d2.subrange(i2, end2)[lo - i1]);
        if !is_ws(d1[lo]) {
            lemma_find_ws_at(d1, i1, end1, d2, i2, end2, lo + 1, cap);
        }
    }
}

/// Pinning a byte search: the first position holding the byte is the
/// search's result.
pub proof fn lemma_find_byte_is(d: Seq<u8>, b: u8, i: int, end: int, j: int)
    requires
        0 <= i <= j < end <= d.len(),
        d[j] == b,
        forall|k: int| i <= k < j ==> d[k] != b,
    ensures
        find_byte(d, b, i, end) == Some(j),
    decreases j - i,
{
    if i < j {
        lemma_find_byte_is(d, b, i + 1, end, j);
    }
}

/// Pinning a failed byte search.
pub proof fn lemma_find_byte_none(d: Seq<u8>, b: u8, i: int, end: int)
    requires
        0 <= i <= end <= d.len(),
        forall|k: int| i <= k < end ==> d[k] != b,
    ensures
        find_byte(d, b, i, end) is None,
    decreases end - i,
{
    if i < end {
        lemma_find_byte_none(d, b, i + 1, end);
    }
}

/// Pinning a pattern search by its first match.
pub proof fn lemma_find_pat_is(d: Seq<u8>, pat: Seq<u8>, i: int, end: int, j: int)
    requires
        0 <= i <= j,
        end <= d.len(),
        matches_within(d, pat, j, end),
        j < end,
        forall|k: int| i <= k < j ==> !matches_within(d, pat, k, end),
    ensures
        find_pat(d, pat, i, end) == Some(j),
    decreases j - i,
{
    if i < j {
        assert(!matches_within(d, pat, i, end));
        lemma_find_pat_is(d, pat, i + 1, end, j);
    }
}

/// Pinning a whitespace search that finds nothing.
pub proof fn lemma_find_ws_none(d: Seq<u8>, i: int, end: int)
    requires
        0 <= i <= end <= d.len(),
        forall|k: int| i <= k < end ==> !is_ws(d[k]),
    ensures
        find_ws(d, i, end) is None,
    decreases end - i,
{
    if i < end {
        lemma_find_ws_none(d, i + 1, end);
    }
}

/// Pinning a whitespace search by its first hit.
pub proof fn lemma_find_ws_is(d: Seq<u8>, i: int, end: int, j: int)
    requires
        0 <= i <= j < end <= d.len(),
        is_ws(d[j]),
        forall|k: int| i <= k < j ==> !is_ws(d[k]),
    ensures
        find_ws(d, i, end) == Some(j),
    decreases j - i,
{
    if i < j {
        lemma_find_ws_is(d, i + 1, end, j);
    }
}

/// A found byte search is unmoved by lengthening the span.
pub proof fn lemma_find_byte_extend(d: Seq<u8>, b: u8, i: int, end1: int, end2: int)
    requires
        0 <= i <= end1 <= end2 <= d.len(),
        find_byte(d, b, i, end1) is Some,
    ensures
        find_byte(d, b, i, end2) == find_byte(d, b, i, end1),
    decreases end1 - i,
{
    if i < end1 && d[i] != b {
        lemma_find_byte_extend(d, b, i + 1, end1, end2);
    }
}

/// A found pattern search is unmoved by lengthening the span.
pub proof fn lemma_find_pat_extend(d: Seq<u8>, pat: Seq<u8>, i: int, end1: int, end2: int)
    requires
        0 <= i <= end1 <= end2 <= d.len(),
        find_pat(d, pat, i, end1) is Some,
    ensures
        find_pat(d, pat, i, end2) == find_pat(d, pat, i, end1),
    decreases end1 - i,
{
    if i < end1 && i + pat.len() <= end1 && d.subrange(i, i + pat.len() as int) != pat {
        lemma_find_pat_extend(d, pat, i + 1, end1, end2);
    }
}

/// A token that ends inside the span is the same token in any longer span,
/// as long as the byte at the old boundary opens markup — so that a text
/// run cannot silently continue across it.
pub proof fn lemma_token_extend(d: Seq<u8>, i: int, end1: int, end2: int)
    requires
        0 <= i <= end1 <= end2 <= d.len(),
        !(spec_token(d, i, end1) is Bad),
        !(spec_token(d, i, end1) is Eof),
        end1 < end2 ==> d[end1] == LT,
    ensures
        spec_token(d, i, end2) == spec_token(d, i, end1),
{
    if end1 == end2 {
        return ;
    }
    lemma_token_bounds(d, i, end1);
    if d[i] != LT {
        match find_byte(d, LT, i + 1, end1) {
            Some(j) => {
                lemma_find_byte_extend(d, LT, i + 1, end1, end2);
            },
            None => {
                lemma_find_byte(d, LT, i + 1, end1);
                lemma_find_byte_is(d, LT, i + 1, end2, end1);
            },
        }
    } else {
        let b1 = d[i + 1];
        if b1 == SLASH {
            lemma_find_byte_extend(d, GT, i + 2, end1, end2);
        } else if b1 == BANG {
            if matches_within(d, comment_open(), i, end1) {
                assert(matches_within(d, comment_open(), i, end2)) by {
                    assert(d.subrange(i, i + 4) == comment_open());
                }
                lemma_find_pat_extend(d, comment_close(), i + 4, end1, end2);
            } else if matches_within(d, cdata_open(), i, end1) {
                assert(matches_within(d, cdata_open(), i, end2)) by {
                    assert(d.subrange(i, i + 9) == cdata_open());
                }
                assert(!matches_within(d, comment_open(), i, end2)) by {
                    if matches_within(d, comment_open(), i, end2) {
                        assert(d.subrange(i, i + 4)[2] == comment_open()[2]);
                        assert(d.subrange(i, i + 9)[2] == cdata_open()[2]);
                        assert(d[i + 2] == 45u8 && d[i + 2] == 91u8);
                    }
                }
                lemma_find_pat_extend(d, cdata_close(), i + 9, end1, end2);
            } else {
                // The generic form: its `>` lies inside the short span, so
                // neither longer opening pattern can match there either —
                // any byte of those patterns that would sit at or past the
                // old boundary would have to be `<`, which none of their
                // bytes is.
                lemma_find_byte(d, GT, i + 2, end1);
                lemma_find_byte_extend(d, GT, i + 2, end1, end2);
                assert(!matches_within(d, comment_open(), i, end2)) by {
                    if matches_within(d, comment_open(), i, end2) {
                        if i + 4 <= end1 {
                            assert(matches_within(d, comment_open(), i, end1));
                        } else {
                            let k = end1 - i;
                            assert(d.subrange(i, i + 4)[k] == comment_open()[k]);
                            assert(d[end1] == comment_open()[k]);
                        }
                    }
                }
                assert(!matches_within(d, cdata_open(), i, end2)) by {
                    if matches_within(d, cdata_open(), i, end2) {
                        if i + 9 <= end1 {
                            assert(matches_within(d, cdata_open(), i, end1));
                        } else {
                            let k = end1 - i;
                            assert(d.subrange(i, i + 9)[k] == cdata_open()[k]);
                            assert(d[end1] == cdata_open()[k]);
                        }
                    }
                }
            }
        } else if b1 == QUESTION {
            lemma_find_pat_extend(d, pi_close(), i + 2, end1, end2);
        } else {
            lemma_find_byte_extend(d, GT, i + 1, end1, end2);
        }
    }
}

/// Pinning the token of a well-formed opening tag: `<` at `i`, the first
/// `>` at `g`, no `/` before the `>`, and the name running to the first
/// whitespace byte `nh`.
pub proof fn lemma_start_tag_token(d: Seq<u8>, i: int, g: int, end: int, nh: int)
    requires
        0 <= i,
        i + 1 < g < end <= d.len(),
        d[i] == LT,
        d[i + 1] != SLASH && d[i + 1] != BANG && d[i + 1] != QUESTION && d[i + 1] != LT,
        d[g] == GT,
        forall|k: int| i + 1 <= k < g ==> d[k] != GT,
        d[g - 1] != SLASH,
        i + 1 <= nh <= g,
        forall|k: int| i + 1 <= k < nh ==> !is_ws(#[trigger] d[k]),
        nh < g ==> is_ws(d[nh]),
    ensures
        spec_token(d, i, end) == (SpecToken::Start { name_lo: i + 1, name_hi: nh, next: g + 1 }),
{
    lemma_find_byte_is(d, GT, i + 1, end, g);
    if nh < g {
        lemma_find_ws_is(d, i + 1, g, nh);
    } else {
        lemma_find_ws_none(d, i + 1, g);
    }
}

/// Pinning the token of a well-formed closing tag `</name>` whose name
/// holds neither whitespace nor `>`.
pub proof fn lemma_end_tag_token(d: Seq<u8>, i: int, g: int, end: int)
    requires
        0 <= i,
        i + 2 <= g < end <= d.len(),
        d[i] == LT,
        d[i + 1] == SLASH,
        d[g] == GT,
        forall|k: int| i + 2 <= k < g ==> d[k] != GT && !is_ws(#[trigger] d[k]),
    ensures
        spec_token(d, i, end) == (SpecToken::End { name_lo: i + 2, name_hi: g, next: g + 1 }),
{
    lemma_find_byte_is(d, GT, i + 2, end, g);
    lemma_find_ws_none(d, i + 2, g);
}

/// Pinning the token of a processing instruction or XML declaration:
/// `<?` at `i` and the first `?>` at `p`.
pub proof fn lemma_pi_token(d: Seq<u8>, i: int, p: int, end: int)
    requires
        0 <= i,
        i + 2 <= p,
        p + 2 <= end <= d.len(),
        d[i] == LT,
        d[i + 1] == QUESTION,
        d[p] == QUESTION,
        d[p + 1] == GT,
        forall|k: int| i + 2 <= k < p ==> d[k] != QUESTION,
    ensures
        spec_token(d, i, end) == (SpecToken::Misc { next: p + 2 }),
{
    assert(matches_within(d, pi_close(), p, end)) by {
        assert(d.subrange(p, p + 2) =~= pi_close());
    }
    assert(forall|k: int| i + 2 <= k < p ==> !matches_within(d, pi_close(), k, end)) by {
        assert forall|k: int| i + 2 <= k < p implies !matches_within(d, pi_close(), k, end) by {
            if matches_within(d, pi_close(), k, end) {
                assert(d.subrange(k, k + 2)[0] == pi_close()[0]);
            }
        }
    }
    lemma_find_pat_is(d, pi_close(), i + 2, end, p);
}

} // verus!
