//! The span reader: a cursor over a borrowed byte buffer.
//!
//! A reader is scoped to an exact byte range of one immutable document.
//! It can locate a descendant element by local tag name while skipping all
//! other content, carve out the exact byte span of an element's contents as
//! a child reader scoped to a strict sub-range, and decode its own full span
//! to text. Child readers index into the same buffer; no bytes are copied
//! until a span is decoded.

use crate::xml;
use crate::xml::SpecToken;
use crate::xml::Token;
use crate::Error;
use vstd::prelude::*;

verus! {

use vstd::utf8::decode_utf8;
use vstd::utf8::valid_utf8;

/// Relies on `String::from_utf8` from std: it succeeds exactly when the
/// input is valid UTF-8, and then returns the decoded characters.
#[verifier::external_body]
pub(crate) fn string_from_utf8(bytes: Vec<u8>) -> (r: Result<String, ()>)
    ensures
        r matches Ok(s) ==> valid_utf8(bytes@) && s@ == decode_utf8(bytes@),
        r is Err ==> !valid_utf8(bytes@),
{
    String::from_utf8(bytes).map_err(|_| ())
}

/// Copies the bytes `d[lo .. hi)` into an owned vector.
pub fn span_to_vec(d: &[u8], lo: usize, hi: usize) -> (v: Vec<u8>)
    requires
        lo <= hi <= d@.len(),
    ensures
        v@ == d@.subrange(lo as int, hi as int),
{
    vstd::slice::slice_to_vec(vstd::slice::slice_subrange(d, lo, hi))
}

/// Decodes the bytes `d[lo .. hi)` as text, failing when they are not valid
/// under the document encoding.
pub fn decode_span(d: &[u8], lo: usize, hi: usize) -> (r: Result<String, Error>)
    requires
        lo <= hi <= d@.len(),
    ensures
        valid_utf8(d@.subrange(lo as int, hi as int)) ==> (r matches Ok(s) && s@ == decode_utf8(
            d@.subrange(lo as int, hi as int),
        )),
        !valid_utf8(d@.subrange(lo as int, hi as int)) ==> r matches Err(Error::Xml),
{
    match string_from_utf8(span_to_vec(d, lo, hi)) {
        Ok(s) => Ok(s),
        Err(_) => Err(Error::Xml),
    }
}

/// Where the element whose start tag has just been read ends: scans tokens
/// from `i`, counting starts and ends that carry exactly the qualified name
/// `name`, and yields `(content_end, after)` — the index of the matching end
/// tag and the index just past it. `None` means the end tag is missing or
/// the markup is malformed.
pub open spec fn spec_scan_end(
    d: Seq<u8>,
    i: int,
    end: int,
    name: Seq<u8>,
    depth: nat,
) -> Option<(int, int)>
    decreases end - i,
{
    if !(0 <= i && i <= end && end <= d.len()) {
        None
    } else {
        proof {
            xml::lemma_token_bounds(d, i, end);
        }
        match xml::spec_token(d, i, end) {
            SpecToken::Eof => None,
            SpecToken::Bad => None,
            SpecToken::Start { name_lo, name_hi, next } => {
                if d.subrange(name_lo, name_hi) == name {
                    spec_scan_end(d, next, end, name, depth + 1)
                } else {
                    spec_scan_end(d, next, end, name, depth)
                }
            },
            SpecToken::End { name_lo, name_hi, next } => {
                if d.subrange(name_lo, name_hi) == name {
                    if depth == 0 {
                        Some((i, next))
                    } else {
                        spec_scan_end(d, next, end, name, (depth - 1) as nat)
                    }
                } else {
                    spec_scan_end(d, next, end, name, depth)
                }
            },
            SpecToken::SelfClosed { next, .. } => spec_scan_end(d, next, end, name, depth),
            SpecToken::Text { next } => spec_scan_end(d, next, end, name, depth),
            SpecToken::Misc { next } => spec_scan_end(d, next, end, name, depth),
        }
    }
}

/// A successful end scan stays inside the span and moves forward.
pub proof fn lemma_scan_end_bounds(d: Seq<u8>, i: int, end: int, name: Seq<u8>, depth: nat)
    requires
        0 <= i <= end <= d.len(),
    ensures
        match spec_scan_end(d, i, end, name, depth) {
            Some(r) => i <= r.0 && r.0 < r.1 && r.1 <= end,
            None => true,
        },
    decreases end - i,
{
    xml::lemma_token_bounds(d, i, end);
    match xml::spec_token(d, i, end) {
        SpecToken::Start { name_lo, name_hi, next } => {
            if d.subrange(name_lo, name_hi) == name {
                lemma_scan_end_bounds(d, next, end, name, depth + 1);
            } else {
                lemma_scan_end_bounds(d, next, end, name, depth);
            }
        },
        SpecToken::End { name_lo, name_hi, next } => {
            if d.subrange(name_lo, name_hi) == name {
                if depth != 0 {
                    lemma_scan_end_bounds(d, next, end, name, (depth - 1) as nat);
                }
            } else {
                lemma_scan_end_bounds(d, next, end, name, depth);
            }
        },
        SpecToken::SelfClosed { next, .. } => {
            lemma_scan_end_bounds(d, next, end, name, depth);
        },
        SpecToken::Text { next } => {
            lemma_scan_end_bounds(d, next, end, name, depth);
        },
        SpecToken::Misc { next } => {
            lemma_scan_end_bounds(d, next, end, name, depth);
        },
        _ => {},
    }
}

/// Executable end scan, proved against [`spec_scan_end`]. The tag name is
/// given as the byte span `name_lo .. name_hi` of the document itself.
pub fn scan_end(d: &[u8], i: usize, end: usize, name_lo: usize, name_hi: usize) -> (r: Option<
    (usize, usize),
>)
    requires
        i <= end <= d@.len(),
        name_lo <= name_hi <= d@.len(),
    ensures
        match r {
            Some(p) => spec_scan_end(
                d@,
                i as int,
                end as int,
                d@.subrange(name_lo as int, name_hi as int),
                0,
            ) == Some((p.0 as int, p.1 as int)) && i <= p.0 && p.0 < p.1 && p.1 <= end,
            None => spec_scan_end(
                d@,
                i as int,
                end as int,
                d@.subrange(name_lo as int, name_hi as int),
                0,
            ) is None,
        },
{
    let ghost gname = d@.subrange(name_lo as int, name_hi as int);
    let pat: &[u8] = vstd::slice::slice_subrange(d, name_lo, name_hi);
    let mut pos: usize = i;
    let mut depth: usize = 0;
    loop
        invariant
            i <= pos <= end <= d@.len(),
            name_lo <= name_hi <= d@.len(),
            pat@ == gname,
            gname == d@.subrange(name_lo as int, name_hi as int),
            2 * (depth as int) <= pos - i,
            spec_scan_end(d@, i as int, end as int, gname, 0) == spec_scan_end(
                d@,
                pos as int,
                end as int,
                gname,
                depth as nat,
            ),
        decreases end - pos,
    {
        proof {
            xml::lemma_token_bounds(d@, pos as int, end as int);
        }
        match xml::next_token(d, pos, end) {
            Token::Eof => {
                return None;
            },
            Token::Bad => {
                return None;
            },
            Token::Start { name_lo: nl, name_hi: nh, next } => {
                if xml::range_eq(d, nl, nh, pat) {
                    depth = depth + 1;
                }
                pos = next;
            },
            Token::End { name_lo: nl, name_hi: nh, next } => {
                if xml::range_eq(d, nl, nh, pat) {
                    if depth == 0 {
                        proof {
                            lemma_scan_end_bounds(d@, i as int, end as int, gname, 0);
                        }
                        return Some((pos, next));
                    }
                    depth = depth - 1;
                }
                pos = next;
            },
            Token::SelfClosed { next, .. } => {
                pos = next;
            },
            Token::Text { next } => {
                pos = next;
            },
            Token::Misc { next } => {
                pos = next;
            },
        }
    }
}

/// Result of searching a span for a descendant element with a given local
/// name: `Ok(Some((content_lo, content_hi, after)))` when found — the
/// content span of the element and the position just past its end tag;
/// `Ok(None)` when the span is exhausted first; `Err` on malformed markup.
pub open spec fn spec_locate(d: Seq<u8>, i: int, end: int, local: Seq<u8>) -> Result<
    Option<(int, int, int)>,
    (),
>
    decreases end - i,
{
    if !(0 <= i && i <= end && end <= d.len()) {
        Err(())
    } else {
        proof {
            xml::lemma_token_bounds(d, i, end);
        }
        match xml::spec_token(d, i, end) {
            SpecToken::Eof => Ok(None),
            SpecToken::Bad => Err(()),
            SpecToken::Start { name_lo, name_hi, next } => {
                if xml::local_name(d, name_lo, name_hi) == local {
                    match spec_scan_end(d, next, end, d.subrange(name_lo, name_hi), 0) {
                        None => Err(()),
                        Some(p) => Ok(Some((next, p.0, p.1))),
                    }
                } else {
                    spec_locate(d, next, end, local)
                }
            },
            SpecToken::End { next, .. } => spec_locate(d, next, end, local),
            SpecToken::SelfClosed { next, .. } => spec_locate(d, next, end, local),
            SpecToken::Text { next } => spec_locate(d, next, end, local),
            SpecToken::Misc { next } => spec_locate(d, next, end, local),
        }
    }
}

/// A successful search yields a content span strictly inside `i .. end`.
pub proof fn lemma_locate_bounds(d: Seq<u8>, i: int, end: int, local: Seq<u8>)
    requires
        0 <= i <= end <= d.len(),
    ensures
        match spec_locate(d, i, end, local) {
            Ok(Some(p)) => i < p.0 && p.0 <= p.1 && p.1 < p.2 && p.2 <= end,
            _ => true,
        },
    decreases end - i,
{
    xml::lemma_token_bounds(d, i, end);
    match xml::spec_token(d, i, end) {
        SpecToken::Start { name_lo, name_hi, next } => {
            if xml::local_name(d, name_lo, name_hi) == local {
                lemma_scan_end_bounds(d, next, end, d.subrange(name_lo, name_hi), 0);
            } else {
                lemma_locate_bounds(d, next, end, local);
            }
        },
        SpecToken::End { next, .. } => {
            lemma_locate_bounds(d, next, end, local);
        },
        SpecToken::SelfClosed { next, .. } => {
            lemma_locate_bounds(d, next, end, local);
        },
        SpecToken::Text { next } => {
            lemma_locate_bounds(d, next, end, local);
        },
        SpecToken::Misc { next } => {
            lemma_locate_bounds(d, next, end, local);
        },
        _ => {},
    }
}

/// The next direct or nested child element from `i`:
/// `Ok(Some((name_lo, name_hi, content_lo, content_hi, after)))`.
pub open spec fn spec_next_child(d: Seq<u8>, i: int, end: int) -> Result<
    Option<(int, int, int, int, int)>,
    (),
>
    decreases end - i,
{
    if !(0 <= i && i <= end && end <= d.len()) {
        Err(())
    } else {
        proof {
            xml::lemma_token_bounds(d, i, end);
        }
        match xml::spec_token(d, i, end) {
            SpecToken::Eof => Ok(None),
            SpecToken::Bad => Err(()),
            SpecToken::Start { name_lo, name_hi, next } => {
                match spec_scan_end(d, next, end, d.subrange(name_lo, name_hi), 0) {
                    None => Err(()),
                    Some(p) => Ok(Some((name_lo, name_hi, next, p.0, p.1))),
                }
            },
            SpecToken::End { next, .. } => spec_next_child(d, next, end),
            SpecToken::SelfClosed { next, .. } => spec_next_child(d, next, end),
            SpecToken::Text { next } => spec_next_child(d, next, end),
            SpecToken::Misc { next } => spec_next_child(d, next, end),
        }
    }
}

/// A found child lies strictly inside `i .. end` and moves the scan forward.
pub proof fn lemma_next_child_bounds(d: Seq<u8>, i: int, end: int)
    requires
        0 <= i <= end <= d.len(),
    ensures
        match spec_next_child(d, i, end) {
            Ok(Some(p)) => i < p.0 && p.0 <= p.1 && p.1 < p.2 && p.2 <= p.3 && p.3 < p.4 && p.4
                <= end,
            _ => true,
        },
    decreases end - i,
{
    xml::lemma_token_bounds(d, i, end);
    match xml::spec_token(d, i, end) {
        SpecToken::Start { name_lo, name_hi, next } => {
            lemma_scan_end_bounds(d, next, end, d.subrange(name_lo, name_hi), 0);
        },
        SpecToken::End { next, .. } => {
            lemma_next_child_bounds(d, next, end);
        },
        SpecToken::SelfClosed { next, .. } => {
            lemma_next_child_bounds(d, next, end);
        },
        SpecToken::Text { next } => {
            lemma_next_child_bounds(d, next, end);
        },
        SpecToken::Misc { next } => {
            lemma_next_child_bounds(d, next, end);
        },
        _ => {},
    }
}

/// A cursor scoped to the byte range `start .. end` of one document, with a
/// current read position `pos` inside that range.
pub struct TargetedReader {
    /// Start of the span this reader is scoped to.
    pub start: usize,
    /// Current read position within the span.
    pub pos: usize,
    /// Exclusive end of the span.
    pub end: usize,
}

impl TargetedReader {
    /// The reader indexes only inside the document.
    pub open spec fn wf(self, d: Seq<u8>) -> bool {
        self.start <= self.pos <= self.end <= d.len()
    }

    /// The full span this reader is scoped to.
    pub open spec fn span(self, d: Seq<u8>) -> Seq<u8> {
        d.subrange(self.start as int, self.end as int)
    }

    /// A reader over the whole document.
    pub fn from_bytes(d: &[u8]) -> (r: TargetedReader)
        ensures
            r.start == 0 && r.pos == 0 && r.end == d@.len(),
            r.wf(d@),
    {
        TargetedReader { start: 0, pos: 0, end: d.len() }
    }

    /// Advances until an opening tag whose local name equals `local` is
    /// found at any depth, and returns a child reader scoped to exactly the
    /// bytes of that element's contents. Returns `Ok(None)` — a normal
    /// outcome, not a failure — when the span ends first, and `Err` on
    /// malformed markup.
    pub fn maybe_get_subreader_for_tag(&mut self, d: &[u8], local: &[u8]) -> (r: Result<
        Option<TargetedReader>,
        Error,
    >)
        requires
            old(self).wf(d@),
        ensures
            final(self).start == old(self).start && final(self).end == old(self).end,
            final(self).wf(d@),
            match spec_locate(d@, old(self).pos as int, old(self).end as int, local@) {
                Err(()) => r matches Err(Error::Xml),
                Ok(None) => r matches Ok(None),
                Ok(Some(p)) => r matches Ok(Some(sub)) && sub.start == p.0 && sub.pos == p.0
                    && sub.end == p.1 && final(self).pos == p.2 && sub.wf(d@),
            },
    {
        let end = self.end;
        loop
            invariant
                self.start <= self.pos <= end <= d@.len(),
                self.end == end,
                end == old(self).end,
                self.start == old(self).start,
                spec_locate(d@, old(self).pos as int, end as int, local@) == spec_locate(
                    d@,
                    self.pos as int,
                    end as int,
                    local@,
                ),
            decreases end - self.pos,
        {
            proof {
                xml::lemma_token_bounds(d@, self.pos as int, end as int);
            }
            match xml::next_token(d, self.pos, end) {
                Token::Eof => {
                    return Ok(None);
                },
                Token::Bad => {
                    return Err(Error::Xml);
                },
                Token::Start { name_lo, name_hi, next } => {
                    if xml::local_name_eq(d, name_lo, name_hi, local) {
                        match scan_end(d, next, end, name_lo, name_hi) {
                            None => {
                                return Err(Error::Xml);
                            },
                            Some(p) => {
                                self.pos = p.1;
                                return Ok(
                                    Some(TargetedReader { start: next, pos: next, end: p.0 }),
                                );
                            },
                        }
                    }
                    self.pos = next;
                },
                Token::End { next, .. } => {
                    self.pos = next;
                },
                Token::SelfClosed { next, .. } => {
                    self.pos = next;
                },
                Token::Text { next } => {
                    self.pos = next;
                },
                Token::Misc { next } => {
                    self.pos = next;
                },
            }
        }
    }

    /// Returns the next opening tag at any depth, as its local name bytes
    /// paired with a child reader scoped to the element's contents.
    /// `Ok(None)` means the span is exhausted.
    pub fn maybe_get_next_subreader(&mut self, d: &[u8]) -> (r: Result<
        Option<(Vec<u8>, TargetedReader)>,
        Error,
    >)
        requires
            old(self).wf(d@),
        ensures
            final(self).start == old(self).start && final(self).end == old(self).end,
            final(self).wf(d@),
            match spec_next_child(d@, old(self).pos as int, old(self).end as int) {
                Err(()) => r matches Err(Error::Xml),
                Ok(None) => r matches Ok(None),
                Ok(Some(p)) => r matches Ok(Some(c)) && c.0@ == xml::local_name(d@, p.0, p.1) && c.1.start
                    == p.2 && c.1.pos == p.2 && c.1.end == p.3 && final(self).pos == p.4
                    && c.1.wf(d@),
            },
    {
        let end = self.end;
        loop
            invariant
                self.start <= self.pos <= end <= d@.len(),
                self.end == end,
                end == old(self).end,
                self.start == old(self).start,
                spec_next_child(d@, old(self).pos as int, end as int) == spec_next_child(
                    d@,
                    self.pos as int,
                    end as int,
                ),
            decreases end - self.pos,
        {
            proof {
                xml::lemma_token_bounds(d@, self.pos as int, end as int);
            }
            match xml::next_token(d, self.pos, end) {
                Token::Eof => {
                    return Ok(None);
                },
                Token::Bad => {
                    return Err(Error::Xml);
                },
                Token::Start { name_lo, name_hi, next } => {
                    match scan_end(d, next, end, name_lo, name_hi) {
                        None => {
                            return Err(Error::Xml);
                        },
                        Some(p) => {
                            let ll = xml::local_lo_from(d, name_lo, name_hi);
                            let name = span_to_vec(d, ll, name_hi);
                            self.pos = p.1;
                            return Ok(
                                Some((name, TargetedReader { start: next, pos: next, end: p.0 })),
                            );
                        },
                    }
                },
                Token::End { next, .. } => {
                    self.pos = next;
                },
                Token::SelfClosed { next, .. } => {
                    self.pos = next;
                },
                Token::Text { next } => {
                    self.pos = next;
                },
                Token::Misc { next } => {
                    self.pos = next;
                },
            }
        }
    }

    /// Decodes the reader's whole span — not just the part left to read — as
    /// text, failing when the bytes are not valid under the document
    /// encoding.
    pub fn to_string(&self, d: &[u8]) -> (r: Result<String, Error>)
        requires
            self.wf(d@),
        ensures
            valid_utf8(self.span(d@)) ==> (r matches Ok(s) && s@ == decode_utf8(self.span(d@))),
            !valid_utf8(self.span(d@)) ==> r matches Err(Error::Xml),
    {
        decode_span(d, self.start, self.end)
    }
}

/// Like [`spec_locate`], but keeping the found element's tag: yields
/// `Ok(Some((name_lo, name_hi, content_lo, content_hi, after)))`, so a
/// caller can also read the tag's attribute region
/// `name_hi .. content_lo - 1`.
pub open spec fn spec_locate_tag(d: Seq<u8>, i: int, end: int, local: Seq<u8>) -> Result<
    Option<(int, int, int, int, int)>,
    (),
>
    decreases end - i,
{
    if !(0 <= i && i <= end && end <= d.len()) {
        Err(())
    } else {
        proof {
            xml::lemma_token_bounds(d, i, end);
        }
        match xml::spec_token(d, i, end) {
            SpecToken::Eof => Ok(None),
            SpecToken::Bad => Err(()),
            SpecToken::Start { name_lo, name_hi, next } => {
                if xml::local_name(d, name_lo, name_hi) == local {
                    match spec_scan_end(d, next, end, d.subrange(name_lo, name_hi), 0) {
                        None => Err(()),
                        Some(p) => Ok(Some((name_lo, name_hi, next, p.0, p.1))),
                    }
                } else {
                    spec_locate_tag(d, next, end, local)
                }
            },
            SpecToken::End { next, .. } => spec_locate_tag(d, next, end, local),
            SpecToken::SelfClosed { next, .. } => spec_locate_tag(d, next, end, local),
            SpecToken::Text { next } => spec_locate_tag(d, next, end, local),
            SpecToken::Misc { next } => spec_locate_tag(d, next, end, local),
        }
    }
}

/// A found tagged element lies strictly inside `i .. end`.
pub proof fn lemma_locate_tag_bounds(d: Seq<u8>, i: int, end: int, local: Seq<u8>)
    requires
        0 <= i <= end <= d.len(),
    ensures
        match spec_locate_tag(d, i, end, local) {
            Ok(Some(p)) => i < p.0 && p.0 <= p.1 && p.1 < p.2 && p.2 <= p.3 && p.3 < p.4 && p.4
                <= end,
            _ => true,
        },
    decreases end - i,
{
    xml::lemma_token_bounds(d, i, end);
    match xml::spec_token(d, i, end) {
        SpecToken::Start { name_lo, name_hi, next } => {
            if xml::local_name(d, name_lo, name_hi) == local {
                lemma_scan_end_bounds(d, next, end, d.subrange(name_lo, name_hi), 0);
            } else {
                lemma_locate_tag_bounds(d, next, end, local);
            }
        },
        SpecToken::End { next, .. } => {
            lemma_locate_tag_bounds(d, next, end, local);
        },
        SpecToken::SelfClosed { next, .. } => {
            lemma_locate_tag_bounds(d, next, end, local);
        },
        SpecToken::Text { next } => {
            lemma_locate_tag_bounds(d, next, end, local);
        },
        SpecToken::Misc { next } => {
            lemma_locate_tag_bounds(d, next, end, local);
        },
        _ => {},
    }
}

impl TargetedReader {
    /// Like [`TargetedReader::maybe_get_subreader_for_tag`], but also
    /// returning the attribute region `attr_lo .. attr_hi` of the matched
    /// opening tag.
    pub fn maybe_get_tagged_subreader(&mut self, d: &[u8], local: &[u8]) -> (r: Result<
        Option<(usize, usize, TargetedReader)>,
        Error,
    >)
        requires
            old(self).wf(d@),
        ensures
            final(self).start == old(self).start && final(self).end == old(self).end,
            final(self).wf(d@),
            match spec_locate_tag(d@, old(self).pos as int, old(self).end as int, local@) {
                Err(()) => r matches Err(Error::Xml),
                Ok(None) => r matches Ok(None),
                Ok(Some(p)) => r matches Ok(Some(c)) && c.0 == p.1 && c.1 + 1 == p.2 && c.2.start
                    == p.2 && c.2.pos == p.2 && c.2.end == p.3 && final(self).pos == p.4
                    && c.2.wf(d@) && c.1 <= d@.len(),
            },
    {
        let end = self.end;
        loop
            invariant
                self.start <= self.pos <= end <= d@.len(),
                self.end == end,
                end == old(self).end,
                self.start == old(self).start,
                spec_locate_tag(d@, old(self).pos as int, end as int, local@) == spec_locate_tag(
                    d@,
                    self.pos as int,
                    end as int,
                    local@,
                ),
            decreases end - self.pos,
        {
            proof {
                xml::lemma_token_bounds(d@, self.pos as int, end as int);
            }
            match xml::next_token(d, self.pos, end) {
                Token::Eof => {
                    return Ok(None);
                },
                Token::Bad => {
                    return Err(Error::Xml);
                },
                Token::Start { name_lo, name_hi, next } => {
                    if xml::local_name_eq(d, name_lo, name_hi, local) {
                        match scan_end(d, next, end, name_lo, name_hi) {
                            None => {
                                return Err(Error::Xml);
                            },
                            Some(p) => {
                                self.pos = p.1;
                                return Ok(
                                    Some(
                                        (
                                            name_hi,
                                            next - 1,
                                            TargetedReader { start: next, pos: next, end: p.0 },
                                        ),
                                    ),
                                );
                            },
                        }
                    }
                    self.pos = next;
                },
                Token::End { next, .. } => {
                    self.pos = next;
                },
                Token::SelfClosed { next, .. } => {
                    self.pos = next;
                },
                Token::Text { next } => {
                    self.pos = next;
                },
                Token::Misc { next } => {
                    self.pos = next;
                },
            }
        }
    }
}

} // verus!
