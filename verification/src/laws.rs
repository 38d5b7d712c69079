//! Crate-wide laws: properties that tie the envelope operations together,
//! stated over the same specification functions the operations' own
//! contracts use.

use crate::operations::XmlDeserialize;
use crate::reader;
use crate::soap;
use crate::xml;
use crate::soap::Envelope;
use crate::Error;
use vstd::prelude::*;

verus! {

use crate::emit;
use crate::xml::nm;
use vstd::utf8::is_ascii_chars;

/// Fault precedence: whenever the probe finds a well-formed fault in a
/// document, every result the decode contract admits for that document is
/// exactly that fault — never a typed-decode outcome, and in particular
/// never a deserialization error. The typed decode is unreachable while a
/// fault is present.
pub proof fn lemma_fault_precedence<B: XmlDeserialize>(
    d: Seq<u8>,
    fv: soap::FaultView,
    r: Result<Envelope<B>, Error>,
)
    requires
        soap::spec_decode_result::<B>(d, r),
        soap::spec_extract(d) == Ok::<Option<soap::FaultView>, soap::ExtractFail>(Some(fv)),
    ensures
        r matches Err(Error::RequestFault(f)) && f@ == fv,
        !(r matches Err(Error::Deserialize)),
{
}

/// The local names that the fault reading recognizes as its own fields.
pub open spec fn recognized_fault_child(name: Seq<u8>) -> bool {
    name == nm("faultcode") || name == nm("faultstring") || name == nm("faultactor") || name
        == nm("detail")
}

/// The local names that the detail reading recognizes as its own fields.
pub open spec fn recognized_detail_child(name: Seq<u8>) -> bool {
    name == nm("ResponseCode") || name == nm("Message") || name == nm("MessageXml")
}

/// Unknown-element tolerance inside `Fault`: a document whose fault element
/// shows an unrecognized child decodes exactly as if reading had begun just
/// past that child — the unknown sibling neither aborts the decode nor
/// touches any field, whatever has been read so far and whatever follows.
pub proof fn lemma_fault_unknown_child_ignored(
    d: Seq<u8>,
    i: int,
    end: int,
    acc: soap::FaultAcc,
    p: (int, int, int, int, int),
)
    requires
        0 <= i <= end <= d.len(),
        reader::spec_next_child(d, i, end) == Ok::<Option<(int, int, int, int, int)>, ()>(
            Some(p),
        ),
        !recognized_fault_child(xml::local_name(d, p.0, p.1)),
    ensures
        soap::spec_fault_fields(d, i, end, acc) == soap::spec_fault_fields(d, p.4, end, acc),
{
    reader::lemma_next_child_bounds(d, i, end);
}

/// Two detail readings that start from the same position and agree on the
/// recognized fields keep agreeing on them, whatever their catch-all
/// `content` fields hold — provided the whole detail span decodes as text,
/// so that capturing the snapshot cannot itself fail.
pub proof fn lemma_detail_recognized_independent(
    d: Seq<u8>,
    i: int,
    end: int,
    span_lo: int,
    span_hi: int,
    a1: soap::FaultDetailView,
    a2: soap::FaultDetailView,
)
    requires
        0 <= i <= end <= d.len(),
        a1.response_code == a2.response_code,
        a1.message == a2.message,
        a1.message_xml == a2.message_xml,
        soap::spec_decode_text(d, span_lo, span_hi) is Some,
    ensures
        match (
            soap::spec_detail_fields(d, i, end, span_lo, span_hi, a1),
            soap::spec_detail_fields(d, i, end, span_lo, span_hi, a2),
        ) {
            (Ok(r1), Ok(r2)) => r1.response_code == r2.response_code && r1.message == r2.message
                && r1.message_xml == r2.message_xml,
            (Err(()), Err(())) => true,
            _ => false,
        },
    decreases end - i,
{
    reader::lemma_next_child_bounds(d, i, end);
    match reader::spec_next_child(d, i, end) {
        Ok(Some(p)) => {
            let name = xml::local_name(d, p.0, p.1);
            if name == nm("ResponseCode") || name == nm("Message") {
                match soap::spec_decode_text(d, p.2, p.3) {
                    Some(s) => {
                        if name == nm("ResponseCode") {
                            lemma_detail_recognized_independent(
                                d,
                                p.4,
                                end,
                                span_lo,
                                span_hi,
                                soap::FaultDetailView { response_code: Some(s), ..a1 },
                                soap::FaultDetailView { response_code: Some(s), ..a2 },
                            );
                        } else {
                            lemma_detail_recognized_independent(
                                d,
                                p.4,
                                end,
                                span_lo,
                                span_hi,
                                soap::FaultDetailView { message: Some(s), ..a1 },
                                soap::FaultDetailView { message: Some(s), ..a2 },
                            );
                        }
                    },
                    None => {},
                }
            } else if name == nm("MessageXml") {
                match soap::spec_message_xml(d, p.2, p.3) {
                    Ok(m) => {
                        lemma_detail_recognized_independent(
                            d,
                            p.4,
                            end,
                            span_lo,
                            span_hi,
                            soap::FaultDetailView { message_xml: Some(m), ..a1 },
                            soap::FaultDetailView { message_xml: Some(m), ..a2 },
                        );
                    },
                    Err(()) => {},
                }
            } else {
                let b1 = if a1.content is None {
                    soap::FaultDetailView {
                        content: Some(soap::spec_decode_text(d, span_lo, span_hi)->0),
                        ..a1
                    }
                } else {
                    a1
                };
                let b2 = if a2.content is None {
                    soap::FaultDetailView {
                        content: Some(soap::spec_decode_text(d, span_lo, span_hi)->0),
                        ..a2
                    }
                } else {
                    a2
                };
                lemma_detail_recognized_independent(d, p.4, end, span_lo, span_hi, b1, b2);
            }
        },
        _ => {},
    }
}

/// Unknown-element tolerance inside `detail`: a document whose detail
/// element shows an unrecognized child yields the same recognized fields —
/// response code, message and diagnostic payload — as if reading had begun
/// just past that child, and fails only when the reading past it fails.
/// Only the catch-all `content` snapshot may differ, which is its purpose.
/// The detail span itself must decode as text; a span that does not is
/// rejected either way once a snapshot is attempted.
pub proof fn lemma_detail_unknown_child_tolerated(
    d: Seq<u8>,
    i: int,
    end: int,
    span_lo: int,
    span_hi: int,
    acc: soap::FaultDetailView,
    p: (int, int, int, int, int),
)
    requires
        0 <= i <= end <= d.len(),
        reader::spec_next_child(d, i, end) == Ok::<Option<(int, int, int, int, int)>, ()>(
            Some(p),
        ),
        !recognized_detail_child(xml::local_name(d, p.0, p.1)),
        soap::spec_decode_text(d, span_lo, span_hi) is Some,
    ensures
        match (
            soap::spec_detail_fields(d, i, end, span_lo, span_hi, acc),
            soap::spec_detail_fields(d, p.4, end, span_lo, span_hi, acc),
        ) {
            (Ok(r1), Ok(r2)) => r1.response_code == r2.response_code && r1.message == r2.message
                && r1.message_xml == r2.message_xml,
            (Err(()), Err(())) => true,
            _ => false,
        },
{
    reader::lemma_next_child_bounds(d, i, end);
    if acc.content is None {
        let acc2 = soap::FaultDetailView {
            content: Some(soap::spec_decode_text(d, span_lo, span_hi)->0),
            ..acc
        };
        lemma_detail_recognized_independent(d, p.4, end, span_lo, span_hi, acc2, acc);
    }
}

/// A position `i` of the retry-hint scan holds a back-off candidate: an
/// opening `Value` tag carrying the `Name="BackOffMilliseconds"` attribute.
pub open spec fn backoff_candidate(d: Seq<u8>, i: int, end: int) -> bool {
    match xml::spec_token(d, i, end) {
        xml::SpecToken::Start { name_lo, name_hi, next } => xml::local_name(d, name_lo, name_hi)
            == nm("Value") && xml::spec_has_attr(
            d,
            name_hi,
            next - 1,
            nm("Name"),
            nm("BackOffMilliseconds"),
        ),
        _ => false,
    }
}

/// The tokens from `i` up to exactly `j` are well formed and none of them
/// is a back-off candidate: the retry-hint scan walks straight through
/// them. The chain is indifferent to element structure — starts, ends,
/// text and markup of any nesting all qualify.
pub open spec fn benign_tokens(d: Seq<u8>, i: int, j: int, end: int) -> bool
    decreases j - i,
{
    if !(0 <= i <= j <= end <= d.len()) {
        false
    } else if i == j {
        true
    } else {
        proof {
            xml::lemma_token_bounds(d, i, end);
        }
        match xml::spec_token(d, i, end) {
            xml::SpecToken::Eof => false,
            xml::SpecToken::Bad => false,
            xml::SpecToken::Start { next, .. } => !backoff_candidate(d, i, end) && next <= j
                && benign_tokens(d, next, j, end),
            xml::SpecToken::End { next, .. } => next <= j && benign_tokens(d, next, j, end),
            xml::SpecToken::SelfClosed { next, .. } => next <= j && benign_tokens(
                d,
                next,
                j,
                end,
            ),
            xml::SpecToken::Text { next } => next <= j && benign_tokens(d, next, j, end),
            xml::SpecToken::Misc { next } => next <= j && benign_tokens(d, next, j, end),
        }
    }
}

/// The retry-hint scan ignores benign tokens: scanning from `i` and
/// scanning from `j` are the same whenever the tokens between them are
/// benign. In particular the scan is indifferent to how deeply the
/// remaining content is nested.
pub proof fn lemma_backoff_skips_benign(d: Seq<u8>, i: int, j: int, end: int)
    requires
        benign_tokens(d, i, j, end),
    ensures
        soap::spec_backoff(d, i, end) == soap::spec_backoff(d, j, end),
    decreases j - i,
{
    if i != j {
        xml::lemma_token_bounds(d, i, end);
        match xml::spec_token(d, i, end) {
            xml::SpecToken::Start { next, .. } => {
                lemma_backoff_skips_benign(d, next, j, end);
            },
            xml::SpecToken::End { next, .. } => {
                lemma_backoff_skips_benign(d, next, j, end);
            },
            xml::SpecToken::SelfClosed { next, .. } => {
                lemma_backoff_skips_benign(d, next, j, end);
            },
            xml::SpecToken::Text { next } => {
                lemma_backoff_skips_benign(d, next, j, end);
            },
            xml::SpecToken::Misc { next } => {
                lemma_backoff_skips_benign(d, next, j, end);
            },
            _ => {},
        }
    }
}

/// Back-off scan depth-independence: a well-formed back-off hint is found
/// wherever it sits in the span. However deeply the `Value` element is
/// nested — under one, two, three or any number of enclosing elements,
/// which all pass by as benign tokens — the scan yields exactly its value,
/// as long as no earlier token is itself a candidate.
pub proof fn lemma_backoff_depth_independent(
    d: Seq<u8>,
    lo: int,
    i: int,
    end: int,
    v: usize,
    content_end: int,
    after: int,
)
    requires
        benign_tokens(d, lo, i, end),
        backoff_candidate(d, i, end),
        match xml::spec_token(d, i, end) {
            xml::SpecToken::Start { name_lo, name_hi, next } => reader::spec_scan_end(
                d,
                next,
                end,
                d.subrange(name_lo, name_hi),
                0,
            ) == Some((content_end, after)) && soap::spec_decode_text(d, next, content_end)
                is Some && xml::spec_parse_usize(d, next, content_end) == Some(v),
            _ => false,
        },
    ensures
        soap::spec_backoff(d, lo, end) == Ok::<Option<usize>, ()>(Some(v)),
{
    lemma_backoff_skips_benign(d, lo, i, end);
    xml::lemma_token_bounds(d, i, end);
}

/// The bytes that the fault probe walks through in an encoded document's
/// body content must be complete tokens, and none of them may open or
/// close an element that the probe itself looks for: no tag named like the
/// root or body wrappers, and no opening tag whose local name is `Fault`.
/// Every payload this crate serializes renders escaped text and elements
/// under its own names, which satisfy this.
pub open spec fn content_tokens_ok(d: Seq<u8>, i: int, j: int) -> bool
    decreases j - i,
{
    if !(0 <= i <= j <= d.len()) {
        false
    } else if i == j {
        true
    } else {
        proof {
            xml::lemma_token_bounds(d, i, j);
        }
        match xml::spec_token(d, i, j) {
            xml::SpecToken::Eof => false,
            xml::SpecToken::Bad => false,
            xml::SpecToken::Start { name_lo, name_hi, next } => {
                &&& d.subrange(name_lo, name_hi) != nm("soap:Envelope")
                &&& d.subrange(name_lo, name_hi) != nm("soap:Body")
                &&& xml::local_name(d, name_lo, name_hi) != nm("Fault")
                &&& next <= j
                &&& content_tokens_ok(d, next, j)
            },
            xml::SpecToken::End { name_lo, name_hi, next } => {
                &&& d.subrange(name_lo, name_hi) != nm("soap:Envelope")
                &&& d.subrange(name_lo, name_hi) != nm("soap:Body")
                &&& next <= j
                &&& content_tokens_ok(d, next, j)
            },
            xml::SpecToken::SelfClosed { next, .. } => next <= j && content_tokens_ok(d, next, j),
            xml::SpecToken::Text { next } => next <= j && content_tokens_ok(d, next, j),
            xml::SpecToken::Misc { next } => next <= j && content_tokens_ok(d, next, j),
        }
    }
}

/// Sound body content, stated of the content bytes on their own.
pub open spec fn content_ok(c: Seq<u8>) -> bool {
    content_tokens_ok(c, 0, c.len() as int)
}

/// Sound content stays sound wherever the bytes stand in a document.
#[verifier::rlimit(60)]
pub proof fn lemma_content_ok_shift(c: Seq<u8>, d: Seq<u8>, lo: int, p: int)
    requires
        content_tokens_ok(c, p - lo, c.len() as int),
        0 <= lo <= p,
        lo + c.len() <= d.len(),
        d.subrange(lo, lo + c.len() as int) == c,
    ensures
        content_tokens_ok(d, p, lo + c.len() as int),
    decreases c.len() + lo - p,
{
    let j = lo + c.len() as int;
    let q = p - lo;
    assert(c.subrange(0, c.len() as int) =~= c);
    xml::lemma_token_shift(d, lo, j, c, 0, c.len() as int, p);
    if p < j {
        xml::lemma_token_bounds(c, q, c.len() as int);
        match xml::spec_token(c, q, c.len() as int) {
            xml::SpecToken::Start { name_lo, name_hi, next } => {
                assert(d.subrange(name_lo + lo, name_hi + lo) =~= c.subrange(name_lo, name_hi))
                    by {
                    assert(forall|k: int|
                        0 <= k < name_hi - name_lo ==> #[trigger] d.subrange(
                            name_lo + lo,
                            name_hi + lo,
                        )[k] == d.subrange(lo, j)[name_lo + k]);
                }
                xml::lemma_find_byte_shift(
                    d,
                    name_lo + lo,
                    name_hi + lo,
                    c,
                    name_lo,
                    name_hi,
                    xml::COLON,
                    name_lo + lo,
                );
                let ll = xml::local_lo(c, name_lo, name_hi);
                assert(xml::local_lo(d, name_lo + lo, name_hi + lo) == ll + lo);
                xml::lemma_find_byte(c, xml::COLON, name_lo, name_hi);
                assert(xml::local_name(d, name_lo + lo, name_hi + lo) =~= xml::local_name(
                    c,
                    name_lo,
                    name_hi,
                )) by {
                    assert(forall|k: int|
                        0 <= k < name_hi - ll ==> #[trigger] d.subrange(
                            ll + lo,
                            name_hi + lo,
                        )[k] == d.subrange(lo, j)[ll + k]);
                }
                lemma_content_ok_shift(c, d, lo, next + lo);
            },
            xml::SpecToken::End { name_lo, name_hi, next } => {
                assert(d.subrange(name_lo + lo, name_hi + lo) =~= c.subrange(name_lo, name_hi))
                    by {
                    assert(forall|k: int|
                        0 <= k < name_hi - name_lo ==> #[trigger] d.subrange(
                            name_lo + lo,
                            name_hi + lo,
                        )[k] == d.subrange(lo, j)[name_lo + k]);
                }
                lemma_content_ok_shift(c, d, lo, next + lo);
            },
            xml::SpecToken::SelfClosed { next, .. } => {
                lemma_content_ok_shift(c, d, lo, next + lo);
            },
            xml::SpecToken::Text { next } => {
                lemma_content_ok_shift(c, d, lo, next + lo);
            },
            xml::SpecToken::Misc { next } => {
                lemma_content_ok_shift(c, d, lo, next + lo);
            },
            _ => {},
        }
    }
}

/// An element-end scan passes straight over sound content when it is
/// looking for one of the names that sound content never carries.
pub proof fn lemma_scan_end_through(d: Seq<u8>, i: int, j: int, end2: int, q: Seq<u8>, depth: nat)
    requires
        content_tokens_ok(d, i, j),
        j <= end2 <= d.len(),
        j < end2 ==> d[j] == xml::LT,
        q == nm("soap:Envelope") || q == nm("soap:Body"),
    ensures
        reader::spec_scan_end(d, i, end2, q, depth) == reader::spec_scan_end(d, j, end2, q, depth),
    decreases j - i,
{
    if i != j {
        xml::lemma_token_bounds(d, i, j);
        xml::lemma_token_extend(d, i, j, end2);
        match xml::spec_token(d, i, j) {
            xml::SpecToken::Start { next, .. } => {
                lemma_scan_end_through(d, next, j, end2, q, depth);
            },
            xml::SpecToken::End { next, .. } => {
                lemma_scan_end_through(d, next, j, end2, q, depth);
            },
            xml::SpecToken::SelfClosed { next, .. } => {
                lemma_scan_end_through(d, next, j, end2, q, depth);
            },
            xml::SpecToken::Text { next } => {
                lemma_scan_end_through(d, next, j, end2, q, depth);
            },
            xml::SpecToken::Misc { next } => {
                lemma_scan_end_through(d, next, j, end2, q, depth);
            },
            _ => {},
        }
    }
}

/// A search for a fault element over sound content alone finds nothing —
/// and that is a normal outcome, not an error.
pub proof fn lemma_locate_fault_none(d: Seq<u8>, i: int, j: int)
    requires
        content_tokens_ok(d, i, j),
    ensures
        reader::spec_locate(d, i, j, nm("Fault")) == Ok::<Option<(int, int, int)>, ()>(None),
    decreases j - i,
{
    if i != j {
        xml::lemma_token_bounds(d, i, j);
        match xml::spec_token(d, i, j) {
            xml::SpecToken::Start { next, .. } => {
                lemma_locate_fault_none(d, next, j);
            },
            xml::SpecToken::End { next, .. } => {
                lemma_locate_fault_none(d, next, j);
            },
            xml::SpecToken::SelfClosed { next, .. } => {
                lemma_locate_fault_none(d, next, j);
            },
            xml::SpecToken::Text { next } => {
                lemma_locate_fault_none(d, next, j);
            },
            xml::SpecToken::Misc { next } => {
                lemma_locate_fault_none(d, next, j);
            },
            _ => {},
        }
    }
}

/// Byte facts of the XML declaration the encoder writes: it opens `<?`,
/// closes `?>` at its end, and holds no other question mark.
pub proof fn lemma_decl_facts()
    ensures
        nm("<?xml version=\"1.0\" encoding=\"utf-8\"?>").len() == 38,
        nm("<?xml version=\"1.0\" encoding=\"utf-8\"?>")[0] == xml::LT,
        nm("<?xml version=\"1.0\" encoding=\"utf-8\"?>")[1] == xml::QUESTION,
        nm("<?xml version=\"1.0\" encoding=\"utf-8\"?>")[36] == xml::QUESTION,
        nm("<?xml version=\"1.0\" encoding=\"utf-8\"?>")[37] == xml::GT,
        forall|k: int|
            2 <= k < 36 ==> #[trigger] nm("<?xml version=\"1.0\" encoding=\"utf-8\"?>")[k]
                != xml::QUESTION,
{
    reveal_strlit("<?xml version=\"1.0\" encoding=\"utf-8\"?>");
    assert(is_ascii_chars("<?xml version=\"1.0\" encoding=\"utf-8\"?>"@));
    vstd::utf8::is_ascii_chars_encode_utf8("<?xml version=\"1.0\" encoding=\"utf-8\"?>"@);
}

/// Byte facts of the root element's qualified name.
pub proof fn lemma_env_name_facts()
    ensures
        nm("soap:Envelope").len() == 13,
        nm("Envelope").len() == 8,
        nm("soap:Envelope")[0] == 115,
        forall|k: int|
            0 <= k < 13 ==> !xml::is_ws(#[trigger] nm("soap:Envelope")[k]) && nm(
                "soap:Envelope",
            )[k] != xml::GT,
        nm("soap:Envelope")[4] == xml::COLON,
        forall|k: int| 0 <= k < 4 ==> #[trigger] nm("soap:Envelope")[k] != xml::COLON,
        nm("soap:Envelope").subrange(5, 13) == nm("Envelope"),
{
    reveal_strlit("soap:Envelope");
    reveal_strlit("Envelope");
    assert(is_ascii_chars("soap:Envelope"@));
    assert(is_ascii_chars("Envelope"@));
    vstd::utf8::is_ascii_chars_encode_utf8("soap:Envelope"@);
    vstd::utf8::is_ascii_chars_encode_utf8("Envelope"@);
    assert(nm("soap:Envelope").subrange(5, 13) =~= nm("Envelope"));
}

/// Byte facts of the body element's qualified name.
pub proof fn lemma_body_tag_facts()
    ensures
        nm("soap:Body").len() == 9,
        nm("Body").len() == 4,
        nm("soap:Body")[0] == 115,
        nm("soap:Body")[8] == 121,
        forall|k: int|
            0 <= k < 9 ==> !xml::is_ws(#[trigger] nm("soap:Body")[k]) && nm("soap:Body")[k]
                != xml::GT,
        nm("soap:Body")[4] == xml::COLON,
        forall|k: int| 0 <= k < 4 ==> #[trigger] nm("soap:Body")[k] != xml::COLON,
        nm("soap:Body").subrange(5, 9) == nm("Body"),
{
    reveal_strlit("soap:Body");
    reveal_strlit("Body");
    assert(is_ascii_chars("soap:Body"@));
    assert(is_ascii_chars("Body"@));
    vstd::utf8::is_ascii_chars_encode_utf8("soap:Body"@);
    vstd::utf8::is_ascii_chars_encode_utf8("Body"@);
    assert(nm("soap:Body").subrange(5, 9) =~= nm("Body"));
}

/// The entity replacements never contain an angle bracket of either kind.
pub proof fn lemma_entity_facts()
    ensures
        forall|k: int|
            0 <= k < nm("&amp;").len() ==> #[trigger] nm("&amp;")[k] != xml::GT && nm("&amp;")[k]
                != xml::LT,
        forall|k: int|
            0 <= k < nm("&lt;").len() ==> #[trigger] nm("&lt;")[k] != xml::GT && nm("&lt;")[k]
                != xml::LT,
        forall|k: int|
            0 <= k < nm("&gt;").len() ==> #[trigger] nm("&gt;")[k] != xml::GT && nm("&gt;")[k]
                != xml::LT,
        forall|k: int|
            0 <= k < nm("&quot;").len() ==> #[trigger] nm("&quot;")[k] != xml::GT && nm(
                "&quot;",
            )[k] != xml::LT,
        forall|k: int|
            0 <= k < nm("&apos;").len() ==> #[trigger] nm("&apos;")[k] != xml::GT && nm(
                "&apos;",
            )[k] != xml::LT,
{
    reveal_strlit("&amp;");
    reveal_strlit("&lt;");
    reveal_strlit("&gt;");
    reveal_strlit("&quot;");
    reveal_strlit("&apos;");
    assert(is_ascii_chars("&amp;"@));
    assert(is_ascii_chars("&lt;"@));
    assert(is_ascii_chars("&gt;"@));
    assert(is_ascii_chars("&quot;"@));
    assert(is_ascii_chars("&apos;"@));
    vstd::utf8::is_ascii_chars_encode_utf8("&amp;"@);
    vstd::utf8::is_ascii_chars_encode_utf8("&lt;"@);
    vstd::utf8::is_ascii_chars_encode_utf8("&gt;"@);
    vstd::utf8::is_ascii_chars_encode_utf8("&quot;"@);
    vstd::utf8::is_ascii_chars_encode_utf8("&apos;"@);
}

/// An escaped attribute value never contains a closing angle bracket: the
/// bracket itself is replaced, and no replacement carries one.
pub proof fn lemma_escape_attr_no_gt(bs: Seq<u8>)
    ensures
        forall|k: int|
            0 <= k < emit::escape_attr(bs).len() ==> #[trigger] emit::escape_attr(bs)[k]
                != xml::GT,
    decreases bs.len(),
{
    lemma_entity_facts();
    if bs.len() > 0 {
        lemma_escape_attr_no_gt(bs.drop_last());
        assert(emit::escape_attr(bs) == emit::escape_attr(bs.drop_last())
            + emit::escape_attr_byte(bs.last()));
    }
}

/// One rendered attribute never contains a closing angle bracket when its
/// name has none, begins with a space, and ends with its closing quote.
pub proof fn lemma_attr_str_facts(name: &str, v: Seq<char>)
    requires
        forall|k: int| 0 <= k < nm(name).len() ==> #[trigger] nm(name)[k] != xml::GT,
    ensures
        emit::attr_str(name, v).len() >= 4,
        emit::attr_str(name, v)[0] == 32,
        xml::is_ws(emit::attr_str(name, v)[0]),
        emit::attr_str(name, v).last() == xml::DQUOTE,
        forall|k: int|
            0 <= k < emit::attr_str(name, v).len() ==> #[trigger] emit::attr_str(name, v)[k]
                != xml::GT,
{
    lemma_escape_attr_no_gt(vstd::utf8::encode_utf8(v));
    assert(emit::attr_str(name, v).last() == xml::DQUOTE) by {
        let a = emit::attr_str(name, v);
        assert(a == seq![32u8] + nm(name) + seq![xml::EQUALS, xml::DQUOTE] + emit::escape_attr(
            vstd::utf8::encode_utf8(v),
        ) + seq![xml::DQUOTE]);
    }
}

/// The rendered root attributes begin with a space, end with a quote, and
/// hold no closing angle bracket.
pub proof fn lemma_envelope_attrs_facts()
    ensures
        soap::spec_envelope_attrs().len() >= 10,
        xml::is_ws(soap::spec_envelope_attrs()[0]),
        soap::spec_envelope_attrs().last() == xml::DQUOTE,
        soap::spec_envelope_attrs().last() != xml::SLASH,
        forall|k: int|
            0 <= k < soap::spec_envelope_attrs().len() ==> #[trigger] soap::spec_envelope_attrs()[k]
                != xml::GT,
{
    reveal_strlit("xmlns:soap");
    reveal_strlit("xmlns:t");
    assert(is_ascii_chars("xmlns:soap"@));
    assert(is_ascii_chars("xmlns:t"@));
    vstd::utf8::is_ascii_chars_encode_utf8("xmlns:soap"@);
    vstd::utf8::is_ascii_chars_encode_utf8("xmlns:t"@);
    lemma_attr_str_facts("xmlns:soap", crate::common::SOAP_NS_URI@);
    lemma_attr_str_facts("xmlns:t", crate::common::TYPES_NS_URI@);
    let a1 = emit::attr_str("xmlns:soap", crate::common::SOAP_NS_URI@);
    let a2 = emit::attr_str("xmlns:t", crate::common::TYPES_NS_URI@);
    assert(soap::spec_envelope_attrs() == a1 + a2);
    assert(soap::spec_envelope_attrs()[0] == a1[0]);
    assert(soap::spec_envelope_attrs().last() == a2.last());
}

/// Start of the root element's content in an encoded document.
pub open spec fn doc_e0() -> int {
    53 + soap::spec_envelope_attrs().len() as int
}

/// Start of the body element's content in an encoded document.
pub open spec fn doc_b0(attrs: Seq<u8>) -> int {
    doc_e0() + 11 + attrs.len()
}

/// End of the body element's content in an encoded document.
pub open spec fn doc_j(attrs: Seq<u8>, children: Seq<u8>) -> int {
    doc_b0(attrs) + children.len()
}

/// Where every piece of an encoded document lies: the declaration, the
/// root tag with its two namespace attributes, the body tag with the
/// payload's attributes, the payload children, and the two closing tags.
#[verifier::rlimit(100)]
pub proof fn lemma_doc_layout(attrs: Seq<u8>, children: Seq<u8>)
    requires
        children.len() > 0,
    ensures
        ({
            let d = soap::spec_document(attrs, children);
            let ea = soap::spec_envelope_attrs();
            let e0 = doc_e0();
            let b0 = doc_b0(attrs);
            let j = doc_j(attrs, children);
            let g2 = e0 + 10 + attrs.len();
            &&& d.len() == j + 28
            &&& d.subrange(0, 38) == nm("<?xml version=\"1.0\" encoding=\"utf-8\"?>")
            &&& d[38] == xml::LT
            &&& d.subrange(39, 52) == nm("soap:Envelope")
            &&& d.subrange(52, 52 + ea.len() as int) == ea
            &&& d[52 + ea.len() as int] == xml::GT
            &&& d[e0] == xml::LT
            &&& d.subrange(e0 + 1, e0 + 10) == nm("soap:Body")
            &&& d.subrange(e0 + 10, g2) == attrs
            &&& d[g2] == xml::GT
            &&& d.subrange(b0, j) == children
            &&& d[j] == xml::LT
            &&& d[j + 1] == xml::SLASH
            &&& d.subrange(j + 2, j + 11) == nm("soap:Body")
            &&& d[j + 11] == xml::GT
            &&& d[j + 12] == xml::LT
            &&& d[j + 13] == xml::SLASH
            &&& d.subrange(j + 14, j + 27) == nm("soap:Envelope")
            &&& d[j + 27] == xml::GT
        }),
{
    lemma_decl_facts();
    lemma_env_name_facts();
    lemma_body_tag_facts();
    let dcl = nm("<?xml version=\"1.0\" encoding=\"utf-8\"?>");
    let ea = soap::spec_envelope_attrs();
    let env_n = nm("soap:Envelope");
    let body_n = nm("soap:Body");
    let d = soap::spec_document(attrs, children);
    let st = emit::start_tag("soap:Envelope", ea);
    let bs = emit::start_tag("soap:Body", attrs);
    let bet = emit::end_tag("soap:Body");
    let et = emit::end_tag("soap:Envelope");
    let e0 = doc_e0();
    let b0 = doc_b0(attrs);
    let j = doc_j(attrs, children);
    let g2 = e0 + 10 + attrs.len() as int;
    assert(emit::elem("soap:Body", attrs, children) == bs + children + bet);
    assert(d =~= dcl + st + bs + children + bet + et);
    assert(st =~= seq![xml::LT] + env_n + ea + seq![xml::GT]);
    assert(bs =~= seq![xml::LT] + body_n + attrs + seq![xml::GT]);
    assert(bet =~= seq![xml::LT, xml::SLASH] + body_n + seq![xml::GT]);
    assert(et =~= seq![xml::LT, xml::SLASH] + env_n + seq![xml::GT]);
    assert(st.len() == 15 + ea.len());
    assert(bs.len() == 11 + attrs.len());
    assert(bet.len() == 12);
    assert(et.len() == 16);
    assert(d.len() == j + 28);
    assert(d.subrange(0, 38) =~= dcl);
    assert(d[38] == st[0]);
    assert(d.subrange(39, 52) =~= env_n) by {
        assert(forall|k: int| 0 <= k < 13 ==> #[trigger] d[39 + k] == st[1 + k]);
        assert(forall|k: int| 0 <= k < 13 ==> #[trigger] st[1 + k] == env_n[k]);
    }
    assert(d.subrange(52, 52 + ea.len() as int) =~= ea) by {
        assert(forall|k: int| 0 <= k < ea.len() ==> #[trigger] d[52 + k] == st[14 + k]);
        assert(forall|k: int| 0 <= k < ea.len() ==> #[trigger] st[14 + k] == ea[k]);
    }
    assert(d[52 + ea.len() as int] == st[st.len() - 1]);
    assert(d[e0] == bs[0]);
    assert(d.subrange(e0 + 1, e0 + 10) =~= body_n) by {
        assert(forall|k: int| 0 <= k < 9 ==> #[trigger] d[e0 + 1 + k] == bs[1 + k]);
        assert(forall|k: int| 0 <= k < 9 ==> #[trigger] bs[1 + k] == body_n[k]);
    }
    assert(d.subrange(e0 + 10, g2) =~= attrs) by {
        assert(forall|k: int| 0 <= k < attrs.len() ==> #[trigger] d[e0 + 10 + k] == bs[10 + k]);
        assert(forall|k: int| 0 <= k < attrs.len() ==> #[trigger] bs[10 + k] == attrs[k]);
    }
    assert(d[g2] == bs[bs.len() - 1]);
    assert(d.subrange(b0, j) =~= children) by {
        assert(forall|k: int| 0 <= k < children.len() ==> #[trigger] d[b0 + k] == children[k]);
    }
    assert(d[j] == bet[0]);
    assert(d[j + 1] == bet[1]);
    assert(d.subrange(j + 2, j + 11) =~= body_n) by {
        assert(forall|k: int| 0 <= k < 9 ==> #[trigger] d[j + 2 + k] == bet[2 + k]);
        assert(forall|k: int| 0 <= k < 9 ==> #[trigger] bet[2 + k] == body_n[k]);
    }
    assert(d[j + 11] == bet[11]);
    assert(d[j + 12] == et[0]);
    assert(d[j + 13] == et[1]);
    assert(d.subrange(j + 14, j + 27) =~= env_n) by {
        assert(forall|k: int| 0 <= k < 13 ==> #[trigger] d[j + 14 + k] == et[2 + k]);
        assert(forall|k: int| 0 <= k < 13 ==> #[trigger] et[2 + k] == env_n[k]);
    }
    assert(d[j + 27] == et[15]);
}

/// Helper: pointwise consequences of a subrange equality.
proof fn lemma_region_bytes(d: Seq<u8>, lo: int, hi: int, r: Seq<u8>)
    requires
        0 <= lo <= hi <= d.len(),
        d.subrange(lo, hi) == r,
        hi - lo == r.len(),
    ensures
        forall|k: int| lo <= k < hi ==> #[trigger] d[k] == r[k - lo],
{
    assert(forall|k: int| lo <= k < hi ==> #[trigger] d[k] == d.subrange(lo, hi)[k - lo]);
}

/// The five fixed tokens of an encoded document: the declaration, the
/// root and body opening tags, and the two closing tags, each pinned under
/// every span end the probe reads them with.
#[verifier::rlimit(100)]
proof fn lemma_doc_tokens(attrs: Seq<u8>, children: Seq<u8>)
    requires
        attrs.len() > 0 ==> xml::is_ws(attrs[0]),
        attrs.len() > 0 ==> attrs.last() != xml::SLASH,
        forall|k: int| 0 <= k < attrs.len() ==> #[trigger] attrs[k] != xml::GT,
        children.len() > 0,
    ensures
        ({
            let d = soap::spec_document(attrs, children);
            let e0 = doc_e0();
            let b0 = doc_b0(attrs);
            let j = doc_j(attrs, children);
            let ll = d.len() as int;
            &&& ll == j + 28
            &&& d.subrange(b0, j) == children
            &&& d[j] == xml::LT
            &&& xml::spec_token(d, 0, ll) == (xml::SpecToken::Misc { next: 38 })
            &&& xml::spec_token(d, 38, ll) == (xml::SpecToken::Start {
                name_lo: 39,
                name_hi: 52,
                next: e0,
            })
            &&& d.subrange(39, 52) == nm("soap:Envelope")
            &&& xml::local_name(d, 39, 52) == nm("Envelope")
            &&& xml::spec_token(d, e0, ll) == (xml::SpecToken::Start {
                name_lo: e0 + 1,
                name_hi: e0 + 10,
                next: b0,
            })
            &&& xml::spec_token(d, e0, j + 12) == (xml::SpecToken::Start {
                name_lo: e0 + 1,
                name_hi: e0 + 10,
                next: b0,
            })
            &&& d.subrange(e0 + 1, e0 + 10) == nm("soap:Body")
            &&& xml::local_name(d, e0 + 1, e0 + 10) == nm("Body")
            &&& xml::spec_token(d, j, ll) == (xml::SpecToken::End {
                name_lo: j + 2,
                name_hi: j + 11,
                next: j + 12,
            })
            &&& xml::spec_token(d, j, j + 12) == (xml::SpecToken::End {
                name_lo: j + 2,
                name_hi: j + 11,
                next: j + 12,
            })
            &&& d.subrange(j + 2, j + 11) == nm("soap:Body")
            &&& xml::spec_token(d, j + 12, ll) == (xml::SpecToken::End {
                name_lo: j + 14,
                name_hi: j + 27,
                next: j + 28,
            })
            &&& d.subrange(j + 14, j + 27) == nm("soap:Envelope")
        }),
{
    lemma_doc_layout(attrs, children);
    lemma_decl_facts();
    lemma_env_name_facts();
    lemma_body_tag_facts();
    lemma_envelope_attrs_facts();
    let dcl = nm("<?xml version=\"1.0\" encoding=\"utf-8\"?>");
    let env_n = nm("soap:Envelope");
    let body_n = nm("soap:Body");
    let d = soap::spec_document(attrs, children);
    let ea = soap::spec_envelope_attrs();
    let a = ea.len() as int;
    let e0 = doc_e0();
    let b0 = doc_b0(attrs);
    let j = doc_j(attrs, children);
    let g1 = 52 + a;
    let g2 = e0 + 10 + attrs.len() as int;
    let ll = d.len() as int;
    lemma_region_bytes(d, 0, 38, dcl);
    lemma_region_bytes(d, 39, 52, env_n);
    lemma_region_bytes(d, 52, g1, ea);
    lemma_region_bytes(d, e0 + 1, e0 + 10, body_n);
    lemma_region_bytes(d, e0 + 10, g2, attrs);
    lemma_region_bytes(d, j + 2, j + 11, body_n);
    lemma_region_bytes(d, j + 14, j + 27, env_n);
    xml::lemma_pi_token(d, 0, 36, ll);
    assert(forall|k: int| 39 <= k < g1 ==> #[trigger] d[k] != xml::GT);
    assert(d[g1 - 1] != xml::SLASH);
    assert(forall|k: int| 39 <= k < 52 ==> !xml::is_ws(#[trigger] d[k]));
    assert(xml::is_ws(d[52]));
    xml::lemma_start_tag_token(d, 38, g1, ll, 52);
    assert(xml::local_name(d, 39, 52) == nm("Envelope")) by {
        xml::lemma_find_byte_is(d, xml::COLON, 39, 52, 43);
        assert(d.subrange(44, 52) =~= nm("Envelope")) by {
            assert(forall|k: int|
                0 <= k < 8 ==> #[trigger] d.subrange(44, 52)[k] == env_n[5 + k]);
            assert(forall|k: int| 0 <= k < 8 ==> #[trigger] env_n[5 + k] == nm("Envelope")[k]);
        }
    }
    assert(forall|k: int| e0 + 1 <= k < g2 ==> #[trigger] d[k] != xml::GT);
    assert(d[g2 - 1] != xml::SLASH);
    assert(forall|k: int| e0 + 1 <= k < e0 + 10 ==> !xml::is_ws(#[trigger] d[k]));
    assert(e0 + 10 < g2 ==> xml::is_ws(d[e0 + 10]));
    assert(d[e0 + 1] == 115);
    xml::lemma_start_tag_token(d, e0, g2, ll, e0 + 10);
    xml::lemma_start_tag_token(d, e0, g2, j + 12, e0 + 10);
    assert(xml::local_name(d, e0 + 1, e0 + 10) == nm("Body")) by {
        xml::lemma_find_byte_is(d, xml::COLON, e0 + 1, e0 + 10, e0 + 5);
        assert(d.subrange(e0 + 6, e0 + 10) =~= nm("Body")) by {
            assert(forall|k: int|
                0 <= k < 4 ==> #[trigger] d.subrange(e0 + 6, e0 + 10)[k] == body_n[5 + k]);
            assert(forall|k: int| 0 <= k < 4 ==> #[trigger] body_n[5 + k] == nm("Body")[k]);
        }
    }
    assert(forall|k: int|
        j + 2 <= k < j + 11 ==> #[trigger] d[k] != xml::GT && !xml::is_ws(d[k]));
    xml::lemma_end_tag_token(d, j, j + 11, ll);
    xml::lemma_end_tag_token(d, j, j + 11, j + 12);
    assert(forall|k: int|
        j + 14 <= k < j + 27 ==> #[trigger] d[k] != xml::GT && !xml::is_ws(d[k]));
    xml::lemma_end_tag_token(d, j + 12, j + 27, ll);
}

/// Round-trip: encoding a payload and then running the fault probe over
/// the resulting document yields "no fault". The payload's body element
/// may carry any attribute bytes that do not close the tag early and any
/// child content whose tokens are sound in the sense of [`content_ok`] —
/// which everything this crate's serializers emit satisfies, since escaped
/// text and entity replacements never produce a stray tag.
#[verifier::rlimit(100)]
pub proof fn lemma_encode_probe_round_trip(attrs: Seq<u8>, children: Seq<u8>)
    requires
        attrs.len() > 0 ==> xml::is_ws(attrs[0]),
        attrs.len() > 0 ==> attrs.last() != xml::SLASH,
        forall|k: int| 0 <= k < attrs.len() ==> #[trigger] attrs[k] != xml::GT,
        children.len() > 0,
        content_ok(children),
    ensures
        soap::spec_extract(soap::spec_document(attrs, children)) == Ok::<
            Option<soap::FaultView>,
            soap::ExtractFail,
        >(None),
{
    lemma_doc_tokens(attrs, children);
    lemma_env_name_facts();
    lemma_body_tag_facts();
    let env_n = nm("soap:Envelope");
    let body_n = nm("soap:Body");
    let d = soap::spec_document(attrs, children);
    let e0 = doc_e0();
    let b0 = doc_b0(attrs);
    let j = doc_j(attrs, children);
    let ll = d.len() as int;
    assert(children.subrange(0, children.len() as int) =~= children);
    lemma_content_ok_shift(children, d, b0, b0);
    assert(env_n != body_n);
    lemma_scan_end_through(d, b0, j, ll, env_n, 0);
    assert(reader::spec_scan_end(d, j + 12, ll, env_n, 0) == Some((j + 12, j + 28)));
    assert(reader::spec_scan_end(d, j, ll, env_n, 0) == Some((j + 12, j + 28)));
    assert(reader::spec_scan_end(d, e0, ll, env_n, 0) == Some((j + 12, j + 28)));
    assert(reader::spec_locate(d, 38, ll, nm("Envelope")) == Ok::<
        Option<(int, int, int)>,
        (),
    >(Some((e0, j + 12, ll))));
    assert(reader::spec_locate(d, 0, ll, nm("Envelope")) == Ok::<Option<(int, int, int)>, ()>(
        Some((e0, j + 12, ll)),
    ));
    lemma_scan_end_through(d, b0, j, j + 12, body_n, 0);
    assert(reader::spec_scan_end(d, j, j + 12, body_n, 0) == Some((j, j + 12)));
    assert(reader::spec_scan_end(d, b0, j + 12, body_n, 0) == Some((j, j + 12)));
    assert(reader::spec_locate(d, e0, j + 12, nm("Body")) == Ok::<Option<(int, int, int)>, ()>(
        Some((b0, j, j + 12)),
    ));
    lemma_locate_fault_none(d, b0, j);
    assert(soap::spec_extract(d) == Ok::<Option<soap::FaultView>, soap::ExtractFail>(None));
}

/// Markup-free bytes are sound body content: they read as one text run.
/// In particular any escaped text the serializers emit qualifies.
pub proof fn lemma_text_content_ok(c: Seq<u8>)
    requires
        forall|k: int| 0 <= k < c.len() ==> #[trigger] c[k] != xml::LT,
        c.len() > 0,
    ensures
        content_ok(c),
{
    xml::lemma_find_byte_none(c, xml::LT, 1, c.len() as int);
    assert(xml::spec_token(c, 0, c.len() as int) == (xml::SpecToken::Text {
        next: c.len() as int,
    }));
    assert(content_tokens_ok(c, c.len() as int, c.len() as int));
}

/// Joining sound content to sound content keeps it sound, as long as the
/// junction byte opens markup — so a trailing text run cannot silently
/// continue across it.
pub proof fn lemma_content_ok_join(d: Seq<u8>, i: int, m: int, j: int)
    requires
        content_tokens_ok(d, i, m),
        content_tokens_ok(d, m, j),
        m < j ==> d[m] == xml::LT,
    ensures
        content_tokens_ok(d, i, j),
    decreases m - i,
{
    if i < m {
        xml::lemma_token_bounds(d, i, m);
        xml::lemma_token_extend(d, i, m, j);
        match xml::spec_token(d, i, m) {
            xml::SpecToken::Start { next, .. } => {
                lemma_content_ok_join(d, next, m, j);
            },
            xml::SpecToken::End { next, .. } => {
                lemma_content_ok_join(d, next, m, j);
            },
            xml::SpecToken::SelfClosed { next, .. } => {
                lemma_content_ok_join(d, next, m, j);
            },
            xml::SpecToken::Text { next } => {
                lemma_content_ok_join(d, next, m, j);
            },
            xml::SpecToken::Misc { next } => {
                lemma_content_ok_join(d, next, m, j);
            },
            _ => {},
        }
    }
}

/// The facts about an element name under which its rendered element is
/// sound body content: ordinary name bytes, and a name the probe is not
/// looking for.
pub open spec fn elem_name_ok(name: &str) -> bool {
    &&& nm(name).len() > 0
    &&& forall|k: int|
        0 <= k < nm(name).len() ==> !xml::is_ws(#[trigger] nm(name)[k]) && nm(name)[k] != xml::GT
            && nm(name)[k] != xml::LT
    &&& nm(name)[0] != xml::SLASH && nm(name)[0] != xml::BANG && nm(name)[0] != xml::QUESTION
    &&& nm(name).last() != xml::SLASH
    &&& nm(name) != nm("soap:Envelope")
    &&& nm(name) != nm("soap:Body")
    &&& xml::local_name(nm(name), 0, nm(name).len() as int) != nm("Fault")
}

/// A whole rendered element is sound body content: its own tags carry a
/// harmless name, and whatever stands between them is sound in turn.
#[verifier::rlimit(100)]
pub proof fn lemma_elem_content_ok(name: &str, attrs: Seq<u8>, inner: Seq<u8>)
    requires
        elem_name_ok(name),
        attrs.len() > 0 ==> xml::is_ws(attrs[0]),
        attrs.len() > 0 ==> attrs.last() != xml::SLASH,
        forall|k: int| 0 <= k < attrs.len() ==> #[trigger] attrs[k] != xml::GT,
        inner.len() > 0 ==> content_ok(inner),
    ensures
        content_ok(emit::elem(name, attrs, inner)),
        emit::elem(name, attrs, inner)[0] == xml::LT,
        emit::elem(name, attrs, inner).len() > 0,
{
    let n = nm(name);
    let nl = n.len() as int;
    let e = emit::elem(name, attrs, inner);
    let el = e.len() as int;
    let g = 1 + nl + attrs.len() as int;
    if inner.len() == 0 {
        assert(e =~= seq![xml::LT] + n + attrs + seq![xml::SLASH, xml::GT]);
        assert(e.subrange(1, 1 + nl) =~= n);
        assert(e.subrange(1 + nl, g) =~= attrs);
        lemma_region_bytes(e, 1, 1 + nl, n);
        lemma_region_bytes(e, 1 + nl, g, attrs);
        assert(e[g] == xml::SLASH && e[g + 1] == xml::GT);
        assert(forall|k: int| 1 <= k < g + 1 ==> #[trigger] e[k] != xml::GT);
        xml::lemma_find_byte_is(e, xml::GT, 1, el, g + 1);
        assert(xml::spec_token(e, 0, el) == (xml::SpecToken::SelfClosed {
            name_lo: 1,
            name_hi: xml::name_end(e, 1, g),
            next: el,
        }));
        xml::lemma_token_bounds(e, 0, el);
        assert(content_tokens_ok(e, el, el));
    } else {
        assert(e =~= seq![xml::LT] + n + attrs + seq![xml::GT] + inner + (seq![
            xml::LT,
            xml::SLASH,
        ] + n + seq![xml::GT]));
        let p = g + 1 + inner.len() as int;
        assert(e.subrange(1, 1 + nl) =~= n);
        assert(e.subrange(1 + nl, g) =~= attrs);
        assert(e.subrange(g + 1, p) =~= inner);
        assert(e.subrange(p + 2, p + 2 + nl) =~= n);
        lemma_region_bytes(e, 1, 1 + nl, n);
        lemma_region_bytes(e, 1 + nl, g, attrs);
        assert(e[g] == xml::GT);
        lemma_region_bytes(e, g + 1, p, inner);
        assert(e[p] == xml::LT && e[p + 1] == xml::SLASH);
        lemma_region_bytes(e, p + 2, p + 2 + nl, n);
        assert(e[p + 2 + nl] == xml::GT);
        // The opening tag's token.
        assert(forall|k: int| 1 <= k < g ==> #[trigger] e[k] != xml::GT);
        assert(e[g - 1] != xml::SLASH);
        let nh = 1 + nl;
        assert(forall|k: int| 1 <= k < nh ==> !xml::is_ws(#[trigger] e[k]));
        assert(nh < g ==> xml::is_ws(e[nh]));
        xml::lemma_start_tag_token(e, 0, g, el, nh);
        assert(e.subrange(1, nh) == n);
        // Its local name is the name's own local part.
        assert(n.subrange(0, nl) =~= n);
        xml::lemma_find_byte_shift(e, 1, nh, n, 0, nl, xml::COLON, 1);
        let ln = xml::local_lo(n, 0, nl);
        xml::lemma_find_byte(n, xml::COLON, 0, nl);
        assert(xml::local_name(e, 1, nh) =~= xml::local_name(n, 0, nl)) by {
            assert(forall|k: int|
                0 <= k < nh - (ln + 1) ==> #[trigger] e.subrange(ln + 1, nh)[k] == e.subrange(
                    1,
                    nh,
                )[ln + k]);
        }
        // The closing tag's token, read from the end of the content span.
        assert(forall|k: int|
            p + 2 <= k < p + 2 + nl ==> #[trigger] e[k] != xml::GT && !xml::is_ws(e[k]));
        xml::lemma_end_tag_token(e, p, p + 2 + nl, el);
        assert(e.subrange(p + 2, p + 2 + nl) == n);
        assert(content_tokens_ok(e, el, el));
        assert(content_tokens_ok(e, p, el)) by {
            xml::lemma_token_bounds(e, p, el);
        }
        // The content span, standing shifted inside the element.
        assert(inner.subrange(0, inner.len() as int) =~= inner);
        lemma_content_ok_shift(inner, e, g + 1, g + 1);
        lemma_content_ok_join(e, g + 1, p, el);
        // And the opening tag before it all.
        xml::lemma_token_bounds(e, 0, el);
        assert(content_tokens_ok(e, 0, el));
    }
}

/// The element name `ToFolderId` is harmless to the fault probe.
pub proof fn lemma_name_ok_tofolderid()
    ensures
        elem_name_ok("ToFolderId"),
{
    reveal_strlit("ToFolderId");
    reveal_strlit("Fault");
    assert(is_ascii_chars("ToFolderId"@));
    assert(is_ascii_chars("Fault"@));
    vstd::utf8::is_ascii_chars_encode_utf8("ToFolderId"@);
    vstd::utf8::is_ascii_chars_encode_utf8("Fault"@);
    lemma_env_name_facts();
    lemma_body_tag_facts();
    xml::lemma_find_byte_none(nm("ToFolderId"), xml::COLON, 0, 10);
    assert(xml::local_name(nm("ToFolderId"), 0, 10) =~= nm("ToFolderId"));
}

/// The element name `ItemIds` is harmless to the fault probe.
pub proof fn lemma_name_ok_itemids()
    ensures
        elem_name_ok("ItemIds"),
{
    reveal_strlit("ItemIds");
    reveal_strlit("Fault");
    assert(is_ascii_chars("ItemIds"@));
    assert(is_ascii_chars("Fault"@));
    vstd::utf8::is_ascii_chars_encode_utf8("ItemIds"@);
    vstd::utf8::is_ascii_chars_encode_utf8("Fault"@);
    lemma_env_name_facts();
    lemma_body_tag_facts();
    xml::lemma_find_byte_none(nm("ItemIds"), xml::COLON, 0, 7);
    assert(xml::local_name(nm("ItemIds"), 0, 7) =~= nm("ItemIds"));
}

/// The element name `t:FolderId` is harmless to the fault probe.
pub proof fn lemma_name_ok_t_folderid()
    ensures
        elem_name_ok("t:FolderId"),
{
    reveal_strlit("t:FolderId");
    reveal_strlit("Fault");
    assert(is_ascii_chars("t:FolderId"@));
    assert(is_ascii_chars("Fault"@));
    vstd::utf8::is_ascii_chars_encode_utf8("t:FolderId"@);
    vstd::utf8::is_ascii_chars_encode_utf8("Fault"@);
    lemma_env_name_facts();
    lemma_body_tag_facts();
    xml::lemma_find_byte_is(nm("t:FolderId"), xml::COLON, 0, 10, 1);
    assert(xml::local_name(nm("t:FolderId"), 0, 10).len() == 8);
}

/// The element name `t:DistinguishedFolderId` is harmless to the fault probe.
pub proof fn lemma_name_ok_t_distinguishedfolderid()
    ensures
        elem_name_ok("t:DistinguishedFolderId"),
{
    reveal_strlit("t:DistinguishedFolderId");
    reveal_strlit("Fault");
    assert(is_ascii_chars("t:DistinguishedFolderId"@));
    assert(is_ascii_chars("Fault"@));
    vstd::utf8::is_ascii_chars_encode_utf8("t:DistinguishedFolderId"@);
    vstd::utf8::is_ascii_chars_encode_utf8("Fault"@);
    lemma_env_name_facts();
    lemma_body_tag_facts();
    xml::lemma_find_byte_is(nm("t:DistinguishedFolderId"), xml::COLON, 0, 23, 1);
    assert(xml::local_name(nm("t:DistinguishedFolderId"), 0, 23).len() == 21);
}

/// The element name `t:ItemId` is harmless to the fault probe.
pub proof fn lemma_name_ok_t_itemid()
    ensures
        elem_name_ok("t:ItemId"),
{
    reveal_strlit("t:ItemId");
    reveal_strlit("Fault");
    assert(is_ascii_chars("t:ItemId"@));
    assert(is_ascii_chars("Fault"@));
    vstd::utf8::is_ascii_chars_encode_utf8("t:ItemId"@);
    vstd::utf8::is_ascii_chars_encode_utf8("Fault"@);
    lemma_env_name_facts();
    lemma_body_tag_facts();
    xml::lemma_find_byte_is(nm("t:ItemId"), xml::COLON, 0, 8, 1);
    assert(xml::local_name(nm("t:ItemId"), 0, 8).len() == 6);
}

/// The attribute names the move request writes carry no closing bracket.
pub proof fn lemma_attr_name_facts()
    ensures
        forall|k: int| 0 <= k < nm("xmlns").len() ==> #[trigger] nm("xmlns")[k] != xml::GT,
        forall|k: int| 0 <= k < nm("Id").len() ==> #[trigger] nm("Id")[k] != xml::GT,
        forall|k: int| 0 <= k < nm("ChangeKey").len() ==> #[trigger] nm("ChangeKey")[k] != xml::GT,
{
    reveal_strlit("xmlns");
    reveal_strlit("Id");
    reveal_strlit("ChangeKey");
    assert(is_ascii_chars("xmlns"@));
    assert(is_ascii_chars("Id"@));
    assert(is_ascii_chars("ChangeKey"@));
    vstd::utf8::is_ascii_chars_encode_utf8("xmlns"@);
    vstd::utf8::is_ascii_chars_encode_utf8("Id"@);
    vstd::utf8::is_ascii_chars_encode_utf8("ChangeKey"@);
}

/// Concatenating sound content stays sound when the second part opens with
/// markup or is empty.
pub proof fn lemma_content_ok_concat(c1: Seq<u8>, c2: Seq<u8>)
    requires
        content_ok(c1),
        content_ok(c2),
        c2.len() > 0 ==> c2[0] == xml::LT,
    ensures
        content_ok(c1 + c2),
{
    let d = c1 + c2;
    if c2.len() == 0 {
        assert(d =~= c1);
    } else {
        assert(d.subrange(0, c1.len() as int) =~= c1);
        assert(d.subrange(c1.len() as int, d.len() as int) =~= c2);
        assert(c1.subrange(0, c1.len() as int) =~= c1);
        assert(c2.subrange(0, c2.len() as int) =~= c2);
        lemma_content_ok_shift(c1, d, 0, 0);
        lemma_content_ok_shift(c2, d, c1.len() as int, c1.len() as int);
        assert(d[c1.len() as int] == c2[0]);
        lemma_content_ok_join(d, 0, c1.len() as int, d.len() as int);
    }
}

/// The identifier attributes of a folder reference are sound tag
/// attributes.
pub proof fn lemma_folder_id_attrs_ok(f: crate::common::FolderId)
    ensures
        f.spec_id_attrs().len() > 0,
        xml::is_ws(f.spec_id_attrs()[0]),
        f.spec_id_attrs().last() != xml::SLASH,
        forall|k: int| 0 <= k < f.spec_id_attrs().len() ==> #[trigger] f.spec_id_attrs()[k]
            != xml::GT,
{
    lemma_attr_name_facts();
    lemma_attr_str_facts("Id", f.id@);
    let a1 = emit::attr_str("Id", f.id@);
    match f.change_key {
        Some(ck) => {
            lemma_attr_str_facts("ChangeKey", ck@);
            let a2 = emit::attr_str("ChangeKey", ck@);
            assert(f.spec_id_attrs() == a1 + a2);
            assert(f.spec_id_attrs()[0] == a1[0]);
            assert(f.spec_id_attrs().last() == a2.last());
        },
        None => {
            assert(f.spec_id_attrs() =~= a1);
        },
    }
}

/// A rendered folder reference is sound body content.
pub proof fn lemma_folder_id_elem_ok(f: crate::common::BaseFolderId)
    ensures
        content_ok(f.spec_elem()),
        f.spec_elem().len() > 0,
        f.spec_elem()[0] == xml::LT,
{
    match f {
        crate::common::BaseFolderId::FolderId(inner) => {
            lemma_name_ok_t_folderid();
            lemma_folder_id_attrs_ok(inner);
            lemma_elem_content_ok("t:FolderId", inner.spec_id_attrs(), Seq::empty());
        },
        crate::common::BaseFolderId::DistinguishedFolderId(inner) => {
            lemma_name_ok_t_distinguishedfolderid();
            lemma_folder_id_attrs_ok(inner);
            lemma_elem_content_ok("t:DistinguishedFolderId", inner.spec_id_attrs(), Seq::empty());
        },
    }
}

/// A rendered item reference is sound body content.
pub proof fn lemma_item_id_elem_ok(it: crate::common::BaseItemId)
    ensures
        content_ok(it.spec_elem()),
        it.spec_elem().len() > 0,
        it.spec_elem()[0] == xml::LT,
{
    lemma_name_ok_t_itemid();
    lemma_attr_name_facts();
    match it {
        crate::common::BaseItemId::ItemId { id, change_key } => {
            lemma_attr_str_facts("Id", id@);
            let a1 = emit::attr_str("Id", id@);
            let a = a1 + match change_key {
                Some(ck) => emit::attr_str("ChangeKey", ck@),
                None => Seq::<u8>::empty(),
            };
            match change_key {
                Some(ck) => {
                    lemma_attr_str_facts("ChangeKey", ck@);
                    assert(a[0] == a1[0]);
                    assert(a.last() == emit::attr_str("ChangeKey", ck@).last());
                },
                None => {
                    assert(a =~= a1);
                },
            }
            lemma_elem_content_ok("t:ItemId", a, Seq::empty());
        },
    }
}

/// A rendered list of item references is sound body content.
pub proof fn lemma_item_id_list_ok(items: Seq<crate::common::BaseItemId>)
    ensures
        content_ok(crate::common::spec_item_id_list(items)),
        items.len() > 0 ==> crate::common::spec_item_id_list(items).len() > 0,
    decreases items.len(),
{
    if items.len() == 0 {
        assert(content_tokens_ok(crate::common::spec_item_id_list(items), 0, 0));
    } else {
        lemma_item_id_list_ok(items.drop_last());
        lemma_item_id_elem_ok(items.last());
        lemma_content_ok_concat(
            crate::common::spec_item_id_list(items.drop_last()),
            items.last().spec_elem(),
        );
    }
}

/// End to end: a move request, encoded, probes clean. Its body attributes
/// are one namespace attribute and its children are two rendered elements,
/// all of which the round-trip law accepts.
pub proof fn lemma_move_item_round_trip(m: crate::move_item::MoveItem)
    ensures
        soap::spec_extract(
            soap::spec_document(
                crate::operations::XmlSerialize::spec_attrs(&m),
                crate::operations::XmlSerialize::spec_children(&m),
            ),
        ) == Ok::<Option<soap::FaultView>, soap::ExtractFail>(None),
{
    lemma_attr_name_facts();
    lemma_attr_str_facts("xmlns", crate::common::MESSAGES_NS_URI@);
    lemma_name_ok_tofolderid();
    lemma_name_ok_itemids();
    lemma_folder_id_elem_ok(m.to_folder_id);
    lemma_elem_content_ok("ToFolderId", Seq::empty(), m.to_folder_id.spec_elem());
    lemma_item_id_list_ok(m.item_ids@);
    lemma_elem_content_ok(
        "ItemIds",
        Seq::empty(),
        crate::common::spec_item_id_list(m.item_ids@),
    );
    let c1 = emit::elem("ToFolderId", Seq::empty(), m.to_folder_id.spec_elem());
    let c2 = emit::elem("ItemIds", Seq::empty(), crate::common::spec_item_id_list(m.item_ids@));
    lemma_content_ok_concat(c1, c2);
    lemma_encode_probe_round_trip(
        crate::operations::XmlSerialize::spec_attrs(&m),
        crate::operations::XmlSerialize::spec_children(&m),
    );
}

/// Escaped character data never contains an opening angle bracket: the
/// bracket itself is replaced, and no replacement carries one.
pub proof fn lemma_escape_text_no_lt(bs: Seq<u8>)
    ensures
        forall|k: int|
            0 <= k < emit::escape_text(bs).len() ==> #[trigger] emit::escape_text(bs)[k]
                != xml::LT,
    decreases bs.len(),
{
    lemma_entity_facts();
    if bs.len() > 0 {
        lemma_escape_text_no_lt(bs.drop_last());
        assert(emit::escape_text(bs) == emit::escape_text(bs.drop_last())
            + emit::escape_text_byte(bs.last()));
    }
}

/// A rendered text element is sound body content.
pub proof fn lemma_text_elem_ok(name: &str, text: Seq<char>)
    requires
        elem_name_ok(name),
    ensures
        content_ok(emit::text_elem(name, text)),
        emit::text_elem(name, text).len() > 0,
        emit::text_elem(name, text)[0] == xml::LT,
{
    let inner = emit::escape_text(vstd::utf8::encode_utf8(text));
    lemma_escape_text_no_lt(vstd::utf8::encode_utf8(text));
    if inner.len() > 0 {
        lemma_text_content_ok(inner);
    }
    lemma_elem_content_ok(name, Seq::empty(), inner);
}

/// A rendered list of folder references is sound body content.
pub proof fn lemma_folder_id_list_ok(items: Seq<crate::common::BaseFolderId>)
    ensures
        content_ok(crate::common::spec_folder_id_list(items)),
        items.len() > 0 ==> crate::common::spec_folder_id_list(items).len() > 0,
    decreases items.len(),
{
    if items.len() == 0 {
        assert(content_tokens_ok(crate::common::spec_folder_id_list(items), 0, 0));
    } else {
        lemma_folder_id_list_ok(items.drop_last());
        lemma_folder_id_elem_ok(items.last());
        lemma_content_ok_concat(
            crate::common::spec_folder_id_list(items.drop_last()),
            items.last().spec_elem(),
        );
    }
}

/// The element names a folder request writes are harmless to the probe.
pub proof fn lemma_get_folder_names_ok()
    ensures
        elem_name_ok("FolderShape"),
        elem_name_ok("FolderIds"),
        elem_name_ok("t:BaseShape"),
{
    reveal_strlit("FolderShape");
    reveal_strlit("FolderIds");
    reveal_strlit("t:BaseShape");
    reveal_strlit("Fault");
    assert(is_ascii_chars("FolderShape"@));
    assert(is_ascii_chars("FolderIds"@));
    assert(is_ascii_chars("t:BaseShape"@));
    assert(is_ascii_chars("Fault"@));
    vstd::utf8::is_ascii_chars_encode_utf8("FolderShape"@);
    vstd::utf8::is_ascii_chars_encode_utf8("FolderIds"@);
    vstd::utf8::is_ascii_chars_encode_utf8("t:BaseShape"@);
    vstd::utf8::is_ascii_chars_encode_utf8("Fault"@);
    lemma_env_name_facts();
    lemma_body_tag_facts();
    xml::lemma_find_byte_none(nm("FolderShape"), xml::COLON, 0, 11);
    assert(xml::local_name(nm("FolderShape"), 0, 11) =~= nm("FolderShape"));
    xml::lemma_find_byte_none(nm("FolderIds"), xml::COLON, 0, 9);
    assert(xml::local_name(nm("FolderIds"), 0, 9) =~= nm("FolderIds"));
    assert(nm("FolderIds") != nm("soap:Body")) by {
        assert(nm("FolderIds")[0] == 70);
    }
    xml::lemma_find_byte_is(nm("t:BaseShape"), xml::COLON, 0, 11, 1);
    assert(xml::local_name(nm("t:BaseShape"), 0, 11).len() == 9);
    assert(xml::local_name(nm("t:BaseShape"), 0, 11) != nm("soap:Body"));
}

/// End to end for a folder request: encoded, it probes clean, whatever
/// shape and folder references it carries.
pub proof fn lemma_get_folder_round_trip(g: crate::get_folder::GetFolder)
    ensures
        soap::spec_extract(
            soap::spec_document(
                crate::operations::XmlSerialize::spec_attrs(&g),
                crate::operations::XmlSerialize::spec_children(&g),
            ),
        ) == Ok::<Option<soap::FaultView>, soap::ExtractFail>(None),
{
    lemma_attr_name_facts();
    lemma_attr_str_facts("xmlns", crate::common::MESSAGES_NS_URI@);
    lemma_get_folder_names_ok();
    lemma_text_elem_ok("t:BaseShape", g.folder_shape.base_shape.spec_text());
    lemma_elem_content_ok("FolderShape", Seq::empty(), g.folder_shape.spec_content());
    lemma_folder_id_list_ok(g.folder_ids@);
    lemma_elem_content_ok(
        "FolderIds",
        Seq::empty(),
        crate::common::spec_folder_id_list(g.folder_ids@),
    );
    let c1 = emit::elem("FolderShape", Seq::empty(), g.folder_shape.spec_content());
    let c2 = emit::elem(
        "FolderIds",
        Seq::empty(),
        crate::common::spec_folder_id_list(g.folder_ids@),
    );
    lemma_content_ok_concat(c1, c2);
    lemma_encode_probe_round_trip(
        crate::operations::XmlSerialize::spec_attrs(&g),
        crate::operations::XmlSerialize::spec_children(&g),
    );
}

/// The element names a delete request and an item request write are
/// harmless to the probe, and their attribute names carry no closing
/// bracket.
pub proof fn lemma_item_request_names_ok()
    ensures
        elem_name_ok("ItemShape"),
        elem_name_ok("t:IncludeMimeContent"),
        forall|k: int| 0 <= k < nm("DeleteType").len() ==> #[trigger] nm("DeleteType")[k]
            != xml::GT,
{
    reveal_strlit("ItemShape");
    reveal_strlit("t:IncludeMimeContent");
    reveal_strlit("DeleteType");
    reveal_strlit("Fault");
    assert(is_ascii_chars("ItemShape"@));
    assert(is_ascii_chars("t:IncludeMimeContent"@));
    assert(is_ascii_chars("DeleteType"@));
    assert(is_ascii_chars("Fault"@));
    vstd::utf8::is_ascii_chars_encode_utf8("ItemShape"@);
    vstd::utf8::is_ascii_chars_encode_utf8("t:IncludeMimeContent"@);
    vstd::utf8::is_ascii_chars_encode_utf8("DeleteType"@);
    vstd::utf8::is_ascii_chars_encode_utf8("Fault"@);
    lemma_env_name_facts();
    lemma_body_tag_facts();
    xml::lemma_find_byte_none(nm("ItemShape"), xml::COLON, 0, 9);
    assert(xml::local_name(nm("ItemShape"), 0, 9) =~= nm("ItemShape"));
    assert(nm("ItemShape") != nm("soap:Body")) by {
        assert(nm("ItemShape")[0] == 73);
    }
    xml::lemma_find_byte_is(nm("t:IncludeMimeContent"), xml::COLON, 0, 20, 1);
    assert(xml::local_name(nm("t:IncludeMimeContent"), 0, 20).len() == 18);
}

/// End to end for a delete request: encoded, it probes clean.
pub proof fn lemma_delete_folder_round_trip(g: crate::delete_folder::DeleteFolder)
    ensures
        soap::spec_extract(
            soap::spec_document(
                crate::operations::XmlSerialize::spec_attrs(&g),
                crate::operations::XmlSerialize::spec_children(&g),
            ),
        ) == Ok::<Option<soap::FaultView>, soap::ExtractFail>(None),
{
    lemma_attr_name_facts();
    lemma_item_request_names_ok();
    lemma_get_folder_names_ok();
    lemma_attr_str_facts("xmlns", crate::common::MESSAGES_NS_URI@);
    lemma_attr_str_facts("DeleteType", g.delete_type.spec_text());
    let a1 = emit::attr_str("xmlns", crate::common::MESSAGES_NS_URI@);
    let a2 = emit::attr_str("DeleteType", g.delete_type.spec_text());
    let a = crate::operations::XmlSerialize::spec_attrs(&g);
    assert(a == a1 + a2);
    assert(a[0] == a1[0]);
    assert(a.last() == a2.last());
    lemma_folder_id_list_ok(g.folder_ids@);
    lemma_elem_content_ok(
        "FolderIds",
        Seq::empty(),
        crate::common::spec_folder_id_list(g.folder_ids@),
    );
    lemma_encode_probe_round_trip(a, crate::operations::XmlSerialize::spec_children(&g));
}

/// The rendered shape selector of an item request is sound body content.
pub proof fn lemma_item_shape_content_ok(shape: crate::common::ItemShape)
    ensures
        content_ok(shape.spec_content()),
        shape.spec_content().len() > 0,
{
    lemma_get_folder_names_ok();
    lemma_item_request_names_ok();
    lemma_text_elem_ok("t:BaseShape", shape.base_shape.spec_text());
    let c1 = emit::text_elem("t:BaseShape", shape.base_shape.spec_text());
    match shape.include_mime_content {
        Some(b) => {
            let t = if b {
                "true"@
            } else {
                "false"@
            };
            lemma_text_elem_ok("t:IncludeMimeContent", t);
            lemma_content_ok_concat(c1, emit::text_elem("t:IncludeMimeContent", t));
        },
        None => {
            assert(shape.spec_content() =~= c1);
        },
    }
}

/// End to end for an item request: encoded, it probes clean.
pub proof fn lemma_get_item_round_trip(g: crate::get_item::GetItem)
    ensures
        soap::spec_extract(
            soap::spec_document(
                crate::operations::XmlSerialize::spec_attrs(&g),
                crate::operations::XmlSerialize::spec_children(&g),
            ),
        ) == Ok::<Option<soap::FaultView>, soap::ExtractFail>(None),
{
    lemma_attr_name_facts();
    lemma_attr_str_facts("xmlns", crate::common::MESSAGES_NS_URI@);
    lemma_item_request_names_ok();
    lemma_name_ok_itemids();
    lemma_item_shape_content_ok(g.item_shape);
    lemma_elem_content_ok("ItemShape", Seq::empty(), g.item_shape.spec_content());
    lemma_item_id_list_ok(g.item_ids@);
    lemma_elem_content_ok(
        "ItemIds",
        Seq::empty(),
        crate::common::spec_item_id_list(g.item_ids@),
    );
    let c1 = emit::elem("ItemShape", Seq::empty(), g.item_shape.spec_content());
    let c2 = emit::elem("ItemIds", Seq::empty(), crate::common::spec_item_id_list(g.item_ids@));
    lemma_content_ok_concat(c1, c2);
    lemma_encode_probe_round_trip(
        crate::operations::XmlSerialize::spec_attrs(&g),
        crate::operations::XmlSerialize::spec_children(&g),
    );
}

} // verus!
