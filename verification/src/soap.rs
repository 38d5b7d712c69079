//! The SOAP envelope: encoding a payload into a complete document, and the
//! schema-agnostic fault probe run before any typed decode.

use crate::operations::DecodeFail;
use crate::operations::XmlDeserialize;
use crate::operations::XmlSerialize;
use crate::reader;
use crate::reader::TargetedReader;
use crate::xml;
use crate::Error;
use vstd::prelude::*;

verus! {

use crate::emit;
use crate::xml::nm;
use vstd::utf8::decode_utf8;
use vstd::utf8::valid_utf8;

/// A protocol-level fault returned in place of a normal response.
#[derive(Debug, PartialEq)]
pub struct Fault {
    /// An error code indicating the fault in the original request.
    pub fault_code: String,
    /// A human-readable explanation of the fault.
    pub fault_string: String,
    /// The party that caused the fault, when the server names one.
    pub fault_actor: Option<String>,
    /// Structured diagnostic data nested under the fault.
    pub detail: Option<FaultDetail>,
}

/// Diagnostic detail nested under a fault.
#[derive(Debug, Default, PartialEq)]
#[non_exhaustive]
pub struct FaultDetail {
    /// A machine-readable response code.
    pub response_code: Option<String>,
    /// A human-readable message.
    pub message: Option<String>,
    /// A nested diagnostic payload, scanned for a retry-delay hint.
    pub message_xml: Option<MessageXml>,
    /// Raw decoded text of the whole detail span, captured once when the
    /// first unrecognized detail child is met and never overwritten.
    pub content: Option<String>,
}

/// The diagnostic payload of a fault, preserved verbatim.
#[derive(Debug, PartialEq)]
#[non_exhaustive]
pub struct MessageXml {
    /// The full decoded inner XML of the payload.
    pub content: String,
    /// A server-supplied retry delay in milliseconds, found anywhere within
    /// the payload's descendant tree.
    pub back_off_milliseconds: Option<usize>,
}

/// Mathematical image of a [`MessageXml`].
pub ghost struct MessageXmlView {
    pub content: Seq<char>,
    pub back_off_milliseconds: Option<usize>,
}

/// Mathematical image of a [`FaultDetail`].
pub ghost struct FaultDetailView {
    pub response_code: Option<Seq<char>>,
    pub message: Option<Seq<char>>,
    pub message_xml: Option<MessageXmlView>,
    pub content: Option<Seq<char>>,
}

/// Mathematical image of a [`Fault`].
pub ghost struct FaultView {
    pub fault_code: Seq<char>,
    pub fault_string: Seq<char>,
    pub fault_actor: Option<Seq<char>>,
    pub detail: Option<FaultDetailView>,
}

impl View for MessageXml {
    type V = MessageXmlView;

    open spec fn view(&self) -> MessageXmlView {
        MessageXmlView {
            content: self.content@,
            back_off_milliseconds: self.back_off_milliseconds,
        }
    }
}

impl View for FaultDetail {
    type V = FaultDetailView;

    open spec fn view(&self) -> FaultDetailView {
        FaultDetailView {
            response_code: match self.response_code {
                Some(s) => Some(s@),
                None => None,
            },
            message: match self.message {
                Some(s) => Some(s@),
                None => None,
            },
            message_xml: match self.message_xml {
                Some(m) => Some(m@),
                None => None,
            },
            content: match self.content {
                Some(s) => Some(s@),
                None => None,
            },
        }
    }
}

impl View for Fault {
    type V = FaultView;

    open spec fn view(&self) -> FaultView {
        FaultView {
            fault_code: self.fault_code@,
            fault_string: self.fault_string@,
            fault_actor: match self.fault_actor {
                Some(s) => Some(s@),
                None => None,
            },
            detail: match self.detail {
                Some(d) => Some(d@),
                None => None,
            },
        }
    }
}

/// Text reading of a byte span: the decoded characters when the bytes are
/// valid under the document encoding, nothing otherwise.
pub open spec fn spec_decode_text(d: Seq<u8>, lo: int, hi: int) -> Option<Seq<char>> {
    if 0 <= lo <= hi <= d.len() && valid_utf8(d.subrange(lo, hi)) {
        Some(decode_utf8(d.subrange(lo, hi)))
    } else {
        None
    }
}

/// The view of an optional owned string.
pub open spec fn view_opt(s: Option<String>) -> Option<Seq<char>> {
    match s {
        Some(x) => Some(x@),
        None => None,
    }
}

/// Why the fault probe failed.
pub ghost enum ExtractFail {
    /// The document was not well-formed XML, or a located span was not
    /// valid text under the document encoding.
    Xml,
    /// The document lacked the mandatory envelope structure, or a located
    /// fault was missing a mandatory field.
    Unexpected,
}

/// The retry-hint scan over a diagnostic payload: a linear depth-first pass
/// over every token of the span. The first `Value` start tag that carries an
/// attribute with local name `Name` and value `BackOffMilliseconds`, and
/// whose element text reads as a machine-size number, yields that number;
/// a matched hint with malformed numeric text is skipped, not an error.
pub open spec fn spec_backoff(d: Seq<u8>, i: int, end: int) -> Result<Option<usize>, ()>
    decreases end - i,
{
    if !(0 <= i && i <= end && end <= d.len()) {
        Err(())
    } else {
        proof {
            xml::lemma_token_bounds(d, i, end);
        }
        match xml::spec_token(d, i, end) {
            xml::SpecToken::Eof => Ok(None),
            xml::SpecToken::Bad => Err(()),
            xml::SpecToken::Start { name_lo, name_hi, next } => {
                if xml::local_name(d, name_lo, name_hi) == nm("Value") && xml::spec_has_attr(
                    d,
                    name_hi,
                    next - 1,
                    nm("Name"),
                    nm("BackOffMilliseconds"),
                ) {
                    match reader::spec_scan_end(d, next, end, d.subrange(name_lo, name_hi), 0) {
                        None => Err(()),
                        Some(p) => {
                            proof {
                                reader::lemma_scan_end_bounds(
                                    d,
                                    next,
                                    end,
                                    d.subrange(name_lo, name_hi),
                                    0,
                                );
                            }
                            if spec_decode_text(d, next, p.0) is None {
                                Err(())
                            } else {
                                match xml::spec_parse_usize(d, next, p.0) {
                                    Some(v) => Ok(Some(v)),
                                    None => spec_backoff(d, p.1, end),
                                }
                            }
                        },
                    }
                } else {
                    spec_backoff(d, next, end)
                }
            },
            xml::SpecToken::End { next, .. } => spec_backoff(d, next, end),
            xml::SpecToken::SelfClosed { next, .. } => spec_backoff(d, next, end),
            xml::SpecToken::Text { next } => spec_backoff(d, next, end),
            xml::SpecToken::Misc { next } => spec_backoff(d, next, end),
        }
    }
}

/// What decoding a `MessageXml` span yields: the retry-hint scan result
/// beside the verbatim decoded text of the whole span.
pub open spec fn spec_message_xml(d: Seq<u8>, lo: int, hi: int) -> Result<MessageXmlView, ()> {
    match spec_backoff(d, lo, hi) {
        Err(()) => Err(()),
        Ok(bo) => match spec_decode_text(d, lo, hi) {
            None => Err(()),
            Some(c) => Ok(MessageXmlView { content: c, back_off_milliseconds: bo }),
        },
    }
}

/// An empty detail record, before any child has been read.
pub open spec fn empty_detail() -> FaultDetailView {
    FaultDetailView { response_code: None, message: None, message_xml: None, content: None }
}

/// Reading of a detail element's children, child by child from position
/// `i`: recognized children fill their fields (a repeated child wins over an
/// earlier one); the first unrecognized child stores the decoded text of
/// the whole detail span `span_lo .. span_hi` as `content`, once; further
/// unrecognized children are skipped.
pub open spec fn spec_detail_fields(
    d: Seq<u8>,
    i: int,
    end: int,
    span_lo: int,
    span_hi: int,
    acc: FaultDetailView,
) -> Result<FaultDetailView, ()>
    decreases end - i,
{
    if !(0 <= i && i <= end && end <= d.len()) {
        Err(())
    } else {
        proof {
            reader::lemma_next_child_bounds(d, i, end);
        }
        match reader::spec_next_child(d, i, end) {
            Err(()) => Err(()),
            Ok(None) => Ok(acc),
            Ok(Some(p)) => {
                let name = xml::local_name(d, p.0, p.1);
                if name == nm("ResponseCode") {
                    match spec_decode_text(d, p.2, p.3) {
                        None => Err(()),
                        Some(s) => spec_detail_fields(
                            d,
                            p.4,
                            end,
                            span_lo,
                            span_hi,
                            FaultDetailView { response_code: Some(s), ..acc },
                        ),
                    }
                } else if name == nm("Message") {
                    match spec_decode_text(d, p.2, p.3) {
                        None => Err(()),
                        Some(s) => spec_detail_fields(
                            d,
                            p.4,
                            end,
                            span_lo,
                            span_hi,
                            FaultDetailView { message: Some(s), ..acc },
                        ),
                    }
                } else if name == nm("MessageXml") {
                    match spec_message_xml(d, p.2, p.3) {
                        Err(()) => Err(()),
                        Ok(m) => spec_detail_fields(
                            d,
                            p.4,
                            end,
                            span_lo,
                            span_hi,
                            FaultDetailView { message_xml: Some(m), ..acc },
                        ),
                    }
                } else if acc.content is None {
                    match spec_decode_text(d, span_lo, span_hi) {
                        None => Err(()),
                        Some(s) => spec_detail_fields(
                            d,
                            p.4,
                            end,
                            span_lo,
                            span_hi,
                            FaultDetailView { content: Some(s), ..acc },
                        ),
                    }
                } else {
                    spec_detail_fields(d, p.4, end, span_lo, span_hi, acc)
                }
            },
        }
    }
}

/// Accumulator for the fault element's children.
pub ghost struct FaultAcc {
    pub fault_code: Option<Seq<char>>,
    pub fault_string: Option<Seq<char>>,
    pub fault_actor: Option<Seq<char>>,
    pub detail: Option<FaultDetailView>,
}

/// An empty fault accumulator.
pub open spec fn empty_fault_acc() -> FaultAcc {
    FaultAcc { fault_code: None, fault_string: None, fault_actor: None, detail: None }
}

/// Reading of a fault element's children, child by child from position `i`.
/// `faultcode`, `faultstring` and `faultactor` decode to text; `detail` runs
/// the detail reading over that child's span; any other child is tolerated
/// and skipped.
pub open spec fn spec_fault_fields(d: Seq<u8>, i: int, end: int, acc: FaultAcc) -> Result<
    FaultAcc,
    (),
>
    decreases end - i,
{
    if !(0 <= i && i <= end && end <= d.len()) {
        Err(())
    } else {
        proof {
            reader::lemma_next_child_bounds(d, i, end);
        }
        match reader::spec_next_child(d, i, end) {
            Err(()) => Err(()),
            Ok(None) => Ok(acc),
            Ok(Some(p)) => {
                let name = xml::local_name(d, p.0, p.1);
                if name == nm("faultcode") {
                    match spec_decode_text(d, p.2, p.3) {
                        None => Err(()),
                        Some(s) => spec_fault_fields(
                            d,
                            p.4,
                            end,
                            FaultAcc { fault_code: Some(s), ..acc },
                        ),
                    }
                } else if name == nm("faultstring") {
                    match spec_decode_text(d, p.2, p.3) {
                        None => Err(()),
                        Some(s) => spec_fault_fields(
                            d,
                            p.4,
                            end,
                            FaultAcc { fault_string: Some(s), ..acc },
                        ),
                    }
                } else if name == nm("faultactor") {
                    match spec_decode_text(d, p.2, p.3) {
                        None => Err(()),
                        Some(s) => spec_fault_fields(
                            d,
                            p.4,
                            end,
                            FaultAcc { fault_actor: Some(s), ..acc },
                        ),
                    }
                } else if name == nm("detail") {
                    match spec_detail_fields(d, p.2, p.3, p.2, p.3, empty_detail()) {
                        Err(()) => Err(()),
                        Ok(dv) => spec_fault_fields(d, p.4, end, FaultAcc { detail: Some(dv), ..acc }),
                    }
                } else {
                    spec_fault_fields(d, p.4, end, acc)
                }
            },
        }
    }
}

/// Reading of a whole fault element span: its children, then the demand
/// that both mandatory fields were present.
pub open spec fn spec_fault(d: Seq<u8>, lo: int, hi: int) -> Result<FaultView, ExtractFail> {
    match spec_fault_fields(d, lo, hi, empty_fault_acc()) {
        Err(()) => Err(ExtractFail::Xml),
        Ok(acc) => match (acc.fault_code, acc.fault_string) {
            (Some(c), Some(s)) => Ok(
                FaultView {
                    fault_code: c,
                    fault_string: s,
                    fault_actor: acc.fault_actor,
                    detail: acc.detail,
                },
            ),
            _ => Err(ExtractFail::Unexpected),
        },
    }
}

/// The whole fault probe over a raw document: find the root element, the
/// body within it, and a fault within the body; absence of root or body is
/// a structural failure, absence of a fault is the normal no-fault outcome,
/// and a found fault is decoded in full.
pub open spec fn spec_extract(d: Seq<u8>) -> Result<Option<FaultView>, ExtractFail> {
    match reader::spec_locate(d, 0, d.len() as int, nm("Envelope")) {
        Err(()) => Err(ExtractFail::Xml),
        Ok(None) => Err(ExtractFail::Unexpected),
        Ok(Some(e)) => match reader::spec_locate(d, e.0, e.1, nm("Body")) {
            Err(()) => Err(ExtractFail::Xml),
            Ok(None) => Err(ExtractFail::Unexpected),
            Ok(Some(b)) => match reader::spec_locate(d, b.0, b.1, nm("Fault")) {
                Err(()) => Err(ExtractFail::Xml),
                Ok(None) => Ok(None),
                Ok(Some(f)) => match spec_fault(d, f.0, f.1) {
                    Err(e2) => Err(e2),
                    Ok(fv) => Ok(Some(fv)),
                },
            },
        },
    }
}

/// The structural failure carrying the raw document for diagnostics.
fn unexpected_response(document: &[u8]) -> (e: Error)
    ensures
        e matches Error::UnexpectedResponse(b) && b@ == document@,
{
    let v = reader::span_to_vec(document, 0, document.len());
    proof {
        assert(v@ =~= document@);
    }
    Error::UnexpectedResponse(v)
}

/// The retry-hint scan over the span `lo .. end`, proved against
/// [`spec_backoff`].
fn backoff_scan(d: &[u8], lo: usize, end: usize) -> (r: Result<Option<usize>, Error>)
    requires
        lo <= end <= d@.len(),
    ensures
        match spec_backoff(d@, lo as int, end as int) {
            Err(()) => r matches Err(Error::Xml),
            Ok(v) => r matches Ok(w) && w == v,
        },
{
    let mut pos: usize = lo;
    loop
        invariant
            lo <= pos <= end <= d@.len(),
            spec_backoff(d@, lo as int, end as int) == spec_backoff(d@, pos as int, end as int),
        decreases end - pos,
    {
        proof {
            xml::lemma_token_bounds(d@, pos as int, end as int);
        }
        match xml::next_token(d, pos, end) {
            xml::Token::Eof => {
                return Ok(None);
            },
            xml::Token::Bad => {
                return Err(Error::Xml);
            },
            xml::Token::Start { name_lo, name_hi, next } => {
                if xml::local_name_eq(d, name_lo, name_hi, "Value".as_bytes()) && xml::has_attr(
                    d,
                    name_hi,
                    next - 1,
                    "Name".as_bytes(),
                    "BackOffMilliseconds".as_bytes(),
                ) {
                    match reader::scan_end(d, next, end, name_lo, name_hi) {
                        None => {
                            return Err(Error::Xml);
                        },
                        Some(p) => {
                            // The hint's text must decode, as any located
                            // text must; its numeric reading then decides.
                            if let Err(e) = reader::decode_span(d, next, p.0) {
                                return Err(e);
                            }
                            match xml::parse_usize(d, next, p.0) {
                                Some(v) => {
                                    return Ok(Some(v));
                                },
                                None => {
                                    pos = p.1;
                                },
                            }
                        },
                    }
                } else {
                    pos = next;
                }
            },
            xml::Token::End { next, .. } => {
                pos = next;
            },
            xml::Token::SelfClosed { next, .. } => {
                pos = next;
            },
            xml::Token::Text { next } => {
                pos = next;
            },
            xml::Token::Misc { next } => {
                pos = next;
            },
        }
    }
}

/// Decodes a reader scoped to a `MessageXml` element: captures the full
/// decoded text of the span unconditionally and scans the whole descendant
/// tree for a retry-delay hint.
pub fn parse_message_xml(document: &[u8], reader: TargetedReader) -> (r: Result<
    MessageXml,
    Error,
>)
    requires
        reader.wf(document@),
        reader.pos == reader.start,
    ensures
        match spec_message_xml(document@, reader.start as int, reader.end as int) {
            Err(()) => r matches Err(Error::Xml),
            Ok(v) => r matches Ok(m) && m@ == v,
        },
{
    let back_off_milliseconds = match backoff_scan(document, reader.start, reader.end) {
        Err(e) => {
            return Err(e);
        },
        Ok(v) => v,
    };
    let content = match reader.to_string(document) {
        Err(e) => {
            return Err(e);
        },
        Ok(s) => s,
    };
    Ok(MessageXml { content, back_off_milliseconds })
}

/// Decodes a reader scoped to a fault's `detail` element into its
/// structured fields, tolerating unknown children by capturing the whole
/// detail text once.
#[verifier::loop_isolation(false)]
pub fn parse_detail_field(document: &[u8], reader: TargetedReader) -> (r: Result<
    FaultDetail,
    Error,
>)
    requires
        reader.wf(document@),
        reader.pos == reader.start,
    ensures
        match spec_detail_fields(
            document@,
            reader.start as int,
            reader.end as int,
            reader.start as int,
            reader.end as int,
            empty_detail(),
        ) {
            Err(()) => r matches Err(Error::Xml),
            Ok(v) => r matches Ok(fd) && fd@ == v,
        },
{
    let mut rd = reader;
    let ghost slo = rd.start as int;
    let ghost shi = rd.end as int;
    let mut detail = FaultDetail { response_code: None, message: None, message_xml: None, content: None };
    loop
        invariant
            rd.wf(document@),
            rd.start as int == slo,
            rd.end as int == shi,
            spec_detail_fields(document@, slo, shi, slo, shi, empty_detail())
                == spec_detail_fields(document@, rd.pos as int, shi, slo, shi, detail@),
        decreases shi - rd.pos,
    {
        proof {
            reader::lemma_next_child_bounds(document@, rd.pos as int, shi);
        }
        match rd.maybe_get_next_subreader(document) {
            Err(e) => {
                return Err(e);
            },
            Ok(None) => {
                return Ok(detail);
            },
            Ok(Some((name, subreader))) => {
                if xml::bytes_eq(name.as_slice(), "ResponseCode".as_bytes()) {
                    match subreader.to_string(document) {
                        Err(e) => {
                            return Err(e);
                        },
                        Ok(s) => {
                            detail.response_code = Some(s);
                        },
                    }
                } else if xml::bytes_eq(name.as_slice(), "Message".as_bytes()) {
                    match subreader.to_string(document) {
                        Err(e) => {
                            return Err(e);
                        },
                        Ok(s) => {
                            detail.message = Some(s);
                        },
                    }
                } else if xml::bytes_eq(name.as_slice(), "MessageXml".as_bytes()) {
                    match parse_message_xml(document, subreader) {
                        Err(e) => {
                            return Err(e);
                        },
                        Ok(m) => {
                            detail.message_xml = Some(m);
                        },
                    }
                } else if detail.content.is_none() {
                    match decode_whole_span(document, rd.start, rd.end) {
                        Err(e) => {
                            return Err(e);
                        },
                        Ok(s) => {
                            detail.content = Some(s);
                        },
                    }
                }
            },
        }
    }
}

/// Decodes the bytes of a whole span, as the catch-all detail snapshot.
fn decode_whole_span(document: &[u8], lo: usize, hi: usize) -> (r: Result<String, Error>)
    requires
        lo <= hi <= document@.len(),
    ensures
        match spec_decode_text(document@, lo as int, hi as int) {
            None => r matches Err(Error::Xml),
            Some(c) => r matches Ok(s) && s@ == c,
        },
{
    reader::decode_span(document, lo, hi)
}

/// Probes a raw document for a protocol fault: walks root → body with no
/// schema knowledge, and decodes a located `Fault` element into a
/// structured record. `Ok(None)` — the normal outcome — means the document
/// carries no fault and the caller should proceed to the strict typed
/// decode; a missing root or body, or a fault without its mandatory
/// `faultcode`/`faultstring`, is reported with the raw document attached.
#[verifier::loop_isolation(false)]
pub fn extract_maybe_fault(document: &[u8]) -> (r: Result<Option<Fault>, Error>)
    ensures
        match spec_extract(document@) {
            Ok(None) => r matches Ok(None),
            Ok(Some(fv)) => r matches Ok(Some(f)) && f@ == fv,
            Err(ExtractFail::Xml) => r matches Err(Error::Xml),
            Err(ExtractFail::Unexpected) => (r matches Err(Error::UnexpectedResponse(b)) && b@
                == document@),
        },
{
    let mut top = TargetedReader::from_bytes(document);
    let mut envelope_reader = match top.maybe_get_subreader_for_tag(
        document,
        "Envelope".as_bytes(),
    ) {
        Err(e) => {
            return Err(e);
        },
        Ok(None) => {
            return Err(unexpected_response(document));
        },
        Ok(Some(rd)) => rd,
    };
    let mut body_reader = match envelope_reader.maybe_get_subreader_for_tag(
        document,
        "Body".as_bytes(),
    ) {
        Err(e) => {
            return Err(e);
        },
        Ok(None) => {
            return Err(unexpected_response(document));
        },
        Ok(Some(rd)) => rd,
    };
    let fault_reader_opt = match body_reader.maybe_get_subreader_for_tag(
        document,
        "Fault".as_bytes(),
    ) {
        Err(e) => {
            return Err(e);
        },
        Ok(v) => v,
    };
    match fault_reader_opt {
        None => Ok(None),
        Some(fault_reader) => {
            let mut rd = fault_reader;
            let ghost flo = rd.start as int;
            let ghost fhi = rd.end as int;
            let mut fault_code: Option<String> = None;
            let mut fault_string: Option<String> = None;
            let mut fault_actor: Option<String> = None;
            let mut detail: Option<FaultDetail> = None;
            loop
                invariant
                    rd.wf(document@),
                    rd.start as int == flo,
                    rd.end as int == fhi,
                    spec_fault_fields(document@, flo, fhi, empty_fault_acc())
                        == spec_fault_fields(
                        document@,
                        rd.pos as int,
                        fhi,
                        FaultAcc {
                            fault_code: view_opt(fault_code),
                            fault_string: view_opt(fault_string),
                            fault_actor: view_opt(fault_actor),
                            detail: match detail {
                                Some(fd) => Some(fd@),
                                None => None,
                            },
                        },
                    ),
                decreases fhi - rd.pos,
            {
                proof {
                    reader::lemma_next_child_bounds(document@, rd.pos as int, fhi);
                }
                match rd.maybe_get_next_subreader(document) {
                    Err(e) => {
                        return Err(e);
                    },
                    Ok(None) => {
                        let fault_code = match fault_code {
                            Some(c) => c,
                            None => {
                                return Err(unexpected_response(document));
                            },
                        };
                        let fault_string = match fault_string {
                            Some(sv) => sv,
                            None => {
                                return Err(unexpected_response(document));
                            },
                        };
                        return Ok(
                            Some(Fault { fault_code, fault_string, fault_actor, detail }),
                        );
                    },
                    Ok(Some((name, subreader))) => {
                        if xml::bytes_eq(name.as_slice(), "faultcode".as_bytes()) {
                            match subreader.to_string(document) {
                                Err(e) => {
                                    return Err(e);
                                },
                                Ok(sv) => {
                                    fault_code = Some(sv);
                                },
                            }
                        } else if xml::bytes_eq(name.as_slice(), "faultstring".as_bytes()) {
                            match subreader.to_string(document) {
                                Err(e) => {
                                    return Err(e);
                                },
                                Ok(sv) => {
                                    fault_string = Some(sv);
                                },
                            }
                        } else if xml::bytes_eq(name.as_slice(), "faultactor".as_bytes()) {
                            match subreader.to_string(document) {
                                Err(e) => {
                                    return Err(e);
                                },
                                Ok(sv) => {
                                    fault_actor = Some(sv);
                                },
                            }
                        } else if xml::bytes_eq(name.as_slice(), "detail".as_bytes()) {
                            match parse_detail_field(document, subreader) {
                                Err(e) => {
                                    return Err(e);
                                },
                                Ok(fd) => {
                                    detail = Some(fd);
                                },
                            }
                        }
                        // Any other child is a server nonconformance that is
                        // tolerated and skipped, never an error.
                    },
                }
            }
        },
    }
}

/// The attributes on the document's root element: the two fixed namespace
/// declarations.
pub open spec fn spec_envelope_attrs() -> Seq<u8> {
    emit::attr_str("xmlns:soap", crate::common::SOAP_NS_URI@) + emit::attr_str(
        "xmlns:t",
        crate::common::TYPES_NS_URI@,
    )
}

/// The complete document emitted for a payload whose body element carries
/// the given rendered attribute and child bytes: an XML declaration, the
/// root element declaring the fixed namespaces, the body element, and the
/// closing root tag.
pub open spec fn spec_document(attrs: Seq<u8>, children: Seq<u8>) -> Seq<u8> {
    nm("<?xml version=\"1.0\" encoding=\"utf-8\"?>") + emit::start_tag(
        "soap:Envelope",
        spec_envelope_attrs(),
    ) + emit::elem("soap:Body", attrs, children) + emit::end_tag("soap:Envelope")
}

/// The body span of a document, as the probe finds it: the content range of
/// the first `Body` element within the first `Envelope` element.
pub open spec fn spec_body_span(d: Seq<u8>) -> Option<(int, int)> {
    match reader::spec_locate(d, 0, d.len() as int, nm("Envelope")) {
        Ok(Some(e)) => match reader::spec_locate(d, e.0, e.1, nm("Body")) {
            Ok(Some(b)) => Some((b.0, b.1)),
            _ => None,
        },
        _ => None,
    }
}

/// Everything the decode contract admits as the result of reading the raw
/// document `d` into an envelope: the fault probe's verdict decides the
/// outcome, and only a fault-free document reaches the typed decode.
pub open spec fn spec_decode_result<B: XmlDeserialize>(d: Seq<u8>, r: Result<Envelope<B>, Error>) -> bool {
    match spec_extract(d) {
        Err(ExtractFail::Xml) => r matches Err(Error::Xml),
        Err(ExtractFail::Unexpected) => (r matches Err(Error::UnexpectedResponse(b)) && b@ == d),
        Ok(Some(fv)) => (r matches Err(Error::RequestFault(f)) && f@ == fv),
        Ok(None) => match spec_body_span(d) {
            Some(sp) => match B::spec_from_body_fail(d, sp.0, sp.1) {
                Some(DecodeFail::Xml) => r matches Err(Error::Xml),
                Some(DecodeFail::Shape) => r matches Err(Error::Deserialize),
                None => r matches Ok(env) && B::wf_from_body(d, sp.0, sp.1, env.body),
            },
            None => false,
        },
    }
}

/// A SOAP envelope wrapping one operation payload.
#[derive(Debug)]
pub struct Envelope<B> {
    /// The payload carried in the document body.
    pub body: B,
}

impl<B: XmlSerialize> Envelope<B> {
    /// Serializes the envelope as a complete XML document: declaration,
    /// root element with the two fixed namespace prefixes, and the payload
    /// as the body element.
    pub fn as_xml_document(&self) -> (r: Result<Vec<u8>, Error>)
        ensures
            r matches Ok(v) && v@ == spec_document(
                self.body.spec_attrs(),
                self.body.spec_children(),
            ),
    {
        let mut out: Vec<u8> = Vec::new();
        emit::push_lit(&mut out, "<?xml version=\"1.0\" encoding=\"utf-8\"?>");
        let mut env_attrs: Vec<u8> = Vec::new();
        emit::push_attr_str(&mut env_attrs, "xmlns:soap", crate::common::SOAP_NS_URI);
        emit::push_attr_str(&mut env_attrs, "xmlns:t", crate::common::TYPES_NS_URI);
        out.push(xml::LT);
        emit::push_lit(&mut out, "soap:Envelope");
        let mut env_attrs = env_attrs;
        out.append(&mut env_attrs);
        out.push(xml::GT);
        match self.body.serialize_as_element(&mut out, "soap:Body") {
            Ok(()) => {},
            Err(e) => {
                return Err(e);
            },
        }
        out.push(xml::LT);
        out.push(xml::SLASH);
        emit::push_lit(&mut out, "soap:Envelope");
        out.push(xml::GT);
        proof {
            assert(out@ =~= spec_document(self.body.spec_attrs(), self.body.spec_children()));
        }
        Ok(out)
    }
}

impl<B: XmlDeserialize> Envelope<B> {
    /// Populates an envelope from a raw response document. The fault probe
    /// runs first and takes absolute precedence: when the document carries
    /// a fault, the result is that fault and the typed decode is never
    /// attempted. Only a fault-free document is strictly decoded into the
    /// expected payload.
    pub fn from_xml_document(document: &[u8]) -> (r: Result<Envelope<B>, Error>)
        ensures
            spec_decode_result(document@, r),
    {
        match extract_maybe_fault(document) {
            Err(e) => Err(e),
            Ok(Some(fault)) => Err(Error::RequestFault(Box::new(fault))),
            Ok(None) => {
                let mut top = TargetedReader::from_bytes(document);
                let envelope_reader = match top.maybe_get_subreader_for_tag(
                    document,
                    "Envelope".as_bytes(),
                ) {
                    Ok(Some(rd)) => rd,
                    _ => {
                        return Err(unexpected_response(document));
                    },
                };
                let mut envelope_reader = envelope_reader;
                let body_reader = match envelope_reader.maybe_get_subreader_for_tag(
                    document,
                    "Body".as_bytes(),
                ) {
                    Ok(Some(rd)) => rd,
                    _ => {
                        return Err(unexpected_response(document));
                    },
                };
                match B::deserialize_from_body(document, body_reader) {
                    Ok(v) => Ok(Envelope { body: v }),
                    Err(e) => Err(e),
                }
            },
        }
    }
}

} // verus!
