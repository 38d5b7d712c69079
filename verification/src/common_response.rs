//! The response message shape shared by item operations.

use crate::common::ResponseClass;
use crate::common::ResponseCode;
use crate::get_item::Items;
use crate::operations::DecodeFail;
use crate::reader;
use crate::reader::TargetedReader;
use crate::Error;
use vstd::prelude::*;

verus! {

use crate::soap::spec_decode_text;
use crate::soap::view_opt;
use crate::xml;
use crate::xml::nm;

/// The status and result of one item operation within a response.
#[derive(Clone, Debug)]
pub struct ItemResponseMessage {
    /// The status of the corresponding request, i.e. whether it succeeded
    /// or resulted in an error.
    pub response_class: ResponseClass,
    /// A machine-readable code for a failure.
    pub response_code: Option<ResponseCode>,
    /// A human-readable explanation.
    pub message_text: Option<String>,
    /// The items carried by the response.
    pub items: Items,
}

/// The status named by a message tag's `ResponseClass` attribute, read from
/// the attribute region `alo .. ahi`.
pub open spec fn spec_response_class(d: Seq<u8>, alo: int, ahi: int) -> Option<ResponseClass> {
    if xml::spec_has_attr(d, alo, ahi, nm("ResponseClass"), nm("Success")) {
        Some(ResponseClass::Success)
    } else if xml::spec_has_attr(d, alo, ahi, nm("ResponseClass"), nm("Warning")) {
        Some(ResponseClass::Warning)
    } else if xml::spec_has_attr(d, alo, ahi, nm("ResponseClass"), nm("Error")) {
        Some(ResponseClass::Error)
    } else {
        None
    }
}

/// The decoded optional text of the first child named `local` within
/// `clo .. chi`: absent when no such child exists, a decode failure when
/// the markup or the text is broken.
pub open spec fn spec_opt_text_child(d: Seq<u8>, clo: int, chi: int, local: Seq<u8>) -> Result<
    Option<Seq<char>>,
    DecodeFail,
> {
    match reader::spec_locate(d, clo, chi, local) {
        Err(()) => Err(DecodeFail::Xml),
        Ok(None) => Ok(None),
        Ok(Some(p)) => match spec_decode_text(d, p.0, p.1) {
            None => Err(DecodeFail::Xml),
            Some(t) => Ok(Some(t)),
        },
    }
}

/// Mathematical image of one decoded response message: its class, code and
/// message text.
pub open spec fn spec_one_message(d: Seq<u8>, alo: int, ahi: int, clo: int, chi: int) -> Result<
    (ResponseClass, Option<Seq<char>>, Option<Seq<char>>),
    DecodeFail,
> {
    match spec_response_class(d, alo, ahi) {
        None => Err(DecodeFail::Shape),
        Some(rc) => match spec_opt_text_child(d, clo, chi, nm("ResponseCode")) {
            Err(f) => Err(f),
            Ok(code) => match spec_opt_text_child(d, clo, chi, nm("MessageText")) {
                Err(f) => Err(f),
                Ok(text) => Ok((rc, code, text)),
            },
        },
    }
}

/// Reads the decoded text of the first child named `local` of the span the
/// reader is scoped to, when there is one.
pub(crate) fn text_child(document: &[u8], scope: &TargetedReader, local: &[u8]) -> (r: Result<
    Option<String>,
    Error,
>)
    requires
        scope.wf(document@),
    ensures
        match spec_opt_text_child(document@, scope.start as int, scope.end as int, local@) {
            Err(DecodeFail::Xml) => r matches Err(Error::Xml),
            Err(DecodeFail::Shape) => r matches Err(Error::Deserialize),
            Ok(t) => r matches Ok(v) && view_opt(v) == t,
        },
{
    let mut rd = TargetedReader { start: scope.start, pos: scope.start, end: scope.end };
    match rd.maybe_get_subreader_for_tag(document, local) {
        Err(e) => Err(e),
        Ok(None) => Ok(None),
        Ok(Some(sub)) => match sub.to_string(document) {
            Err(e) => Err(e),
            Ok(s) => Ok(Some(s)),
        },
    }
}


} // verus!
