//! The capability contracts a payload type needs to travel in an envelope:
//! self-serialization as a named element, strict deserialization from the
//! body of a response document, and the pairing of a request operation with
//! its response type.

use crate::reader::TargetedReader;
use crate::Error;
use vstd::prelude::*;

verus! {

use crate::emit;

/// A value that can serialize itself as one XML element under a caller
/// supplied name. The element carries the value's attributes and children,
/// and is self-closing when there are no children.
pub trait XmlSerialize {
    /// The rendered attribute bytes this value places on its element.
    spec fn spec_attrs(&self) -> Seq<u8>;

    /// The rendered child content of its element.
    spec fn spec_children(&self) -> Seq<u8>;

    /// Appends this value as an element named `name`. Serialization of the
    /// crate's payload types always succeeds; the `Result` shell is the
    /// shape of the capability.
    fn serialize_as_element(&self, out: &mut Vec<u8>, name: &str) -> (r: Result<(), Error>)
        ensures
            r matches Ok(()),
            final(out)@ == old(out)@ + emit::elem(name, self.spec_attrs(), self.spec_children()),
    ;
}

/// Why a strict typed decode failed, at specification level.
pub ghost enum DecodeFail {
    /// The body span was not well-formed XML, or a span was not valid text.
    Xml,
    /// The body was well-formed but did not match the expected shape.
    Shape,
}

/// A value that can be strictly decoded from the body of a response
/// document.
pub trait XmlDeserialize: Sized {
    /// The failure, if any, that decoding the body span `lo .. hi` of
    /// document `d` reports.
    spec fn spec_from_body_fail(d: Seq<u8>, lo: int, hi: int) -> Option<DecodeFail>;

    /// The values that decoding the body span may yield when it does not
    /// fail.
    spec fn wf_from_body(d: Seq<u8>, lo: int, hi: int, v: Self) -> bool;

    /// Decodes a value from a reader scoped to the document's body.
    fn deserialize_from_body(document: &[u8], body: TargetedReader) -> (r: Result<Self, Error>)
        requires
            body.wf(document@),
            body.pos == body.start,
        ensures
            match Self::spec_from_body_fail(document@, body.start as int, body.end as int) {
                Some(DecodeFail::Xml) => r matches Err(Error::Xml),
                Some(DecodeFail::Shape) => r matches Err(Error::Deserialize),
                None => r matches Ok(v) && Self::wf_from_body(
                    document@,
                    body.start as int,
                    body.end as int,
                    v,
                ),
            },
    ;
}

impl XmlDeserialize for () {
    /// The empty payload accepts any fault-free body, as the original
    /// schema-free unit decode does.
    open spec fn spec_from_body_fail(d: Seq<u8>, lo: int, hi: int) -> Option<DecodeFail> {
        None
    }

    open spec fn wf_from_body(d: Seq<u8>, lo: int, hi: int, v: Self) -> bool {
        true
    }

    fn deserialize_from_body(document: &[u8], body: TargetedReader) -> (r: Result<Self, Error>) {
        Ok(())
    }
}

/// A request operation: serializable, named, and paired with the response
/// type its server sends back.
pub trait Operation: XmlSerialize + crate::sealed::NamedStructure {
    /// The response structure returned by the server for this operation.
    type Response: OperationResponse;
}

/// A response structure paired with some operation.
pub trait OperationResponse: crate::sealed::NamedStructure {

}

} // verus!
