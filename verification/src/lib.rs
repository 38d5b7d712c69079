//! A client-side envelope layer for a SOAP/XML request-response protocol.
//!
//! The crate wraps a typed request payload in a complete SOAP document and
//! unwraps a raw response document by first probing it — without any schema
//! knowledge — for a protocol fault, and only then attempting a strict typed
//! decode of the payload.
//!
//! Everything is specified and verified down to the bytes: [`xml`] scans
//! raw markup one token at a time, [`reader`] walks spans of one borrowed
//! buffer, [`soap`] holds the envelope operations and the fault probe, and
//! [`emit`] renders elements with exact byte-level contracts. The
//! properties tying these together — fault precedence over typed decoding,
//! tolerance of unknown elements, depth-independence of the retry-hint
//! scan, and the encode-then-probe round trip — are proved in [`laws`].

use vstd::prelude::*;

pub mod common;
pub mod common_response;
pub mod create_item;
pub mod delete_folder;
pub mod emit;
pub mod find_item;
pub mod get_folder;
pub mod get_item;
pub mod laws;
pub mod move_item;
pub mod operations;
pub mod reader;
mod sealed;
pub mod soap;
pub mod sync_folder_hierarchy;
pub mod sync_folder_items;
pub mod update_folder;
pub mod update_item;
pub mod update_junk_status;
pub mod xml;

pub use common::ArrayOfRecipients;
pub use common::BaseFolderId;
pub use common::BaseItemId;
pub use common::BaseShape;
pub use common::Folder;
pub use common::FolderId;
pub use common::FolderShape;
pub use common::ItemId;
pub use common::ItemShape;
pub use common::Mailbox;
pub use common::Message;
pub use common::MimeContent;
pub use common::PathToElement;
pub use common::RealItem;
pub use common::Recipient;
pub use common::ResponseClass;
pub use common::ResponseCode;
pub use common::ResponseMessages;
pub use common_response::ItemResponseMessage;
pub use operations::Operation;
pub use operations::OperationResponse;
pub use operations::XmlDeserialize;
pub use operations::XmlSerialize;
pub use soap::Envelope;
pub use soap::Fault;
pub use soap::FaultDetail;
pub use soap::MessageXml;

verus! {

/// Everything that can go wrong while building or reading a document.
#[derive(Debug)]
pub enum Error {
    /// The payload failed to render itself as XML.
    Serialize,
    /// The document was well-formed XML but did not match the expected typed
    /// response shape.
    Deserialize,
    /// The document was not well-formed XML, or a located span was not valid
    /// text under the document encoding.
    Xml,
    /// The document lacked the mandatory envelope structure, or a located
    /// fault was missing a mandatory field; carries the raw document so a
    /// caller can log what was received.
    UnexpectedResponse(Vec<u8>),
    /// The document carried a protocol fault in place of a response.
    RequestFault(Box<soap::Fault>),
}

impl Error {
    /// A short description of the error, for logging by callers.
    pub fn describe(&self) -> (r: &'static str) {
        match self {
            Error::Serialize => "failed to serialize structure as XML",
            Error::Deserialize => "failed to deserialize structure from XML",
            Error::Xml => "error manipulating XML data",
            Error::UnexpectedResponse(_) => "response was not in the expected shape",
            Error::RequestFault(_) => "request resulted in a fault",
        }
    }
}

} // verus!
