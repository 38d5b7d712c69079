//! Deleting folders, with a fully decoded response.

use crate::common::BaseFolderId;
use crate::common::ResponseClass;
use crate::common::ResponseCode;
use crate::operations::DecodeFail;
use crate::operations::XmlDeserialize;
use crate::operations::XmlSerialize;
use crate::reader;
use crate::reader::TargetedReader;
use crate::Error;
use vstd::prelude::*;

verus! {

use crate::common::spec_folder_id_list;
use crate::common::write_folder_id_list;
use crate::common_response::spec_one_message;
use crate::common_response::text_child;
use crate::emit;
use crate::soap::view_opt;
use crate::xml;
use crate::xml::nm;

/// How thoroughly a folder is deleted.
#[derive(Clone, Copy, Debug)]
pub enum DeleteType {
    /// Remove the folder permanently.
    HardDelete,
    /// Move the folder to the dumpster.
    SoftDelete,
    /// Move the folder to the deleted items folder.
    MoveToDeletedItems,
}

impl DeleteType {
    /// The text this variant writes on the wire.
    pub open spec fn spec_text(self) -> Seq<char> {
        match self {
            DeleteType::HardDelete => "HardDelete"@,
            DeleteType::SoftDelete => "SoftDelete"@,
            DeleteType::MoveToDeletedItems => "MoveToDeletedItems"@,
        }
    }

    /// The wire text of this variant.
    pub fn as_text(self) -> (r: &'static str)
        ensures
            r@ == self.spec_text(),
    {
        match self {
            DeleteType::HardDelete => "HardDelete",
            DeleteType::SoftDelete => "SoftDelete",
            DeleteType::MoveToDeletedItems => "MoveToDeletedItems",
        }
    }
}

/// A request to delete one or more folders.
#[derive(Clone, Debug)]
pub struct DeleteFolder {
    /// How the folders should be deleted.
    pub delete_type: DeleteType,
    /// The folders to delete.
    pub folder_ids: Vec<BaseFolderId>,
}

impl XmlSerialize for DeleteFolder {
    open spec fn spec_attrs(&self) -> Seq<u8> {
        emit::attr_str("xmlns", crate::common::MESSAGES_NS_URI@) + emit::attr_str(
            "DeleteType",
            self.delete_type.spec_text(),
        )
    }

    open spec fn spec_children(&self) -> Seq<u8> {
        emit::elem("FolderIds", Seq::empty(), spec_folder_id_list(self.folder_ids@))
    }

    fn serialize_as_element(&self, out: &mut Vec<u8>, name: &str) -> (r: Result<(), Error>) {
        let mut attrs: Vec<u8> = Vec::new();
        emit::push_attr_str(&mut attrs, "xmlns", crate::common::MESSAGES_NS_URI);
        emit::push_attr_str(&mut attrs, "DeleteType", self.delete_type.as_text());
        let mut children: Vec<u8> = Vec::new();
        let mut id_elems: Vec<u8> = Vec::new();
        write_folder_id_list(&self.folder_ids, &mut id_elems);
        emit::push_elem(&mut children, "FolderIds", Vec::new(), id_elems);
        emit::push_elem(out, name, attrs, children);
        proof {
            assert(final(out)@ =~= old(out)@ + emit::elem(
                name,
                self.spec_attrs(),
                self.spec_children(),
            ));
        }
        Ok(())
    }
}

impl crate::sealed::NamedStructure for DeleteFolder {
    open spec fn spec_name() -> Seq<char> {
        "DeleteFolder"@
    }

    fn name() -> (r: &'static str) {
        "DeleteFolder"
    }
}

impl crate::operations::Operation for DeleteFolder {
    type Response = DeleteFolderResponse;
}

/// A response to a [`DeleteFolder`] request.
#[derive(Clone, Debug, PartialEq)]
pub struct DeleteFolderResponse {
    /// One response message per requested folder.
    pub response_messages: ResponseMessages,
}

impl crate::sealed::NamedStructure for DeleteFolderResponse {
    open spec fn spec_name() -> Seq<char> {
        "DeleteFolderResponse"@
    }

    fn name() -> (r: &'static str) {
        "DeleteFolderResponse"
    }
}

impl crate::operations::OperationResponse for DeleteFolderResponse {

}

/// The response messages of a [`DeleteFolderResponse`].
#[derive(Clone, Debug, PartialEq)]
pub struct ResponseMessages {
    /// One message per requested folder.
    pub delete_folder_response_message: Vec<DeleteFolderResponseMessage>,
}

/// The outcome of deleting one folder.
#[derive(Clone, Debug, PartialEq)]
pub struct DeleteFolderResponseMessage {
    /// The status of the corresponding request.
    pub response_class: ResponseClass,
    /// A machine-readable code for a failure.
    pub response_code: Option<ResponseCode>,
    /// A human-readable explanation.
    pub message_text: Option<String>,
}

/// The decoded images of every `DeleteFolderResponseMessage` element found
/// from position `i`, in document order.
pub open spec fn spec_messages(
    d: Seq<u8>,
    i: int,
    end: int,
    acc: Seq<(ResponseClass, Option<Seq<char>>, Option<Seq<char>>)>,
) -> Result<Seq<(ResponseClass, Option<Seq<char>>, Option<Seq<char>>)>, DecodeFail>
    decreases end - i,
{
    if !(0 <= i && i <= end && end <= d.len()) {
        Err(DecodeFail::Xml)
    } else {
        proof {
            reader::lemma_locate_tag_bounds(d, i, end, nm("DeleteFolderResponseMessage"));
        }
        match reader::spec_locate_tag(d, i, end, nm("DeleteFolderResponseMessage")) {
            Err(()) => Err(DecodeFail::Xml),
            Ok(None) => Ok(acc),
            Ok(Some(p)) => match spec_one_message(d, p.1, p.2 - 1, p.2, p.3) {
                Err(f) => Err(f),
                Ok(m) => spec_messages(d, p.4, end, acc.push(m)),
            },
        }
    }
}

/// A decoded message list matches a vector of response messages.
pub open spec fn messages_match(
    ms: Seq<(ResponseClass, Option<Seq<char>>, Option<Seq<char>>)>,
    v: Seq<DeleteFolderResponseMessage>,
) -> bool {
    v.len() == ms.len() && forall|k: int|
        0 <= k < ms.len() ==> (#[trigger] v[k]).response_class == ms[k].0 && view_opt(
            v[k].response_code,
        ) == ms[k].1 && view_opt(v[k].message_text) == ms[k].2
}

impl XmlDeserialize for DeleteFolderResponse {
    /// The strict decode fails exactly where the message reading fails:
    /// on malformed markup or text, or on a message without a readable
    /// `ResponseClass` attribute.
    open spec fn spec_from_body_fail(d: Seq<u8>, lo: int, hi: int) -> Option<DecodeFail> {
        match spec_messages(d, lo, hi, Seq::empty()) {
            Err(f) => Some(f),
            Ok(_) => None,
        }
    }

    /// A decoded response holds exactly the message images the body span
    /// yields, in document order.
    open spec fn wf_from_body(d: Seq<u8>, lo: int, hi: int, v: Self) -> bool {
        match spec_messages(d, lo, hi, Seq::empty()) {
            Err(_) => false,
            Ok(ms) => messages_match(ms, v.response_messages.delete_folder_response_message@),
        }
    }

    #[verifier::loop_isolation(false)]
    fn deserialize_from_body(document: &[u8], body: TargetedReader) -> (r: Result<Self, Error>) {
        let mut rd = body;
        let ghost end = rd.end as int;
        let mut messages: Vec<DeleteFolderResponseMessage> = Vec::new();
        let ghost done: Seq<(ResponseClass, Option<Seq<char>>, Option<Seq<char>>)> = Seq::empty();
        loop
            invariant
                rd.wf(document@),
                rd.start == body.start,
                rd.end == body.end,
                rd.end as int == end,
                messages_match(done, messages@),
                spec_messages(document@, body.start as int, end, Seq::empty()) == spec_messages(
                    document@,
                    rd.pos as int,
                    end,
                    done,
                ),
            decreases end - rd.pos,
        {
            proof {
                reader::lemma_locate_tag_bounds(
                    document@,
                    rd.pos as int,
                    end,
                    nm("DeleteFolderResponseMessage"),
                );
            }
            match rd.maybe_get_tagged_subreader(
                document,
                "DeleteFolderResponseMessage".as_bytes(),
            ) {
                Err(e) => {
                    return Err(e);
                },
                Ok(None) => {
                    return Ok(
                        DeleteFolderResponse {
                            response_messages: ResponseMessages {
                                delete_folder_response_message: messages,
                            },
                        },
                    );
                },
                Ok(Some((attr_lo, attr_hi, sub))) => {
                    let response_class = if xml::has_attr(
                        document,
                        attr_lo,
                        attr_hi,
                        "ResponseClass".as_bytes(),
                        "Success".as_bytes(),
                    ) {
                        ResponseClass::Success
                    } else if xml::has_attr(
                        document,
                        attr_lo,
                        attr_hi,
                        "ResponseClass".as_bytes(),
                        "Warning".as_bytes(),
                    ) {
                        ResponseClass::Warning
                    } else if xml::has_attr(
                        document,
                        attr_lo,
                        attr_hi,
                        "ResponseClass".as_bytes(),
                        "Error".as_bytes(),
                    ) {
                        ResponseClass::Error
                    } else {
                        return Err(Error::Deserialize);
                    };
                    let response_code = match text_child(document, &sub, "ResponseCode".as_bytes())
                    {
                        Err(e) => {
                            return Err(e);
                        },
                        Ok(t) => t,
                    };
                    let message_text = match text_child(document, &sub, "MessageText".as_bytes()) {
                        Err(e) => {
                            return Err(e);
                        },
                        Ok(t) => t,
                    };
                    let m = DeleteFolderResponseMessage {
                        response_class,
                        response_code,
                        message_text,
                    };
                    messages.push(m);
                    proof {
                        done = done.push(
                            spec_one_message(
                                document@,
                                attr_lo as int,
                                attr_hi as int,
                                sub.start as int,
                                sub.end as int,
                            )->Ok_0,
                        );
                    }
                },
            }
        }
    }
}

} // verus!
