//! Updating properties of existing folders.

use crate::common::BaseFolderId;
use crate::common::ResponseClass;
use crate::common::ResponseCode;
use crate::operations::DecodeFail;
use crate::operations::XmlDeserialize;
use crate::operations::XmlSerialize;
use crate::reader;
use crate::reader::TargetedReader;
use crate::Error;
use vstd::prelude::*;

verus! {

use crate::common_response::spec_one_message;
use crate::common_response::text_child;
use crate::emit;
use crate::soap::view_opt;
use crate::xml;
use crate::xml::nm;

/// The kind of update to perform on a folder.
#[derive(Clone, Copy, Debug)]
pub enum Updates {
    /// Append a value to a folder field.
    AppendToFolderField,
    /// Set a folder field.
    SetFolderField,
    /// Delete a folder field.
    DeleteFolderField,
}

impl Updates {
    /// The text this variant writes on the wire.
    pub open spec fn spec_text(self) -> Seq<char> {
        match self {
            Updates::AppendToFolderField => "AppendToFolderField"@,
            Updates::SetFolderField => "SetFolderField"@,
            Updates::DeleteFolderField => "DeleteFolderField"@,
        }
    }

    /// The wire text of this variant.
    pub fn as_text(self) -> (r: &'static str)
        ensures
            r@ == self.spec_text(),
    {
        match self {
            Updates::AppendToFolderField => "AppendToFolderField",
            Updates::SetFolderField => "SetFolderField",
            Updates::DeleteFolderField => "DeleteFolderField",
        }
    }
}

/// A change to be performed on one folder.
#[derive(Clone, Debug)]
pub struct FolderChange {
    /// The folder to be updated.
    pub folder_id: BaseFolderId,
    /// The update to be performed on it.
    pub updates: Updates,
}

impl FolderChange {
    /// The rendered `FolderChange` element: the folder identifier element
    /// itself, then the update kind as a text element.
    pub open spec fn spec_elem(self) -> Seq<u8> {
        emit::elem(
            "FolderChange",
            emit::attr_str("xmlns", crate::common::MESSAGES_NS_URI@),
            self.folder_id.spec_elem() + emit::text_elem("Updates", self.updates.spec_text()),
        )
    }

    /// Appends this change as its own element.
    pub fn write_elem(&self, out: &mut Vec<u8>)
        ensures
            final(out)@ == old(out)@ + self.spec_elem(),
    {
        let mut attrs: Vec<u8> = Vec::new();
        emit::push_attr_str(&mut attrs, "xmlns", crate::common::MESSAGES_NS_URI);
        let mut children: Vec<u8> = Vec::new();
        self.folder_id.write_elem(&mut children);
        emit::push_text_elem(&mut children, "Updates", self.updates.as_text());
        emit::push_elem(out, "FolderChange", attrs, children);
    }
}

/// A collection of changes to be performed on folders.
#[derive(Clone, Debug)]
pub struct FolderChanges {
    /// The changes themselves.
    pub folder_change: Vec<FolderChange>,
}

/// The rendered concatenation of a list of folder change elements.
pub open spec fn spec_folder_change_list(items: Seq<FolderChange>) -> Seq<u8>
    decreases items.len(),
{
    if items.len() == 0 {
        Seq::empty()
    } else {
        spec_folder_change_list(items.drop_last()) + items.last().spec_elem()
    }
}

/// Appends every folder change element of a list, in order.
pub fn write_folder_change_list(items: &Vec<FolderChange>, out: &mut Vec<u8>)
    ensures
        final(out)@ == old(out)@ + spec_folder_change_list(items@),
{
    let n = items.len();
    let mut k: usize = 0;
    while k < n
        invariant
            n == items@.len(),
            0 <= k <= n,
            out@ == old(out)@ + spec_folder_change_list(items@.subrange(0, k as int)),
        decreases n - k,
    {
        items[k].write_elem(out);
        proof {
            assert(items@.subrange(0, k + 1).drop_last() =~= items@.subrange(0, k as int));
            assert(items@.subrange(0, k + 1).last() == items@[k as int]);
        }
        k = k + 1;
    }
    proof {
        assert(items@.subrange(0, n as int) =~= items@);
    }
}

impl XmlSerialize for FolderChanges {
    open spec fn spec_attrs(&self) -> Seq<u8> {
        Seq::empty()
    }

    open spec fn spec_children(&self) -> Seq<u8> {
        spec_folder_change_list(self.folder_change@)
    }

    fn serialize_as_element(&self, out: &mut Vec<u8>, name: &str) -> (r: Result<(), Error>) {
        let mut children: Vec<u8> = Vec::new();
        write_folder_change_list(&self.folder_change, &mut children);
        emit::push_elem(out, name, Vec::new(), children);
        Ok(())
    }
}

/// An operation to update given properties of specified folders.
#[derive(Clone, Debug)]
pub struct UpdateFolder {
    /// The changes to perform.
    pub folder_changes: FolderChanges,
}

impl XmlSerialize for UpdateFolder {
    open spec fn spec_attrs(&self) -> Seq<u8> {
        emit::attr_str("xmlns", crate::common::MESSAGES_NS_URI@)
    }

    open spec fn spec_children(&self) -> Seq<u8> {
        emit::elem(
            "FolderChanges",
            Seq::empty(),
            spec_folder_change_list(self.folder_changes.folder_change@),
        )
    }

    fn serialize_as_element(&self, out: &mut Vec<u8>, name: &str) -> (r: Result<(), Error>) {
        let mut attrs: Vec<u8> = Vec::new();
        emit::push_attr_str(&mut attrs, "xmlns", crate::common::MESSAGES_NS_URI);
        let mut children: Vec<u8> = Vec::new();
        let mut changes: Vec<u8> = Vec::new();
        write_folder_change_list(&self.folder_changes.folder_change, &mut changes);
        emit::push_elem(&mut children, "FolderChanges", Vec::new(), changes);
        emit::push_elem(out, name, attrs, children);
        proof {
            assert(final(out)@ =~= old(out)@ + emit::elem(
                name,
                self.spec_attrs(),
                self.spec_children(),
            ));
        }
        Ok(())
    }
}

impl crate::sealed::NamedStructure for UpdateFolder {
    open spec fn spec_name() -> Seq<char> {
        "UpdateFolder"@
    }

    fn name() -> (r: &'static str) {
        "UpdateFolder"
    }
}

impl crate::operations::Operation for UpdateFolder {
    type Response = UpdateFolderResponse;
}

/// A response to an [`UpdateFolder`] request.
#[derive(Clone, Debug, PartialEq)]
pub struct UpdateFolderResponse {
    /// One response message per changed folder.
    pub response_messages: ResponseMessages,
}

impl crate::sealed::NamedStructure for UpdateFolderResponse {
    open spec fn spec_name() -> Seq<char> {
        "UpdateFolderResponse"@
    }

    fn name() -> (r: &'static str) {
        "UpdateFolderResponse"
    }
}

impl crate::operations::OperationResponse for UpdateFolderResponse {

}

/// The response messages of an [`UpdateFolderResponse`].
#[derive(Clone, Debug, PartialEq)]
pub struct ResponseMessages {
    /// One message per changed folder.
    pub update_folder_response_message: Vec<UpdateFolderResponseMessage>,
}

/// The outcome of updating one folder.
#[derive(Clone, Debug, PartialEq)]
pub struct UpdateFolderResponseMessage {
    /// The status of the corresponding request.
    pub response_class: ResponseClass,
    /// A machine-readable code for a failure.
    pub response_code: Option<ResponseCode>,
    /// A human-readable explanation.
    pub message_text: Option<String>,
}

/// The decoded images of every `UpdateFolderResponseMessage` element found
/// from position `i`, in document order.
pub open spec fn spec_uf_messages(
    d: Seq<u8>,
    i: int,
    end: int,
    acc: Seq<(ResponseClass, Option<Seq<char>>, Option<Seq<char>>)>,
) -> Result<Seq<(ResponseClass, Option<Seq<char>>, Option<Seq<char>>)>, DecodeFail>
    decreases end - i,
{
    if !(0 <= i && i <= end && end <= d.len()) {
        Err(DecodeFail::Xml)
    } else {
        proof {
            reader::lemma_locate_tag_bounds(d, i, end, nm("UpdateFolderResponseMessage"));
        }
        match reader::spec_locate_tag(d, i, end, nm("UpdateFolderResponseMessage")) {
            Err(()) => Err(DecodeFail::Xml),
            Ok(None) => Ok(acc),
            Ok(Some(p)) => match spec_one_message(d, p.1, p.2 - 1, p.2, p.3) {
                Err(f) => Err(f),
                Ok(m) => spec_uf_messages(d, p.4, end, acc.push(m)),
            },
        }
    }
}

/// A decoded message list matches a vector of response messages.
pub open spec fn uf_messages_match(
    ms: Seq<(ResponseClass, Option<Seq<char>>, Option<Seq<char>>)>,
    v: Seq<UpdateFolderResponseMessage>,
) -> bool {
    v.len() == ms.len() && forall|k: int|
        0 <= k < ms.len() ==> (#[trigger] v[k]).response_class == ms[k].0 && view_opt(
            v[k].response_code,
        ) == ms[k].1 && view_opt(v[k].message_text) == ms[k].2
}

impl XmlDeserialize for UpdateFolderResponse {
    /// The strict decode fails exactly where the message reading fails:
    /// on malformed markup or text, or on a message without a readable
    /// `ResponseClass` attribute.
    open spec fn spec_from_body_fail(d: Seq<u8>, lo: int, hi: int) -> Option<DecodeFail> {
        match spec_uf_messages(d, lo, hi, Seq::empty()) {
            Err(f) => Some(f),
            Ok(_) => None,
        }
    }

    /// A decoded response holds exactly the message images the body span
    /// yields, in document order.
    open spec fn wf_from_body(d: Seq<u8>, lo: int, hi: int, v: Self) -> bool {
        match spec_uf_messages(d, lo, hi, Seq::empty()) {
            Err(_) => false,
            Ok(ms) => uf_messages_match(ms, v.response_messages.update_folder_response_message@),
        }
    }

    #[verifier::loop_isolation(false)]
    fn deserialize_from_body(document: &[u8], body: TargetedReader) -> (r: Result<Self, Error>) {
        let mut rd = body;
        let ghost end = rd.end as int;
        let mut messages: Vec<UpdateFolderResponseMessage> = Vec::new();
        let ghost done: Seq<(ResponseClass, Option<Seq<char>>, Option<Seq<char>>)> = Seq::empty();
        loop
            invariant
                rd.wf(document@),
                rd.start == body.start,
                rd.end == body.end,
                rd.end as int == end,
                uf_messages_match(done, messages@),
                spec_uf_messages(document@, body.start as int, end, Seq::empty())
                    == spec_uf_messages(document@, rd.pos as int, end, done),
            decreases end - rd.pos,
        {
            proof {
                reader::lemma_locate_tag_bounds(
                    document@,
                    rd.pos as int,
                    end,
                    nm("UpdateFolderResponseMessage"),
                );
            }
            match rd.maybe_get_tagged_subreader(
                document,
                "UpdateFolderResponseMessage".as_bytes(),
            ) {
                Err(e) => {
                    return Err(e);
                },
                Ok(None) => {
                    return Ok(
                        UpdateFolderResponse {
                            response_messages: ResponseMessages {
                                update_folder_response_message: messages,
                            },
                        },
                    );
                },
                Ok(Some((attr_lo, attr_hi, sub))) => {
                    let response_class = if xml::has_attr(
                        document,
                        attr_lo,
                        attr_hi,
                        "ResponseClass".as_bytes(),
                        "Success".as_bytes(),
                    ) {
                        ResponseClass::Success
                    } else if xml::has_attr(
                        document,
                        attr_lo,
                        attr_hi,
                        "ResponseClass".as_bytes(),
                        "Warning".as_bytes(),
                    ) {
                        ResponseClass::Warning
                    } else if xml::has_attr(
                        document,
                        attr_lo,
                        attr_hi,
                        "ResponseClass".as_bytes(),
                        "Error".as_bytes(),
                    ) {
                        ResponseClass::Error
                    } else {
                        return Err(Error::Deserialize);
                    };
                    let response_code = match text_child(document, &sub, "ResponseCode".as_bytes())
                    {
                        Err(e) => {
                            return Err(e);
                        },
                        Ok(t) => t,
                    };
                    let message_text = match text_child(document, &sub, "MessageText".as_bytes()) {
                        Err(e) => {
                            return Err(e);
                        },
                        Ok(t) => t,
                    };
                    let m = UpdateFolderResponseMessage {
                        response_class,
                        response_code,
                        message_text,
                    };
                    messages.push(m);
                    proof {
                        done = done.push(
                            spec_one_message(
                                document@,
                                attr_lo as int,
                                attr_hi as int,
                                sub.start as int,
                                sub.end as int,
                            )->Ok_0,
                        );
                    }
                },
            }
        }
    }
}

} // verus!
