//! Types shared by several operations: folder and item identifiers, shape
//! selectors, and the namespace constants of the wire format.

use crate::operations::XmlSerialize;
use crate::Error;
use vstd::prelude::*;

verus! {

use crate::emit;

/// Namespace for the protocol's message elements.
pub const MESSAGES_NS_URI: &'static str =
    "http://schemas.microsoft.com/exchange/services/2006/messages";

/// Namespace of the SOAP envelope.
pub const SOAP_NS_URI: &'static str = "http://schemas.xmlsoap.org/soap/envelope/";

/// Namespace for the protocol's shared type elements.
pub const TYPES_NS_URI: &'static str = "http://schemas.microsoft.com/exchange/services/2006/types";

/// The base set of properties to be returned for a folder or item.
#[derive(Clone, Copy, Debug)]
pub enum BaseShape {
    /// Only the identifier.
    IdOnly,
    /// The default property set.
    Default,
    /// All properties.
    AllProperties,
}

impl BaseShape {
    /// The text this variant writes on the wire.
    pub open spec fn spec_text(self) -> Seq<char> {
        match self {
            BaseShape::IdOnly => "IdOnly"@,
            BaseShape::Default => "Default"@,
            BaseShape::AllProperties => "AllProperties"@,
        }
    }

    /// The wire text of this variant.
    pub fn as_text(self) -> (r: &'static str)
        ensures
            r@ == self.spec_text(),
    {
        match self {
            BaseShape::IdOnly => "IdOnly",
            BaseShape::Default => "Default",
            BaseShape::AllProperties => "AllProperties",
        }
    }
}

/// The folder properties which should be included in a response.
#[derive(Clone, Copy, Debug)]
pub struct FolderShape {
    /// The base property set to return.
    pub base_shape: BaseShape,
}

impl FolderShape {
    /// The rendered child content: one `t:BaseShape` text element.
    pub open spec fn spec_content(self) -> Seq<u8> {
        emit::text_elem("t:BaseShape", self.base_shape.spec_text())
    }

    /// Appends the child content of this shape.
    pub fn write_content(&self, out: &mut Vec<u8>)
        ensures
            final(out)@ == old(out)@ + self.spec_content(),
    {
        emit::push_text_elem(out, "t:BaseShape", self.base_shape.as_text());
    }
}

impl XmlSerialize for FolderShape {
    open spec fn spec_attrs(&self) -> Seq<u8> {
        Seq::empty()
    }

    open spec fn spec_children(&self) -> Seq<u8> {
        self.spec_content()
    }

    fn serialize_as_element(&self, out: &mut Vec<u8>, name: &str) -> (r: Result<(), Error>) {
        let mut children: Vec<u8> = Vec::new();
        self.write_content(&mut children);
        emit::push_elem(out, name, Vec::new(), children);
        Ok(())
    }
}

/// The item properties which should be included in a response.
#[derive(Clone, Copy, Debug)]
pub struct ItemShape {
    /// The base property set to return.
    pub base_shape: BaseShape,
    /// Whether the response should carry the item's MIME content.
    pub include_mime_content: Option<bool>,
}

impl ItemShape {
    /// The rendered child content: the base shape, then the optional MIME
    /// content switch.
    pub open spec fn spec_content(self) -> Seq<u8> {
        emit::text_elem("t:BaseShape", self.base_shape.spec_text()) + match self
            .include_mime_content {
            Some(b) => emit::text_elem(
                "t:IncludeMimeContent",
                if b {
                    "true"@
                } else {
                    "false"@
                },
            ),
            None => Seq::empty(),
        }
    }

    /// Appends the child content of this shape.
    pub fn write_content(&self, out: &mut Vec<u8>)
        ensures
            final(out)@ == old(out)@ + self.spec_content(),
    {
        emit::push_text_elem(out, "t:BaseShape", self.base_shape.as_text());
        match self.include_mime_content {
            Some(b) => {
                emit::push_text_elem(
                    out,
                    "t:IncludeMimeContent",
                    if b {
                        "true"
                    } else {
                        "false"
                    },
                );
            },
            None => {},
        }
        proof {
            assert(final(out)@ =~= old(out)@ + self.spec_content());
        }
    }
}

impl XmlSerialize for ItemShape {
    open spec fn spec_attrs(&self) -> Seq<u8> {
        Seq::empty()
    }

    open spec fn spec_children(&self) -> Seq<u8> {
        self.spec_content()
    }

    fn serialize_as_element(&self, out: &mut Vec<u8>, name: &str) -> (r: Result<(), Error>) {
        let mut children: Vec<u8> = Vec::new();
        self.write_content(&mut children);
        emit::push_elem(out, name, Vec::new(), children);
        Ok(())
    }
}

/// An identifier for a remote folder.
#[derive(Clone, Debug, PartialEq)]
pub struct FolderId {
    /// The opaque folder identifier.
    pub id: String,
    /// The change key, when a specific revision is meant.
    pub change_key: Option<String>,
}

impl FolderId {
    /// The rendered identifier attributes: `Id`, then `ChangeKey` when
    /// present.
    pub open spec fn spec_id_attrs(self) -> Seq<u8> {
        emit::attr_str("Id", self.id@) + match self.change_key {
            Some(ck) => emit::attr_str("ChangeKey", ck@),
            None => Seq::empty(),
        }
    }

    /// Appends the identifier attributes.
    pub fn write_id_attrs(&self, out: &mut Vec<u8>)
        ensures
            final(out)@ == old(out)@ + self.spec_id_attrs(),
    {
        emit::push_attr_str(out, "Id", self.id.as_str());
        match &self.change_key {
            Some(ck) => {
                emit::push_attr_str(out, "ChangeKey", ck.as_str());
            },
            None => {},
        }
        proof {
            assert(final(out)@ =~= old(out)@ + self.spec_id_attrs());
        }
    }
}

/// An identifier for a remote folder, by opaque identifier or by
/// distinguished name such as `inbox`.
#[derive(Clone, Debug)]
pub enum BaseFolderId {
    /// An identifier for an arbitrary folder.
    FolderId(FolderId),
    /// An identifier referencing a well-known folder by name.
    DistinguishedFolderId(FolderId),
}

impl BaseFolderId {
    /// The rendered identifier element: `t:FolderId` or
    /// `t:DistinguishedFolderId`, carrying the identifier attributes.
    pub open spec fn spec_elem(self) -> Seq<u8> {
        match self {
            BaseFolderId::FolderId(f) => emit::elem("t:FolderId", f.spec_id_attrs(), Seq::empty()),
            BaseFolderId::DistinguishedFolderId(f) => emit::elem(
                "t:DistinguishedFolderId",
                f.spec_id_attrs(),
                Seq::empty(),
            ),
        }
    }

    /// Appends this identifier as its own element.
    pub fn write_elem(&self, out: &mut Vec<u8>)
        ensures
            final(out)@ == old(out)@ + self.spec_elem(),
    {
        match self {
            BaseFolderId::FolderId(f) => {
                let mut attrs: Vec<u8> = Vec::new();
                f.write_id_attrs(&mut attrs);
                emit::push_elem(out, "t:FolderId", attrs, Vec::new());
            },
            BaseFolderId::DistinguishedFolderId(f) => {
                let mut attrs: Vec<u8> = Vec::new();
                f.write_id_attrs(&mut attrs);
                emit::push_elem(out, "t:DistinguishedFolderId", attrs, Vec::new());
            },
        }
    }
}

/// The rendered concatenation of a list of folder identifier elements.
pub open spec fn spec_folder_id_list(items: Seq<BaseFolderId>) -> Seq<u8>
    decreases items.len(),
{
    if items.len() == 0 {
        Seq::empty()
    } else {
        spec_folder_id_list(items.drop_last()) + items.last().spec_elem()
    }
}

/// Appends every folder identifier element of a list, in order.
pub fn write_folder_id_list(items: &Vec<BaseFolderId>, out: &mut Vec<u8>)
    ensures
        final(out)@ == old(out)@ + spec_folder_id_list(items@),
{
    let n = items.len();
    let mut k: usize = 0;
    while k < n
        invariant
            n == items@.len(),
            0 <= k <= n,
            out@ == old(out)@ + spec_folder_id_list(items@.subrange(0, k as int)),
        decreases n - k,
    {
        items[k].write_elem(out);
        proof {
            assert(items@.subrange(0, k + 1).drop_last() =~= items@.subrange(0, k as int));
            assert(items@.subrange(0, k + 1).last() == items@[k as int]);
        }
        k = k + 1;
    }
    proof {
        assert(items@.subrange(0, n as int) =~= items@);
    }
}

/// An identifier for a remote item.
#[derive(Clone, Debug)]
pub enum BaseItemId {
    /// An identifier for an arbitrary item.
    ItemId {
        /// The opaque item identifier.
        id: String,
        /// The change key, when a specific revision is meant.
        change_key: Option<String>,
    },
}

impl BaseItemId {
    /// The rendered identifier element `t:ItemId`.
    pub open spec fn spec_elem(self) -> Seq<u8> {
        match self {
            BaseItemId::ItemId { id, change_key } => emit::elem(
                "t:ItemId",
                emit::attr_str("Id", id@) + match change_key {
                    Some(ck) => emit::attr_str("ChangeKey", ck@),
                    None => Seq::empty(),
                },
                Seq::empty(),
            ),
        }
    }

    /// Appends this identifier as its own element.
    pub fn write_elem(&self, out: &mut Vec<u8>)
        ensures
            final(out)@ == old(out)@ + self.spec_elem(),
    {
        match self {
            BaseItemId::ItemId { id, change_key } => {
                let mut attrs: Vec<u8> = Vec::new();
                emit::push_attr_str(&mut attrs, "Id", id.as_str());
                match change_key {
                    Some(ck) => {
                        emit::push_attr_str(&mut attrs, "ChangeKey", ck.as_str());
                    },
                    None => {},
                }
                emit::push_elem(out, "t:ItemId", attrs, Vec::new());
            },
        }
    }
}

/// The rendered concatenation of a list of item identifier elements.
pub open spec fn spec_item_id_list(items: Seq<BaseItemId>) -> Seq<u8>
    decreases items.len(),
{
    if items.len() == 0 {
        Seq::empty()
    } else {
        spec_item_id_list(items.drop_last()) + items.last().spec_elem()
    }
}

/// Appends every item identifier element of a list, in order.
pub fn write_item_id_list(items: &Vec<BaseItemId>, out: &mut Vec<u8>)
    ensures
        final(out)@ == old(out)@ + spec_item_id_list(items@),
{
    let n = items.len();
    let mut k: usize = 0;
    while k < n
        invariant
            n == items@.len(),
            0 <= k <= n,
            out@ == old(out)@ + spec_item_id_list(items@.subrange(0, k as int)),
        decreases n - k,
    {
        items[k].write_elem(out);
        proof {
            assert(items@.subrange(0, k + 1).drop_last() =~= items@.subrange(0, k as int));
            assert(items@.subrange(0, k + 1).last() == items@[k as int]);
        }
        k = k + 1;
    }
    proof {
        assert(items@.subrange(0, n as int) =~= items@);
    }
}

/// The status of one request within a response.
#[derive(Clone, Copy, Debug, PartialEq)]
pub enum ResponseClass {
    /// The request succeeded.
    Success,
    /// The request succeeded with a caveat.
    Warning,
    /// The request failed.
    Error,
}

/// A machine-readable response code, as its wire text.
pub type ResponseCode = String;

/// The unique identifier of an item, as a response reports it.
#[derive(Clone, Debug, PartialEq)]
pub struct ItemId {
    /// The opaque item identifier.
    pub id: String,
    /// The change key of the reported revision.
    pub change_key: Option<String>,
}

/// An item as a response reports it.
#[derive(Clone, Debug, PartialEq)]
pub enum RealItem {
    /// An email message.
    Message {
        /// The identifier of the message.
        item_id: Option<ItemId>,
        /// The subject line.
        subject: Option<String>,
    },
}

/// A collection of responses for individual entities within a request.
#[derive(Clone, Debug)]
pub struct ResponseMessages<T> {
    /// One response per requested entity.
    pub value: Vec<T>,
}

/// Information on a remote folder, by folder kind.
#[derive(Clone, Debug, PartialEq)]
pub enum Folder {
    /// A calendar folder.
    CalendarFolder {
        /// The folder's identifier.
        folder_id: FolderId,
        /// The identifier of its parent.
        parent_folder_id: Option<FolderId>,
        /// The folder class string.
        folder_class: Option<String>,
        /// The display name.
        display_name: Option<String>,
        /// How many items the folder holds.
        total_count: Option<u32>,
        /// How many child folders it holds.
        child_folder_count: Option<u32>,
    },
    /// A contacts folder.
    ContactsFolder {
        /// The folder's identifier.
        folder_id: FolderId,
        /// The identifier of its parent.
        parent_folder_id: Option<FolderId>,
        /// The folder class string.
        folder_class: Option<String>,
        /// The display name.
        display_name: Option<String>,
        /// How many items the folder holds.
        total_count: Option<u32>,
        /// How many child folders it holds.
        child_folder_count: Option<u32>,
    },
    /// A general-purpose mail folder.
    Folder {
        /// The folder's identifier.
        folder_id: FolderId,
        /// The identifier of its parent.
        parent_folder_id: Option<FolderId>,
        /// The folder class string.
        folder_class: Option<String>,
        /// The display name.
        display_name: Option<String>,
        /// How many items the folder holds.
        total_count: Option<u32>,
        /// How many child folders it holds.
        child_folder_count: Option<u32>,
        /// How many items are unread.
        unread_count: Option<u32>,
    },
    /// A search folder.
    SearchFolder {
        /// The folder's identifier.
        folder_id: FolderId,
        /// The identifier of its parent.
        parent_folder_id: Option<FolderId>,
        /// The folder class string.
        folder_class: Option<String>,
        /// The display name.
        display_name: Option<String>,
        /// How many items the folder holds.
        total_count: Option<u32>,
        /// How many child folders it holds.
        child_folder_count: Option<u32>,
    },
    /// A tasks folder.
    TasksFolder {
        /// The folder's identifier.
        folder_id: FolderId,
        /// The identifier of its parent.
        parent_folder_id: Option<FolderId>,
        /// The folder class string.
        folder_class: Option<String>,
        /// The display name.
        display_name: Option<String>,
        /// How many items the folder holds.
        total_count: Option<u32>,
        /// How many child folders it holds.
        child_folder_count: Option<u32>,
    },
}

/// The MIME content of an item.
#[derive(Clone, Debug, PartialEq)]
pub struct MimeContent {
    /// The character set the content is encoded in.
    pub character_set: Option<String>,
    /// The base64-encoded content itself.
    pub content: String,
}

/// A mailbox taking part in a message exchange.
#[derive(Clone, Debug, PartialEq)]
pub struct Mailbox {
    /// The display name.
    pub name: Option<String>,
    /// The address itself.
    pub email_address: Option<String>,
    /// The routing protocol of the address.
    pub routing_type: Option<String>,
}

/// One recipient of a message.
#[derive(Clone, Debug, PartialEq)]
pub struct Recipient {
    /// The recipient's mailbox.
    pub mailbox: Mailbox,
}

/// A list of message recipients.
#[derive(Clone, Debug, PartialEq)]
pub struct ArrayOfRecipients(pub Vec<Recipient>);

/// A reference to a property of an item or folder.
#[derive(Clone, Debug)]
pub enum PathToElement {
    /// A property referenced by well-known URI.
    FieldURI {
        /// The well-known URI of the property.
        field_uri: String,
    },
}

impl PathToElement {
    /// The rendered reference element `t:FieldURI`.
    pub open spec fn spec_elem(self) -> Seq<u8> {
        match self {
            PathToElement::FieldURI { field_uri } => emit::elem(
                "t:FieldURI",
                emit::attr_str("FieldURI", field_uri@),
                Seq::empty(),
            ),
        }
    }

    /// Appends this reference as its own element.
    pub fn write_elem(&self, out: &mut Vec<u8>)
        ensures
            final(out)@ == old(out)@ + self.spec_elem(),
    {
        match self {
            PathToElement::FieldURI { field_uri } => {
                let mut attrs: Vec<u8> = Vec::new();
                emit::push_attr_str(&mut attrs, "FieldURI", field_uri.as_str());
                emit::push_elem(out, "t:FieldURI", attrs, Vec::new());
            },
        }
    }
}

/// A message as placed inside an update, carrying the one field value the
/// update sets.
#[derive(Clone, Debug)]
pub struct Message {
    /// Whether the message is marked read.
    pub is_read: Option<bool>,
}

impl Message {
    /// The rendered child content: the optional read flag.
    pub open spec fn spec_content(self) -> Seq<u8> {
        match self.is_read {
            Some(b) => emit::text_elem(
                "t:IsRead",
                if b {
                    "true"@
                } else {
                    "false"@
                },
            ),
            None => Seq::empty(),
        }
    }

    /// Appends this message as its own `t:Message` element.
    pub fn write_elem(&self, out: &mut Vec<u8>)
        ensures
            final(out)@ == old(out)@ + emit::elem("t:Message", Seq::empty(), self.spec_content()),
    {
        let mut children: Vec<u8> = Vec::new();
        match self.is_read {
            Some(b) => {
                emit::push_text_elem(
                    &mut children,
                    "t:IsRead",
                    if b {
                        "true"
                    } else {
                        "false"
                    },
                );
            },
            None => {},
        }
        emit::push_elem(out, "t:Message", Vec::new(), children);
    }
}

} // verus!
