//! Creating (and optionally sending) items.

use crate::common::ArrayOfRecipients;
use crate::common::BaseFolderId;
use crate::common::MimeContent;
use crate::common::ResponseClass;
use crate::common::ResponseCode;
use crate::operations::XmlSerialize;
use crate::Error;
use vstd::prelude::*;

verus! {

use crate::emit;

/// The action a server takes upon creating a message item.
#[derive(Clone, Copy, Debug)]
pub enum MessageDisposition {
    /// Save the item without sending it.
    SaveOnly,
    /// Send the item without saving a copy.
    SendOnly,
    /// Send the item and save a copy.
    SendAndSaveCopy,
}

impl MessageDisposition {
    /// The text this variant writes on the wire.
    pub open spec fn spec_text(self) -> Seq<char> {
        match self {
            MessageDisposition::SaveOnly => "SaveOnly"@,
            MessageDisposition::SendOnly => "SendOnly"@,
            MessageDisposition::SendAndSaveCopy => "SendAndSaveCopy"@,
        }
    }

    /// The wire text of this variant.
    pub fn as_text(self) -> (r: &'static str)
        ensures
            r@ == self.spec_text(),
    {
        match self {
            MessageDisposition::SaveOnly => "SaveOnly",
            MessageDisposition::SendOnly => "SendOnly",
            MessageDisposition::SendAndSaveCopy => "SendAndSaveCopy",
        }
    }
}

/// A well-known identifier for a property set.
#[derive(Clone, Copy, Debug)]
pub enum DistinguishedPropertySet {
    /// The common property set.
    Common,
    /// The public strings property set.
    PublicStrings,
    /// The address property set.
    Address,
}

impl DistinguishedPropertySet {
    /// The text this variant writes on the wire.
    pub open spec fn spec_text(self) -> Seq<char> {
        match self {
            DistinguishedPropertySet::Common => "Common"@,
            DistinguishedPropertySet::PublicStrings => "PublicStrings"@,
            DistinguishedPropertySet::Address => "Address"@,
        }
    }

    /// The wire text of this variant.
    pub fn as_text(self) -> (r: &'static str)
        ensures
            r@ == self.spec_text(),
    {
        match self {
            DistinguishedPropertySet::Common => "Common",
            DistinguishedPropertySet::PublicStrings => "PublicStrings",
            DistinguishedPropertySet::Address => "Address",
        }
    }
}

/// The value type of an extended property.
#[derive(Clone, Copy, Debug)]
pub enum PropertyType {
    /// A text value.
    String,
    /// An integer value.
    Integer,
    /// A boolean value.
    Boolean,
    /// A timestamp value.
    SystemTime,
}

impl PropertyType {
    /// The text this variant writes on the wire.
    pub open spec fn spec_text(self) -> Seq<char> {
        match self {
            PropertyType::String => "String"@,
            PropertyType::Integer => "Integer"@,
            PropertyType::Boolean => "Boolean"@,
            PropertyType::SystemTime => "SystemTime"@,
        }
    }

    /// The wire text of this variant.
    pub fn as_text(self) -> (r: &'static str)
        ensures
            r@ == self.spec_text(),
    {
        match self {
            PropertyType::String => "String",
            PropertyType::Integer => "Integer",
            PropertyType::Boolean => "Boolean",
            PropertyType::SystemTime => "SystemTime",
        }
    }
}

/// The identifier for an extended MAPI property.
#[derive(Clone, Debug)]
pub struct ExtendedFieldURI {
    /// A well-known identifier for a property set.
    pub distinguished_property_set_id: Option<DistinguishedPropertySet>,
    /// A GUID representing a property set.
    pub property_set_id: Option<String>,
    /// A property referenced by integer tag.
    pub property_tag: Option<String>,
    /// The name of a property within its set.
    pub property_name: Option<String>,
    /// The dispatch identifier of a property within its set.
    pub property_id: Option<String>,
    /// The value type of the property.
    pub property_type: PropertyType,
}

impl ExtendedFieldURI {
    /// The rendered attributes of the reference element.
    pub open spec fn spec_field_attrs(self) -> Seq<u8> {
        (match self.distinguished_property_set_id {
            Some(v) => emit::attr_str("DistinguishedPropertySetId", v.spec_text()),
            None => Seq::empty(),
        }) + (match self.property_set_id {
            Some(v) => emit::attr_str("PropertySetId", v@),
            None => Seq::empty(),
        }) + (match self.property_tag {
            Some(v) => emit::attr_str("PropertyTag", v@),
            None => Seq::empty(),
        }) + (match self.property_name {
            Some(v) => emit::attr_str("PropertyName", v@),
            None => Seq::empty(),
        }) + (match self.property_id {
            Some(v) => emit::attr_str("PropertyId", v@),
            None => Seq::empty(),
        }) + emit::attr_str("PropertyType", self.property_type.spec_text())
    }

    /// Appends the attributes of the reference element.
    pub fn write_field_attrs(&self, out: &mut Vec<u8>)
        ensures
            final(out)@ == old(out)@ + self.spec_field_attrs(),
    {
        let mut acc: Vec<u8> = Vec::new();
        match &self.distinguished_property_set_id {
            Some(v) => emit::push_attr_str(&mut acc, "DistinguishedPropertySetId", v.as_text()),
            None => {},
        }
        match &self.property_set_id {
            Some(v) => emit::push_attr_str(&mut acc, "PropertySetId", v.as_str()),
            None => {},
        }
        match &self.property_tag {
            Some(v) => emit::push_attr_str(&mut acc, "PropertyTag", v.as_str()),
            None => {},
        }
        match &self.property_name {
            Some(v) => emit::push_attr_str(&mut acc, "PropertyName", v.as_str()),
            None => {},
        }
        match &self.property_id {
            Some(v) => emit::push_attr_str(&mut acc, "PropertyId", v.as_str()),
            None => {},
        }
        emit::push_attr_str(&mut acc, "PropertyType", self.property_type.as_text());
        proof {
            assert(acc@ == self.spec_field_attrs());
        }
        let mut acc = acc;
        out.append(&mut acc);
    }
}

/// An extended MAPI property to set on a message.
#[derive(Clone, Debug)]
pub struct ExtendedProperty {
    /// The property being set.
    pub extended_field_uri: ExtendedFieldURI,
    /// The value to set.
    pub value: String,
}

impl ExtendedProperty {
    /// The rendered `t:ExtendedProperty` element.
    pub open spec fn spec_elem(self) -> Seq<u8> {
        emit::elem(
            "t:ExtendedProperty",
            Seq::empty(),
            emit::elem("t:ExtendedFieldURI", self.extended_field_uri.spec_field_attrs(), Seq::empty())
                + emit::text_elem("t:Value", self.value@),
        )
    }

    /// Appends this property as its own element.
    pub fn write_elem(&self, out: &mut Vec<u8>)
        ensures
            final(out)@ == old(out)@ + self.spec_elem(),
    {
        let mut children: Vec<u8> = Vec::new();
        let mut attrs: Vec<u8> = Vec::new();
        self.extended_field_uri.write_field_attrs(&mut attrs);
        emit::push_elem(&mut children, "t:ExtendedFieldURI", attrs, Vec::new());
        emit::push_text_elem(&mut children, "t:Value", self.value.as_str());
        emit::push_elem(out, "t:ExtendedProperty", Vec::new(), children);
        proof {
            assert(final(out)@ =~= old(out)@ + self.spec_elem());
        }
    }
}

/// The rendered concatenation of a list of extended property elements.
pub open spec fn spec_extended_property_list(items: Seq<ExtendedProperty>) -> Seq<u8>
    decreases items.len(),
{
    if items.len() == 0 {
        Seq::empty()
    } else {
        spec_extended_property_list(items.drop_last()) + items.last().spec_elem()
    }
}

/// Appends every extended property element of a list, in order.
pub fn write_extended_property_list(items: &Vec<ExtendedProperty>, out: &mut Vec<u8>)
    ensures
        final(out)@ == old(out)@ + spec_extended_property_list(items@),
{
    let n = items.len();
    let mut k: usize = 0;
    while k < n
        invariant
            n == items@.len(),
            0 <= k <= n,
            out@ == old(out)@ + spec_extended_property_list(items@.subrange(0, k as int)),
        decreases n - k,
    {
        items[k].write_elem(out);
        proof {
            assert(items@.subrange(0, k + 1).drop_last() =~= items@.subrange(0, k as int));
            assert(items@.subrange(0, k + 1).last() == items@[k as int]);
        }
        k = k + 1;
    }
    proof {
        assert(items@.subrange(0, n as int) =~= items@);
    }
}

/// An email message to create.
#[derive(Clone, Debug)]
pub struct Message {
    /// The MIME content of the item.
    pub mime_content: Option<MimeContent>,
    /// Whether to request a delivery receipt.
    pub is_delivery_receipt_requested: Option<bool>,
    /// The message identifier header value.
    pub internet_message_id: Option<String>,
    /// Recipients to copy blindly, not named in the MIME content.
    pub bcc_recipients: Option<ArrayOfRecipients>,
    /// Extended MAPI properties to set on the message.
    pub extended_property: Option<Vec<ExtendedProperty>>,
}

impl Message {
    /// The rendered children of the message element.
    pub open spec fn spec_content(self) -> Seq<u8> {
        (match self.mime_content {
            Some(m) => emit::elem(
                "t:MimeContent",
                match m.character_set {
                    Some(cs) => emit::attr_str("CharacterSet", cs@),
                    None => Seq::empty(),
                },
                emit::escape_text(vstd::utf8::encode_utf8(m.content@)),
            ),
            None => Seq::empty(),
        }) + (match self.is_delivery_receipt_requested {
            Some(b) => emit::text_elem(
                "t:IsDeliveryReceiptRequested",
                if b {
                    "true"@
                } else {
                    "false"@
                },
            ),
            None => Seq::empty(),
        }) + (match self.internet_message_id {
            Some(v) => emit::text_elem("t:InternetMessageId", v@),
            None => Seq::empty(),
        }) + (match self.bcc_recipients {
            Some(r) => emit::elem("t:BccRecipients", Seq::empty(), spec_recipient_list(r.0@)),
            None => Seq::empty(),
        }) + (match self.extended_property {
            Some(ps) => spec_extended_property_list(ps@),
            None => Seq::empty(),
        })
    }

    /// Appends the children of the message element.
    pub fn write_content(&self, out: &mut Vec<u8>)
        ensures
            final(out)@ == old(out)@ + self.spec_content(),
    {
        let mut acc: Vec<u8> = Vec::new();
        match &self.mime_content {
            Some(m) => {
                let mut attrs: Vec<u8> = Vec::new();
                match &m.character_set {
                    Some(cs) => emit::push_attr_str(&mut attrs, "CharacterSet", cs.as_str()),
                    None => {},
                }
                let mut text: Vec<u8> = Vec::new();
                emit::push_text_escaped(&mut text, m.content.as_str());
                emit::push_elem(&mut acc, "t:MimeContent", attrs, text);
            },
            None => {},
        }
        match self.is_delivery_receipt_requested {
            Some(b) => {
                emit::push_text_elem(
                    &mut acc,
                    "t:IsDeliveryReceiptRequested",
                    if b {
                        "true"
                    } else {
                        "false"
                    },
                );
            },
            None => {},
        }
        match &self.internet_message_id {
            Some(v) => emit::push_text_elem(&mut acc, "t:InternetMessageId", v.as_str()),
            None => {},
        }
        match &self.bcc_recipients {
            Some(r) => {
                let mut rec: Vec<u8> = Vec::new();
                write_recipient_list(&r.0, &mut rec);
                emit::push_elem(&mut acc, "t:BccRecipients", Vec::new(), rec);
            },
            None => {},
        }
        match &self.extended_property {
            Some(ps) => {
                write_extended_property_list(ps, &mut acc);
            },
            None => {},
        }
        proof {
            assert(acc@ == self.spec_content());
        }
        let mut acc = acc;
        out.append(&mut acc);
    }
}

/// The rendered `t:Mailbox` element of one recipient.
pub open spec fn spec_recipient_elem(r: crate::common::Recipient) -> Seq<u8> {
    emit::elem(
        "t:Mailbox",
        Seq::empty(),
        (match r.mailbox.name {
            Some(v) => emit::text_elem("t:Name", v@),
            None => Seq::empty(),
        }) + (match r.mailbox.email_address {
            Some(v) => emit::text_elem("t:EmailAddress", v@),
            None => Seq::empty(),
        }) + (match r.mailbox.routing_type {
            Some(v) => emit::text_elem("t:RoutingType", v@),
            None => Seq::empty(),
        }),
    )
}

/// Appends the mailbox element of one recipient.
pub fn write_recipient_elem(r: &crate::common::Recipient, out: &mut Vec<u8>)
    ensures
        final(out)@ == old(out)@ + spec_recipient_elem(*r),
{
    let mut children: Vec<u8> = Vec::new();
    match &r.mailbox.name {
        Some(v) => emit::push_text_elem(&mut children, "t:Name", v.as_str()),
        None => {},
    }
    match &r.mailbox.email_address {
        Some(v) => emit::push_text_elem(&mut children, "t:EmailAddress", v.as_str()),
        None => {},
    }
    match &r.mailbox.routing_type {
        Some(v) => emit::push_text_elem(&mut children, "t:RoutingType", v.as_str()),
        None => {},
    }
    emit::push_elem(out, "t:Mailbox", Vec::new(), children);
    proof {
        assert(final(out)@ =~= old(out)@ + spec_recipient_elem(*r));
    }
}

/// The rendered concatenation of a list of recipient elements.
pub open spec fn spec_recipient_list(items: Seq<crate::common::Recipient>) -> Seq<u8>
    decreases items.len(),
{
    if items.len() == 0 {
        Seq::empty()
    } else {
        spec_recipient_list(items.drop_last()) + spec_recipient_elem(items.last())
    }
}

/// Appends every recipient element of a list, in order.
pub fn write_recipient_list(items: &Vec<crate::common::Recipient>, out: &mut Vec<u8>)
    ensures
        final(out)@ == old(out)@ + spec_recipient_list(items@),
{
    let n = items.len();
    let mut k: usize = 0;
    while k < n
        invariant
            n == items@.len(),
            0 <= k <= n,
            out@ == old(out)@ + spec_recipient_list(items@.subrange(0, k as int)),
        decreases n - k,
    {
        write_recipient_elem(&items[k], out);
        proof {
            assert(items@.subrange(0, k + 1).drop_last() =~= items@.subrange(0, k as int));
            assert(items@.subrange(0, k + 1).last() == items@[k as int]);
        }
        k = k + 1;
    }
    proof {
        assert(items@.subrange(0, n as int) =~= items@);
    }
}

/// A new item placed in a creation request.
#[derive(Clone, Debug)]
pub enum Item {
    /// An email message.
    Message(Message),
}

impl Item {
    /// The rendered item element: the variant's own element under the
    /// shared types prefix.
    pub open spec fn spec_elem(self) -> Seq<u8> {
        match self {
            Item::Message(m) => emit::elem("t:Message", Seq::empty(), m.spec_content()),
        }
    }

    /// Appends this item as its own element.
    pub fn write_elem(&self, out: &mut Vec<u8>)
        ensures
            final(out)@ == old(out)@ + self.spec_elem(),
    {
        match self {
            Item::Message(m) => {
                let mut children: Vec<u8> = Vec::new();
                m.write_content(&mut children);
                emit::push_elem(out, "t:Message", Vec::new(), children);
            },
        }
    }
}

/// The rendered concatenation of a list of item elements.
pub open spec fn spec_item_list(items: Seq<Item>) -> Seq<u8>
    decreases items.len(),
{
    if items.len() == 0 {
        Seq::empty()
    } else {
        spec_item_list(items.drop_last()) + items.last().spec_elem()
    }
}

/// Appends every item element of a list, in order.
pub fn write_item_list(items: &Vec<Item>, out: &mut Vec<u8>)
    ensures
        final(out)@ == old(out)@ + spec_item_list(items@),
{
    let n = items.len();
    let mut k: usize = 0;
    while k < n
        invariant
            n == items@.len(),
            0 <= k <= n,
            out@ == old(out)@ + spec_item_list(items@.subrange(0, k as int)),
        decreases n - k,
    {
        items[k].write_elem(out);
        proof {
            assert(items@.subrange(0, k + 1).drop_last() =~= items@.subrange(0, k as int));
            assert(items@.subrange(0, k + 1).last() == items@[k as int]);
        }
        k = k + 1;
    }
    proof {
        assert(items@.subrange(0, n as int) =~= items@);
    }
}

/// A request to create, and optionally send, one or more items.
#[derive(Clone, Debug)]
pub struct CreateItem {
    /// The action the server takes upon creating the items; required for
    /// and only applicable to message items.
    pub message_disposition: Option<MessageDisposition>,
    /// The folder in which to store a created item.
    pub saved_item_folder_id: Option<BaseFolderId>,
    /// The items to create.
    pub items: Vec<Item>,
}

impl XmlSerialize for CreateItem {
    open spec fn spec_attrs(&self) -> Seq<u8> {
        emit::attr_str("xmlns", crate::common::MESSAGES_NS_URI@) + match self.message_disposition {
            Some(m) => emit::attr_str("MessageDisposition", m.spec_text()),
            None => Seq::empty(),
        }
    }

    open spec fn spec_children(&self) -> Seq<u8> {
        (match self.saved_item_folder_id {
            Some(f) => emit::elem("SavedItemFolderId", Seq::empty(), f.spec_elem()),
            None => Seq::empty(),
        }) + emit::elem("Items", Seq::empty(), spec_item_list(self.items@))
    }

    fn serialize_as_element(&self, out: &mut Vec<u8>, name: &str) -> (r: Result<(), Error>) {
        let mut attrs: Vec<u8> = Vec::new();
        emit::push_attr_str(&mut attrs, "xmlns", crate::common::MESSAGES_NS_URI);
        match self.message_disposition {
            Some(m) => emit::push_attr_str(&mut attrs, "MessageDisposition", m.as_text()),
            None => {},
        }
        let mut children: Vec<u8> = Vec::new();
        match &self.saved_item_folder_id {
            Some(f) => {
                let mut inner: Vec<u8> = Vec::new();
                f.write_elem(&mut inner);
                emit::push_elem(&mut children, "SavedItemFolderId", Vec::new(), inner);
            },
            None => {},
        }
        let mut item_elems: Vec<u8> = Vec::new();
        write_item_list(&self.items, &mut item_elems);
        emit::push_elem(&mut children, "Items", Vec::new(), item_elems);
        emit::push_elem(out, name, attrs, children);
        proof {
            assert(final(out)@ =~= old(out)@ + emit::elem(
                name,
                self.spec_attrs(),
                self.spec_children(),
            ));
        }
        Ok(())
    }
}

impl crate::sealed::NamedStructure for CreateItem {
    open spec fn spec_name() -> Seq<char> {
        "CreateItem"@
    }

    fn name() -> (r: &'static str) {
        "CreateItem"
    }
}

impl crate::operations::Operation for CreateItem {
    type Response = CreateItemResponse;
}

/// A response to a [`CreateItem`] request.
#[derive(Clone, Debug)]
pub struct CreateItemResponse {
    /// One response message per created item.
    pub response_messages: ResponseMessages,
}

impl crate::sealed::NamedStructure for CreateItemResponse {
    open spec fn spec_name() -> Seq<char> {
        "CreateItemResponse"@
    }

    fn name() -> (r: &'static str) {
        "CreateItemResponse"
    }
}

impl crate::operations::OperationResponse for CreateItemResponse {

}

/// The response messages of a [`CreateItemResponse`].
#[derive(Clone, Debug)]
pub struct ResponseMessages {
    /// One message per created item.
    pub create_item_response_message: Vec<CreateItemResponseMessage>,
}

/// The outcome of creating one item.
#[derive(Clone, Debug)]
pub struct CreateItemResponseMessage {
    /// The status of the corresponding request.
    pub response_class: ResponseClass,
    /// A machine-readable code for a failure.
    pub response_code: Option<ResponseCode>,
    /// A human-readable explanation.
    pub message_text: Option<String>,
    /// The items created.
    pub items: crate::get_item::Items,
}

} // verus!
