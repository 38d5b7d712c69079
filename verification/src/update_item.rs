//! Updating fields of existing items.

use crate::common::BaseItemId;
use crate::common::Message;
use crate::common::PathToElement;
use crate::common::ResponseClass;
use crate::common::ResponseCode;
use crate::create_item::MessageDisposition;
use crate::operations::XmlSerialize;
use crate::Error;
use vstd::prelude::*;

verus! {

use crate::emit;

/// The conflict resolution to try during an update.
#[derive(Clone, Copy, Debug)]
pub enum ConflictResolution {
    /// Never overwrite a conflicting change.
    NeverOverwrite,
    /// Let the server resolve conflicts.
    AutoResolve,
    /// Always overwrite a conflicting change.
    AlwaysOverwrite,
}

impl ConflictResolution {
    /// The text this variant writes on the wire.
    pub open spec fn spec_text(self) -> Seq<char> {
        match self {
            ConflictResolution::NeverOverwrite => "NeverOverwrite"@,
            ConflictResolution::AutoResolve => "AutoResolve"@,
            ConflictResolution::AlwaysOverwrite => "AlwaysOverwrite"@,
        }
    }

    /// The wire text of this variant.
    pub fn as_text(self) -> (r: &'static str)
        ensures
            r@ == self.spec_text(),
    {
        match self {
            ConflictResolution::NeverOverwrite => "NeverOverwrite",
            ConflictResolution::AutoResolve => "AutoResolve",
            ConflictResolution::AlwaysOverwrite => "AlwaysOverwrite",
        }
    }
}

/// The field update an item change applies.
#[derive(Clone, Debug)]
pub struct SetItemField {
    /// The field being updated.
    pub field_uri: PathToElement,
    /// The new value for the field.
    pub message: Message,
}

impl SetItemField {
    /// The rendered `t:SetItemField` element.
    pub open spec fn spec_elem(self) -> Seq<u8> {
        emit::elem(
            "t:SetItemField",
            Seq::empty(),
            self.field_uri.spec_elem() + emit::elem(
                "t:Message",
                Seq::empty(),
                self.message.spec_content(),
            ),
        )
    }

    /// Appends this field update as its own element.
    pub fn write_elem(&self, out: &mut Vec<u8>)
        ensures
            final(out)@ == old(out)@ + self.spec_elem(),
    {
        let mut children: Vec<u8> = Vec::new();
        self.field_uri.write_elem(&mut children);
        self.message.write_elem(&mut children);
        emit::push_elem(out, "t:SetItemField", Vec::new(), children);
    }
}

/// The updates an item change carries.
#[derive(Clone, Debug)]
pub struct Updates {
    /// The one field update to apply.
    pub set_item_field: SetItemField,
}

/// A change to one item: the item and the updates to apply to it.
#[derive(Clone, Debug)]
pub struct ItemChange {
    /// The item to change.
    pub item_id: BaseItemId,
    /// The updates to apply.
    pub updates: Updates,
}

impl ItemChange {
    /// The rendered `t:ItemChange` element.
    pub open spec fn spec_elem(self) -> Seq<u8> {
        emit::elem(
            "t:ItemChange",
            Seq::empty(),
            self.item_id.spec_elem() + emit::elem(
                "t:Updates",
                Seq::empty(),
                self.updates.set_item_field.spec_elem(),
            ),
        )
    }

    /// Appends this change as its own element.
    pub fn write_elem(&self, out: &mut Vec<u8>)
        ensures
            final(out)@ == old(out)@ + self.spec_elem(),
    {
        let mut children: Vec<u8> = Vec::new();
        self.item_id.write_elem(&mut children);
        let mut upd: Vec<u8> = Vec::new();
        self.updates.set_item_field.write_elem(&mut upd);
        emit::push_elem(&mut children, "t:Updates", Vec::new(), upd);
        emit::push_elem(out, "t:ItemChange", Vec::new(), children);
    }
}

/// A list of item changes.
#[derive(Clone, Debug)]
pub struct ItemChanges {
    /// The changes themselves.
    pub item_changes: Vec<ItemChange>,
}

/// The rendered concatenation of a list of item change elements.
pub open spec fn spec_item_change_list(items: Seq<ItemChange>) -> Seq<u8>
    decreases items.len(),
{
    if items.len() == 0 {
        Seq::empty()
    } else {
        spec_item_change_list(items.drop_last()) + items.last().spec_elem()
    }
}

/// Appends every item change element of a list, in order.
pub fn write_item_change_list(items: &Vec<ItemChange>, out: &mut Vec<u8>)
    ensures
        final(out)@ == old(out)@ + spec_item_change_list(items@),
{
    let n = items.len();
    let mut k: usize = 0;
    while k < n
        invariant
            n == items@.len(),
            0 <= k <= n,
            out@ == old(out)@ + spec_item_change_list(items@.subrange(0, k as int)),
        decreases n - k,
    {
        items[k].write_elem(out);
        proof {
            assert(items@.subrange(0, k + 1).drop_last() =~= items@.subrange(0, k as int));
            assert(items@.subrange(0, k + 1).last() == items@[k as int]);
        }
        k = k + 1;
    }
    proof {
        assert(items@.subrange(0, n as int) =~= items@);
    }
}

/// A request to update one or more items.
#[derive(Clone, Debug)]
pub struct UpdateItem {
    /// How the server handles message items after the update.
    pub message_disposition: Option<MessageDisposition>,
    /// The conflict resolution to try.
    pub conflict_resolution: Option<ConflictResolution>,
    /// The changes to apply.
    pub item_changes: ItemChanges,
}

impl UpdateItem {
    /// Adds another change to the request, leaving everything else as it
    /// was.
    pub fn add_item_change(&mut self, item_change: ItemChange)
        ensures
            final(self).item_changes.item_changes@ == old(
                self,
            ).item_changes.item_changes@.push(item_change),
            final(self).message_disposition == old(self).message_disposition,
            final(self).conflict_resolution == old(self).conflict_resolution,
    {
        self.item_changes.item_changes.push(item_change);
    }
}

impl XmlSerialize for UpdateItem {
    open spec fn spec_attrs(&self) -> Seq<u8> {
        emit::attr_str("xmlns", crate::common::MESSAGES_NS_URI@) + (match self
            .message_disposition {
            Some(m) => emit::attr_str("MessageDisposition", m.spec_text()),
            None => Seq::empty(),
        }) + (match self.conflict_resolution {
            Some(c) => emit::attr_str("ConflictResolution", c.spec_text()),
            None => Seq::empty(),
        })
    }

    open spec fn spec_children(&self) -> Seq<u8> {
        emit::elem("ItemChanges", Seq::empty(), spec_item_change_list(self.item_changes.item_changes@))
    }

    fn serialize_as_element(&self, out: &mut Vec<u8>, name: &str) -> (r: Result<(), Error>) {
        let mut attrs: Vec<u8> = Vec::new();
        emit::push_attr_str(&mut attrs, "xmlns", crate::common::MESSAGES_NS_URI);
        match self.message_disposition {
            Some(m) => emit::push_attr_str(&mut attrs, "MessageDisposition", m.as_text()),
            None => {},
        }
        match self.conflict_resolution {
            Some(c) => emit::push_attr_str(&mut attrs, "ConflictResolution", c.as_text()),
            None => {},
        }
        let mut children: Vec<u8> = Vec::new();
        let mut changes: Vec<u8> = Vec::new();
        write_item_change_list(&self.item_changes.item_changes, &mut changes);
        emit::push_elem(&mut children, "ItemChanges", Vec::new(), changes);
        emit::push_elem(out, name, attrs, children);
        proof {
            assert(final(out)@ =~= old(out)@ + emit::elem(
                name,
                self.spec_attrs(),
                self.spec_children(),
            ));
        }
        Ok(())
    }
}

impl crate::sealed::NamedStructure for UpdateItem {
    open spec fn spec_name() -> Seq<char> {
        "UpdateItem"@
    }

    fn name() -> (r: &'static str) {
        "UpdateItem"
    }
}

impl crate::operations::Operation for UpdateItem {
    type Response = UpdateItemResponse;
}

/// A response to an [`UpdateItem`] request.
#[derive(Clone, Debug)]
pub struct UpdateItemResponse {
    /// One response message per changed item.
    pub response_messages: ResponseMessages,
}

impl crate::sealed::NamedStructure for UpdateItemResponse {
    open spec fn spec_name() -> Seq<char> {
        "UpdateItemResponse"@
    }

    fn name() -> (r: &'static str) {
        "UpdateItemResponse"
    }
}

impl crate::operations::OperationResponse for UpdateItemResponse {

}

/// The response messages of an [`UpdateItemResponse`].
#[derive(Clone, Debug)]
pub struct ResponseMessages {
    /// One message per changed item.
    pub update_item_response_message: Vec<UpdateItemResponseMessage>,
}

/// The outcome of updating one item.
#[derive(Clone, Debug)]
pub struct UpdateItemResponseMessage {
    /// The status of the corresponding request.
    pub response_class: ResponseClass,
    /// A machine-readable code for a failure.
    pub response_code: Option<ResponseCode>,
    /// A human-readable explanation.
    pub message_text: Option<String>,
    /// The items as updated.
    pub items: crate::get_item::Items,
}

} // verus!
