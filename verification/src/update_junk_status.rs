//! Marking items as junk.

use crate::common::BaseItemId;
use crate::common::ResponseClass;
use crate::common::ResponseCode;
use crate::operations::XmlSerialize;
use crate::Error;
use vstd::prelude::*;

verus! {

use crate::common::spec_item_id_list;
use crate::common::write_item_id_list;
use crate::emit;

/// The items whose junk status should change.
#[derive(Clone, Debug)]
pub struct ItemIds {
    /// The identifiers of the items.
    pub items: Vec<BaseItemId>,
}

/// A request to update the junk status of one or more items.
#[derive(Clone, Debug)]
pub struct MarkAsJunk {
    /// Whether the items are to be considered junk.
    pub is_junk: bool,
    /// Whether the items should be moved to the junk folder.
    pub move_item: bool,
    /// The items to mark.
    pub item_ids: ItemIds,
}

impl XmlSerialize for MarkAsJunk {
    open spec fn spec_attrs(&self) -> Seq<u8> {
        emit::attr_str("xmlns", crate::common::MESSAGES_NS_URI@) + emit::attr_str(
            "IsJunk",
            if self.is_junk {
                "true"@
            } else {
                "false"@
            },
        ) + emit::attr_str(
            "MoveItem",
            if self.move_item {
                "true"@
            } else {
                "false"@
            },
        )
    }

    open spec fn spec_children(&self) -> Seq<u8> {
        emit::elem("m:ItemIds", Seq::empty(), spec_item_id_list(self.item_ids.items@))
    }

    fn serialize_as_element(&self, out: &mut Vec<u8>, name: &str) -> (r: Result<(), Error>) {
        let mut attrs: Vec<u8> = Vec::new();
        emit::push_attr_str(&mut attrs, "xmlns", crate::common::MESSAGES_NS_URI);
        emit::push_attr_str(
            &mut attrs,
            "IsJunk",
            if self.is_junk {
                "true"
            } else {
                "false"
            },
        );
        emit::push_attr_str(
            &mut attrs,
            "MoveItem",
            if self.move_item {
                "true"
            } else {
                "false"
            },
        );
        let mut children: Vec<u8> = Vec::new();
        let mut id_elems: Vec<u8> = Vec::new();
        write_item_id_list(&self.item_ids.items, &mut id_elems);
        emit::push_elem(&mut children, "m:ItemIds", Vec::new(), id_elems);
        emit::push_elem(out, name, attrs, children);
        proof {
            assert(final(out)@ =~= old(out)@ + emit::elem(
                name,
                self.spec_attrs(),
                self.spec_children(),
            ));
        }
        Ok(())
    }
}

impl crate::sealed::NamedStructure for MarkAsJunk {
    open spec fn spec_name() -> Seq<char> {
        "m:MarkAsJunk"@
    }

    fn name() -> (r: &'static str) {
        "m:MarkAsJunk"
    }
}

impl crate::operations::Operation for MarkAsJunk {
    type Response = MarkAsJunkResponse;
}

/// A response to a [`MarkAsJunk`] request.
#[derive(Clone, Debug)]
pub struct MarkAsJunkResponse {
    /// One response message per marked item.
    pub response_messages: ResponseMessages,
}

impl crate::sealed::NamedStructure for MarkAsJunkResponse {
    open spec fn spec_name() -> Seq<char> {
        "MarkAsJunkResponse"@
    }

    fn name() -> (r: &'static str) {
        "MarkAsJunkResponse"
    }
}

impl crate::operations::OperationResponse for MarkAsJunkResponse {

}

/// The response messages of a [`MarkAsJunkResponse`].
#[derive(Clone, Debug)]
pub struct ResponseMessages {
    /// One message per marked item.
    pub mark_as_junk_response_message: Vec<MarkAsJunkResponseMessage>,
}

/// The outcome of marking one item.
#[derive(Clone, Debug)]
pub struct MarkAsJunkResponseMessage {
    /// The status of the corresponding request.
    pub response_class: ResponseClass,
    /// A machine-readable code for a failure.
    pub response_code: Option<ResponseCode>,
    /// The new identifier of the item, when marking moved it.
    pub moved_item_id: Option<MovedItemId>,
}

/// The identifier an item carries after having been moved.
#[derive(Clone, Debug)]
pub struct MovedItemId {
    /// The opaque item identifier.
    pub id: String,
    /// The change key of the moved item.
    pub change_key: String,
}

} // verus!
