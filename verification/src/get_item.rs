//! Fetching the properties of one or more items.

use crate::common::BaseItemId;
use crate::common::ItemShape;
use crate::common::RealItem;
use crate::common::ResponseClass;
use crate::common::ResponseCode;
use crate::operations::XmlSerialize;
use crate::Error;
use vstd::prelude::*;

verus! {

use crate::common::spec_item_id_list;
use crate::common::write_item_id_list;
use crate::emit;

/// A request for the properties of one or more items.
#[derive(Clone, Debug)]
pub struct GetItem {
    /// What information to include in the response for each item.
    pub item_shape: ItemShape,
    /// The identifiers of the items to fetch.
    pub item_ids: Vec<BaseItemId>,
}

impl XmlSerialize for GetItem {
    open spec fn spec_attrs(&self) -> Seq<u8> {
        emit::attr_str("xmlns", crate::common::MESSAGES_NS_URI@)
    }

    open spec fn spec_children(&self) -> Seq<u8> {
        emit::elem("ItemShape", Seq::empty(), self.item_shape.spec_content()) + emit::elem(
            "ItemIds",
            Seq::empty(),
            spec_item_id_list(self.item_ids@),
        )
    }

    fn serialize_as_element(&self, out: &mut Vec<u8>, name: &str) -> (r: Result<(), Error>) {
        let mut attrs: Vec<u8> = Vec::new();
        emit::push_attr_str(&mut attrs, "xmlns", crate::common::MESSAGES_NS_URI);
        let mut children: Vec<u8> = Vec::new();
        let mut shape: Vec<u8> = Vec::new();
        self.item_shape.write_content(&mut shape);
        emit::push_elem(&mut children, "ItemShape", Vec::new(), shape);
        let mut id_elems: Vec<u8> = Vec::new();
        write_item_id_list(&self.item_ids, &mut id_elems);
        emit::push_elem(&mut children, "ItemIds", Vec::new(), id_elems);
        emit::push_elem(out, name, attrs, children);
        proof {
            assert(final(out)@ =~= old(out)@ + emit::elem(
                name,
                self.spec_attrs(),
                self.spec_children(),
            ));
        }
        Ok(())
    }
}

impl crate::sealed::NamedStructure for GetItem {
    open spec fn spec_name() -> Seq<char> {
        "GetItem"@
    }

    fn name() -> (r: &'static str) {
        "GetItem"
    }
}

impl crate::operations::Operation for GetItem {
    type Response = GetItemResponse;
}

/// A response to a [`GetItem`] request.
#[derive(Clone, Debug)]
pub struct GetItemResponse {
    /// One response message per requested item.
    pub response_messages: ResponseMessages,
}

impl crate::sealed::NamedStructure for GetItemResponse {
    open spec fn spec_name() -> Seq<char> {
        "GetItemResponse"@
    }

    fn name() -> (r: &'static str) {
        "GetItemResponse"
    }
}

impl crate::operations::OperationResponse for GetItemResponse {

}

/// The response messages of a [`GetItemResponse`].
#[derive(Clone, Debug)]
pub struct ResponseMessages {
    /// One message per requested item.
    pub get_item_response_message: Vec<GetItemResponseMessage>,
}

/// The outcome of fetching one item.
#[derive(Clone, Debug)]
pub struct GetItemResponseMessage {
    /// The success value of the corresponding request.
    pub response_class: ResponseClass,
    /// A machine-readable code for a failure.
    pub response_code: Option<ResponseCode>,
    /// A human-readable explanation.
    pub message_text: Option<String>,
    /// The items returned.
    pub items: Items,
}

/// A collection of items carried in a response.
#[derive(Clone, Debug)]
pub struct Items {
    /// The items themselves.
    pub inner: Vec<RealItem>,
}

} // verus!
