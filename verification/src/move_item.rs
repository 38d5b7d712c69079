//! Moving items to another folder.

use crate::common::BaseFolderId;
use crate::common::BaseItemId;
use crate::operations::XmlSerialize;
use crate::Error;
use vstd::prelude::*;

verus! {

use crate::common::spec_item_id_list;
use crate::common::write_item_id_list;
use crate::emit;

/// A request to move one or more items into a target folder.
#[derive(Clone, Debug)]
pub struct MoveItem {
    /// The folder to move the items into.
    pub to_folder_id: BaseFolderId,
    /// The items to move.
    pub item_ids: Vec<BaseItemId>,
}

impl XmlSerialize for MoveItem {
    open spec fn spec_attrs(&self) -> Seq<u8> {
        emit::attr_str("xmlns", crate::common::MESSAGES_NS_URI@)
    }

    open spec fn spec_children(&self) -> Seq<u8> {
        emit::elem("ToFolderId", Seq::empty(), self.to_folder_id.spec_elem()) + emit::elem(
            "ItemIds",
            Seq::empty(),
            spec_item_id_list(self.item_ids@),
        )
    }

    fn serialize_as_element(&self, out: &mut Vec<u8>, name: &str) -> (r: Result<(), Error>) {
        let mut attrs: Vec<u8> = Vec::new();
        emit::push_attr_str(&mut attrs, "xmlns", crate::common::MESSAGES_NS_URI);
        let mut children: Vec<u8> = Vec::new();
        let mut folder_elem: Vec<u8> = Vec::new();
        self.to_folder_id.write_elem(&mut folder_elem);
        emit::push_elem(&mut children, "ToFolderId", Vec::new(), folder_elem);
        let mut id_elems: Vec<u8> = Vec::new();
        write_item_id_list(&self.item_ids, &mut id_elems);
        emit::push_elem(&mut children, "ItemIds", Vec::new(), id_elems);
        emit::push_elem(out, name, attrs, children);
        proof {
            assert(final(out)@ =~= old(out)@ + emit::elem(
                name,
                self.spec_attrs(),
                self.spec_children(),
            ));
        }
        Ok(())
    }
}

} // verus!
