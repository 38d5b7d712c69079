//! Synchronizing the items of one folder.

use crate::common::BaseFolderId;
use crate::common::ItemId;
use crate::common::ItemShape;
use crate::common::RealItem;
use crate::common::ResponseClass;
use crate::operations::XmlSerialize;
use crate::Error;
use vstd::prelude::*;

verus! {

use crate::emit;

/// Which items a synchronization reports.
#[derive(Clone, Copy, Debug)]
pub enum SyncScope {
    /// Only items directly in the folder.
    NormalItems,
    /// Items and their associated items.
    NormalAndAssociatedItems,
}

impl SyncScope {
    /// The text this variant writes on the wire.
    pub open spec fn spec_text(self) -> Seq<char> {
        match self {
            SyncScope::NormalItems => "NormalItems"@,
            SyncScope::NormalAndAssociatedItems => "NormalAndAssociatedItems"@,
        }
    }

    /// The wire text of this variant.
    pub fn as_text(self) -> (r: &'static str)
        ensures
            r@ == self.spec_text(),
    {
        match self {
            SyncScope::NormalItems => "NormalItems",
            SyncScope::NormalAndAssociatedItems => "NormalAndAssociatedItems",
        }
    }
}

/// Items the server should not report again.
#[derive(Clone, Debug)]
pub struct Ignore {
    /// The identifiers of the items to ignore.
    pub item_id: Vec<ItemId>,
}

impl Ignore {
    /// The rendered list of ignored item identifier elements.
    pub open spec fn spec_content(self) -> Seq<u8> {
        spec_ignore_id_list(self.item_id@)
    }

    /// Appends the ignored identifier elements.
    pub fn write_content(&self, out: &mut Vec<u8>)
        ensures
            final(out)@ == old(out)@ + self.spec_content(),
    {
        write_ignore_id_list(&self.item_id, out);
    }
}

/// The rendered `t:ItemId` element of one ignored item.
pub open spec fn spec_ignore_id_elem(item: ItemId) -> Seq<u8> {
    emit::elem(
        "t:ItemId",
        emit::attr_str("Id", item.id@) + match item.change_key {
            Some(ck) => emit::attr_str("ChangeKey", ck@),
            None => Seq::empty(),
        },
        Seq::empty(),
    )
}

/// The rendered concatenation of a list of ignored item identifiers.
pub open spec fn spec_ignore_id_list(items: Seq<ItemId>) -> Seq<u8>
    decreases items.len(),
{
    if items.len() == 0 {
        Seq::empty()
    } else {
        spec_ignore_id_list(items.drop_last()) + spec_ignore_id_elem(items.last())
    }
}

/// Appends every ignored item identifier element of a list, in order.
pub fn write_ignore_id_list(items: &Vec<ItemId>, out: &mut Vec<u8>)
    ensures
        final(out)@ == old(out)@ + spec_ignore_id_list(items@),
{
    let n = items.len();
    let mut k: usize = 0;
    while k < n
        invariant
            n == items@.len(),
            0 <= k <= n,
            out@ == old(out)@ + spec_ignore_id_list(items@.subrange(0, k as int)),
        decreases n - k,
    {
        let mut attrs: Vec<u8> = Vec::new();
        emit::push_attr_str(&mut attrs, "Id", items[k].id.as_str());
        match &items[k].change_key {
            Some(ck) => emit::push_attr_str(&mut attrs, "ChangeKey", ck.as_str()),
            None => {},
        }
        emit::push_elem(out, "t:ItemId", attrs, Vec::new());
        proof {
            assert(items@.subrange(0, k + 1).drop_last() =~= items@.subrange(0, k as int));
            assert(items@.subrange(0, k + 1).last() == items@[k as int]);
            assert(out@ =~= old(out)@ + spec_ignore_id_list(items@.subrange(0, k + 1)));
        }
        k = k + 1;
    }
    proof {
        assert(items@.subrange(0, n as int) =~= items@);
    }
}

/// A request for the changes to a folder's items since a given
/// synchronization state.
#[derive(Clone, Debug)]
pub struct SyncFolderItems {
    /// What information to include for each changed item.
    pub item_shape: ItemShape,
    /// The folder whose items are synchronized.
    pub sync_folder_id: BaseFolderId,
    /// The state token of the previous synchronization.
    pub sync_state: Option<String>,
    /// Items the server should not report again.
    pub ignore: Option<Ignore>,
    /// The most changes one response may hold.
    pub max_changes_returned: u16,
    /// Which items the synchronization reports.
    pub sync_scope: Option<SyncScope>,
}

impl XmlSerialize for SyncFolderItems {
    open spec fn spec_attrs(&self) -> Seq<u8> {
        emit::attr_str("xmlns", crate::common::MESSAGES_NS_URI@)
    }

    open spec fn spec_children(&self) -> Seq<u8> {
        emit::elem("ItemShape", Seq::empty(), self.item_shape.spec_content()) + emit::elem(
            "SyncFolderId",
            Seq::empty(),
            self.sync_folder_id.spec_elem(),
        ) + (match self.sync_state {
            Some(s) => emit::text_elem("SyncState", s@),
            None => Seq::empty(),
        }) + (match self.ignore {
            Some(ig) => emit::elem("Ignore", Seq::empty(), ig.spec_content()),
            None => Seq::empty(),
        }) + emit::text_elem(
            "MaxChangesReturned",
            emit::spec_num_chars(self.max_changes_returned as nat),
        ) + (match self.sync_scope {
            Some(sc) => emit::text_elem("SyncScope", sc.spec_text()),
            None => Seq::empty(),
        })
    }

    fn serialize_as_element(&self, out: &mut Vec<u8>, name: &str) -> (r: Result<(), Error>) {
        let mut children: Vec<u8> = Vec::new();
        let mut shape: Vec<u8> = Vec::new();
        self.item_shape.write_content(&mut shape);
        emit::push_elem(&mut children, "ItemShape", Vec::new(), shape);
        let mut fid: Vec<u8> = Vec::new();
        self.sync_folder_id.write_elem(&mut fid);
        emit::push_elem(&mut children, "SyncFolderId", Vec::new(), fid);
        match &self.sync_state {
            Some(s) => emit::push_text_elem(&mut children, "SyncState", s.as_str()),
            None => {},
        }
        match &self.ignore {
            Some(ig) => {
                let mut inner: Vec<u8> = Vec::new();
                ig.write_content(&mut inner);
                emit::push_elem(&mut children, "Ignore", Vec::new(), inner);
            },
            None => {},
        }
        emit::push_num_elem(&mut children, "MaxChangesReturned", self.max_changes_returned as u64);
        match self.sync_scope {
            Some(sc) => emit::push_text_elem(&mut children, "SyncScope", sc.as_text()),
            None => {},
        }
        let mut attrs: Vec<u8> = Vec::new();
        emit::push_attr_str(&mut attrs, "xmlns", crate::common::MESSAGES_NS_URI);
        emit::push_elem(out, name, attrs, children);
        proof {
            assert(final(out)@ =~= old(out)@ + emit::elem(
                name,
                self.spec_attrs(),
                self.spec_children(),
            ));
        }
        Ok(())
    }
}

impl crate::sealed::NamedStructure for SyncFolderItems {
    open spec fn spec_name() -> Seq<char> {
        "SyncFolderItems"@
    }

    fn name() -> (r: &'static str) {
        "SyncFolderItems"
    }
}

impl crate::operations::Operation for SyncFolderItems {
    type Response = SyncFolderItemsResponse;
}

/// A response to a [`SyncFolderItems`] request.
#[derive(Clone, Debug)]
pub struct SyncFolderItemsResponse {
    /// The response messages of the synchronization.
    pub response_messages: ResponseMessages,
}

impl crate::sealed::NamedStructure for SyncFolderItemsResponse {
    open spec fn spec_name() -> Seq<char> {
        "SyncFolderItemsResponse"@
    }

    fn name() -> (r: &'static str) {
        "SyncFolderItemsResponse"
    }
}

impl crate::operations::OperationResponse for SyncFolderItemsResponse {

}

/// The response messages of a [`SyncFolderItemsResponse`].
#[derive(Clone, Debug)]
pub struct ResponseMessages {
    /// The messages themselves.
    pub sync_folder_items_response_message: Vec<SyncFolderItemsResponseMessage>,
}

/// One message of a folder item synchronization.
#[derive(Clone, Debug)]
pub struct SyncFolderItemsResponseMessage {
    /// The status of the corresponding request.
    pub response_class: ResponseClass,
    /// The state token to present at the next synchronization.
    pub sync_state: String,
    /// Whether the response reaches the end of the changed range.
    pub includes_last_item_in_range: bool,
    /// The changes since the presented state.
    pub changes: Changes,
}

/// The changes reported by a folder item synchronization.
#[derive(Clone, Debug)]
pub struct Changes {
    /// The changes themselves.
    pub inner: Vec<Change>,
}

/// One server-side change to an item.
#[derive(Clone, Debug)]
pub enum Change {
    /// An item was created.
    Create {
        /// The state of the item upon creation.
        item: RealItem,
    },
    /// An item was updated.
    Update {
        /// The updated state of the item.
        item: RealItem,
    },
    /// An item was deleted.
    Delete {
        /// The identifier of the deleted item.
        item_id: ItemId,
    },
    /// An item was marked read or unread.
    ReadFlagChange {
        /// The identifier of the item.
        item_id: ItemId,
        /// Whether the item is now read.
        is_read: bool,
    },
}

} // verus!
