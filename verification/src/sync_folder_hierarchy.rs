//! Synchronizing the folder hierarchy.

use crate::common::BaseFolderId;
use crate::common::Folder;
use crate::common::FolderId;
use crate::common::FolderShape;
use crate::common::ResponseClass;
use crate::operations::XmlSerialize;
use crate::Error;
use vstd::prelude::*;

verus! {

use crate::emit;

/// A request for the changes to the folder hierarchy since a given
/// synchronization state.
#[derive(Clone, Debug)]
pub struct SyncFolderHierarchy {
    /// What information to include for each changed folder.
    pub folder_shape: FolderShape,
    /// The folder whose hierarchy is synchronized.
    pub sync_folder_id: Option<BaseFolderId>,
    /// The state token of the previous synchronization.
    pub sync_state: Option<String>,
}

impl XmlSerialize for SyncFolderHierarchy {
    open spec fn spec_attrs(&self) -> Seq<u8> {
        emit::attr_str("xmlns", crate::common::MESSAGES_NS_URI@)
    }

    open spec fn spec_children(&self) -> Seq<u8> {
        emit::elem("FolderShape", Seq::empty(), self.folder_shape.spec_content()) + (match self
            .sync_folder_id {
            Some(f) => emit::elem("SyncFolderId", Seq::empty(), f.spec_elem()),
            None => Seq::empty(),
        }) + (match self.sync_state {
            Some(s) => emit::text_elem("SyncState", s@),
            None => Seq::empty(),
        })
    }

    fn serialize_as_element(&self, out: &mut Vec<u8>, name: &str) -> (r: Result<(), Error>) {
        let mut attrs: Vec<u8> = Vec::new();
        emit::push_attr_str(&mut attrs, "xmlns", crate::common::MESSAGES_NS_URI);
        let mut children: Vec<u8> = Vec::new();
        let mut shape: Vec<u8> = Vec::new();
        self.folder_shape.write_content(&mut shape);
        emit::push_elem(&mut children, "FolderShape", Vec::new(), shape);
        match &self.sync_folder_id {
            Some(f) => {
                let mut inner: Vec<u8> = Vec::new();
                f.write_elem(&mut inner);
                emit::push_elem(&mut children, "SyncFolderId", Vec::new(), inner);
            },
            None => {},
        }
        match &self.sync_state {
            Some(s) => emit::push_text_elem(&mut children, "SyncState", s.as_str()),
            None => {},
        }
        emit::push_elem(out, name, attrs, children);
        proof {
            assert(final(out)@ =~= old(out)@ + emit::elem(
                name,
                self.spec_attrs(),
                self.spec_children(),
            ));
        }
        Ok(())
    }
}

impl crate::sealed::NamedStructure for SyncFolderHierarchy {
    open spec fn spec_name() -> Seq<char> {
        "SyncFolderHierarchy"@
    }

    fn name() -> (r: &'static str) {
        "SyncFolderHierarchy"
    }
}

/// A response to a [`SyncFolderHierarchy`] request.
#[derive(Clone, Debug)]
pub struct SyncFolderHierarchyResponse {
    /// The response messages of the synchronization.
    pub response_messages: ResponseMessages,
}

impl crate::sealed::NamedStructure for SyncFolderHierarchyResponse {
    open spec fn spec_name() -> Seq<char> {
        "SyncFolderHierarchyResponse"@
    }

    fn name() -> (r: &'static str) {
        "SyncFolderHierarchyResponse"
    }
}

impl crate::operations::OperationResponse for SyncFolderHierarchyResponse {

}

impl crate::operations::Operation for SyncFolderHierarchy {
    type Response = SyncFolderHierarchyResponse;
}

/// The response messages of a [`SyncFolderHierarchyResponse`].
#[derive(Clone, Debug)]
pub struct ResponseMessages {
    /// The messages themselves.
    pub sync_folder_hierarchy_response_message: Vec<SyncFolderHierarchyResponseMessage>,
}

/// One message of a folder hierarchy synchronization.
#[derive(Clone, Debug)]
pub struct SyncFolderHierarchyResponseMessage {
    /// The status of the corresponding request.
    pub response_class: ResponseClass,
    /// The state token to present at the next synchronization.
    pub sync_state: String,
    /// Whether the response reaches the end of the changed range.
    pub includes_last_folder_in_range: bool,
    /// The changes since the presented state.
    pub changes: Changes,
}

/// The changes reported by a folder hierarchy synchronization.
#[derive(Clone, Debug)]
pub struct Changes {
    /// The changes themselves.
    pub inner: Vec<Change>,
}

/// One server-side change to the folder hierarchy.
#[derive(Clone, Debug)]
pub enum Change {
    /// A folder was created.
    Create {
        /// The state of the folder upon creation.
        folder: Folder,
    },
    /// A folder was updated.
    Update {
        /// The updated state of the folder.
        folder: Folder,
    },
    /// A folder was deleted.
    Delete(FolderId),
}

} // verus!
