//! Fetching information on one or more folders.

use crate::common::BaseFolderId;
use crate::common::Folder;
use crate::common::FolderShape;
use crate::common::ResponseClass;
use crate::operations::XmlSerialize;
use crate::Error;
use vstd::prelude::*;

verus! {

use crate::common::spec_folder_id_list;
use crate::common::write_folder_id_list;
use crate::emit;

/// A request to get information on one or more folders.
#[derive(Clone, Debug)]
pub struct GetFolder {
    /// What information to include in the response for each folder.
    pub folder_shape: FolderShape,
    /// The identifiers of the folders to fetch.
    pub folder_ids: Vec<BaseFolderId>,
}

impl XmlSerialize for GetFolder {
    open spec fn spec_attrs(&self) -> Seq<u8> {
        emit::attr_str("xmlns", crate::common::MESSAGES_NS_URI@)
    }

    open spec fn spec_children(&self) -> Seq<u8> {
        emit::elem("FolderShape", Seq::empty(), self.folder_shape.spec_content()) + emit::elem(
            "FolderIds",
            Seq::empty(),
            spec_folder_id_list(self.folder_ids@),
        )
    }

    fn serialize_as_element(&self, out: &mut Vec<u8>, name: &str) -> (r: Result<(), Error>) {
        let mut attrs: Vec<u8> = Vec::new();
        emit::push_attr_str(&mut attrs, "xmlns", crate::common::MESSAGES_NS_URI);
        let mut children: Vec<u8> = Vec::new();
        let mut shape: Vec<u8> = Vec::new();
        self.folder_shape.write_content(&mut shape);
        emit::push_elem(&mut children, "FolderShape", Vec::new(), shape);
        let mut id_elems: Vec<u8> = Vec::new();
        write_folder_id_list(&self.folder_ids, &mut id_elems);
        emit::push_elem(&mut children, "FolderIds", Vec::new(), id_elems);
        emit::push_elem(out, name, attrs, children);
        proof {
            assert(final(out)@ =~= old(out)@ + emit::elem(
                name,
                self.spec_attrs(),
                self.spec_children(),
            ));
        }
        Ok(())
    }
}

impl crate::sealed::NamedStructure for GetFolder {
    open spec fn spec_name() -> Seq<char> {
        "GetFolder"@
    }

    fn name() -> (r: &'static str) {
        "GetFolder"
    }
}

impl crate::operations::Operation for GetFolder {
    type Response = GetFolderResponse;
}

/// A response to a [`GetFolder`] request.
#[derive(Clone, Debug)]
pub struct GetFolderResponse {
    /// One response message per requested folder.
    pub response_messages: ResponseMessages,
}

impl crate::sealed::NamedStructure for GetFolderResponse {
    open spec fn spec_name() -> Seq<char> {
        "GetFolderResponse"@
    }

    fn name() -> (r: &'static str) {
        "GetFolderResponse"
    }
}

impl crate::operations::OperationResponse for GetFolderResponse {

}

/// The response messages of a [`GetFolderResponse`].
#[derive(Clone, Debug)]
pub struct ResponseMessages {
    /// One message per requested folder.
    pub get_folder_response_message: Vec<GetFolderResponseMessage>,
}

/// The outcome of fetching one folder.
#[derive(Clone, Debug)]
pub struct GetFolderResponseMessage {
    /// The success value of the corresponding request.
    pub response_class: ResponseClass,
    /// The folders returned.
    pub folders: Folders,
}

/// A collection of folders carried in a response.
#[derive(Clone, Debug)]
pub struct Folders {
    /// The folders themselves.
    pub inner: Vec<Folder>,
}

} // verus!
