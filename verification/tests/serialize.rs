//! Serialization of request payloads, against exact expected documents.

use ews::XmlSerialize;

fn assert_serialized_content<T: XmlSerialize>(value: &T, name: &str, expected: &str) {
    let mut out: Vec<u8> = Vec::new();
    value
        .serialize_as_element(&mut out, name)
        .expect("serialization should succeed");
    assert_eq!(
        String::from_utf8(out).expect("serialized bytes should be UTF-8"),
        expected
    );
}

#[test]
fn test_serialize_move_item() {
    let move_item = ews::move_item::MoveItem {
        to_folder_id: ews::BaseFolderId::DistinguishedFolderId(ews::FolderId {
            id: "drafts".to_string(),
            change_key: None,
        }),
        item_ids: vec![ews::BaseItemId::ItemId {
            id: "AAAtAEF/swbAAA=".to_string(),
            change_key: Some("EwAAABYA/s4b".to_string()),
        }],
    };

    let expected = r#"<MoveItem xmlns="http://schemas.microsoft.com/exchange/services/2006/messages"><ToFolderId><t:DistinguishedFolderId Id="drafts"/></ToFolderId><ItemIds><t:ItemId Id="AAAtAEF/swbAAA=" ChangeKey="EwAAABYA/s4b"/></ItemIds></MoveItem>"#;

    assert_serialized_content(&move_item, "MoveItem", expected);
}

#[test]
fn test_serialize_find_item_indexed_page_item_view() {
    let find_item = ews::find_item::FindItem {
        traversal: ews::find_item::Traversal::Shallow,
        item_shape: ews::ItemShape {
            base_shape: ews::BaseShape::IdOnly,
            include_mime_content: None,
        },
        parent_folder_ids: vec![ews::BaseFolderId::DistinguishedFolderId(ews::FolderId {
            id: "deleteditems".to_string(),
            change_key: None,
        })],
        view: Some(ews::find_item::View::IndexedPageItemView {
            max_entries_returned: Some(6),
            offset: 0,
            base_point: ews::find_item::BasePoint::Beginning,
        }),
    };

    let expected = r#"<FindItem xmlns="http://schemas.microsoft.com/exchange/services/2006/messages" Traversal="Shallow"><ItemShape><t:BaseShape>IdOnly</t:BaseShape></ItemShape><IndexedPageItemView MaxEntriesReturned="6" BasePoint="Beginning" Offset="0"/><ParentFolderIds><t:DistinguishedFolderId Id="deleteditems"/></ParentFolderIds></FindItem>"#;

    assert_serialized_content(&find_item, "FindItem", expected);
}

#[test]
fn test_serialize_find_item_fractional_page_item_view() {
    let finditem = ews::find_item::FindItem {
        traversal: ews::find_item::Traversal::Shallow,
        item_shape: ews::ItemShape {
            base_shape: ews::BaseShape::IdOnly,
            include_mime_content: None,
        },
        parent_folder_ids: vec![ews::BaseFolderId::DistinguishedFolderId(ews::FolderId {
            id: "inbox".to_string(),
            change_key: None,
        })],
        view: Some(ews::find_item::View::FractionalPageItemView {
            max_entries_returned: Some(12),
            numerator: 2,
            denominator: 3,
        }),
    };

    let expected = r#"<FindItem xmlns="http://schemas.microsoft.com/exchange/services/2006/messages" Traversal="Shallow"><ItemShape><t:BaseShape>IdOnly</t:BaseShape></ItemShape><FractionalPageItemView MaxEntriesReturned="12" Numerator="2" Denominator="3"/><ParentFolderIds><t:DistinguishedFolderId Id="inbox"/></ParentFolderIds></FindItem>"#;
    assert_serialized_content(&finditem, "FindItem", expected);
}

#[test]
fn test_serialize_find_item_calendar_view() {
    let finditem = ews::find_item::FindItem {
        traversal: ews::find_item::Traversal::Shallow,
        item_shape: ews::ItemShape {
            base_shape: ews::BaseShape::IdOnly,
            include_mime_content: None,
        },
        parent_folder_ids: vec![ews::BaseFolderId::DistinguishedFolderId(ews::FolderId {
            id: "calendar".to_string(),
            change_key: None,
        })],
        view: Some(ews::find_item::View::CalendarView {
            max_entries_returned: Some(2),
            start_date: "2006-05-18T00:00:00-08:00".to_string(),
            end_date: "2006-05-19T00:00:00-08:00".to_string(),
        }),
    };

    let expected = r#"<FindItem xmlns="http://schemas.microsoft.com/exchange/services/2006/messages" Traversal="Shallow"><ItemShape><t:BaseShape>IdOnly</t:BaseShape></ItemShape><CalendarView MaxEntriesReturned="2" StartDate="2006-05-18T00:00:00-08:00" EndDate="2006-05-19T00:00:00-08:00"/><ParentFolderIds><t:DistinguishedFolderId Id="calendar"/></ParentFolderIds></FindItem>"#;

    assert_serialized_content(&finditem, "FindItem", expected);
}

#[test]
fn test_serialize_find_item_contacts_view() {
    let finditem = ews::find_item::FindItem {
        traversal: ews::find_item::Traversal::Shallow,
        item_shape: ews::ItemShape {
            base_shape: ews::BaseShape::IdOnly,
            include_mime_content: None,
        },
        parent_folder_ids: vec![ews::BaseFolderId::DistinguishedFolderId(ews::FolderId {
            id: "contacts".to_string(),
            change_key: None,
        })],
        view: Some(ews::find_item::View::ContactsView {
            max_entries_returned: Some(3),
            initial_name: Some("Kelly Rollin".to_string()),
            final_name: None,
        }),
    };

    let expected = r#"<FindItem xmlns="http://schemas.microsoft.com/exchange/services/2006/messages" Traversal="Shallow"><ItemShape><t:BaseShape>IdOnly</t:BaseShape></ItemShape><ContactsView MaxEntriesReturned="3" InitialName="Kelly Rollin"/><ParentFolderIds><t:DistinguishedFolderId Id="contacts"/></ParentFolderIds></FindItem>"#;

    assert_serialized_content(&finditem, "FindItem", expected);
}

#[test]
fn test_serialize_get_item() {
    let get_item = ews::get_item::GetItem {
        item_shape: ews::ItemShape {
            base_shape: ews::BaseShape::Default,
            include_mime_content: Some(true),
        },
        item_ids: vec![ews::BaseItemId::ItemId {
            id: "AAAlAF".to_string(),
            change_key: Some("CQAAAB".to_string()),
        }],
    };

    let expected = r#"<GetItem xmlns="http://schemas.microsoft.com/exchange/services/2006/messages"><ItemShape><t:BaseShape>Default</t:BaseShape><t:IncludeMimeContent>true</t:IncludeMimeContent></ItemShape><ItemIds><t:ItemId Id="AAAlAF" ChangeKey="CQAAAB"/></ItemIds></GetItem>"#;

    assert_serialized_content(&get_item, "GetItem", expected);
}

#[test]
fn test_serialization() {
    let folder_changes = ews::update_folder::FolderChanges {
        folder_change: vec![ews::update_folder::FolderChange {
            folder_id: ews::BaseFolderId::FolderId(ews::FolderId {
                id: "123".to_string(),
                change_key: None,
            }),
            updates: ews::update_folder::Updates::SetFolderField,
        }],
    };

    let mut out: Vec<u8> = Vec::new();
    folder_changes
        .serialize_as_element(&mut out, "FolderChanges")
        .unwrap();

    let actual = String::from_utf8(out).unwrap();
    println!("{}", actual);
    assert_eq!(
        actual,
        r#"<FolderChanges><FolderChange xmlns="http://schemas.microsoft.com/exchange/services/2006/messages"><t:FolderId Id="123"/><Updates>SetFolderField</Updates></FolderChange></FolderChanges>"#
    );
}

#[test]
fn serialize_delete_folder() {
    let delete = ews::delete_folder::DeleteFolder {
        delete_type: ews::delete_folder::DeleteType::MoveToDeletedItems,
        folder_ids: vec![ews::BaseFolderId::FolderId(ews::FolderId {
            id: "AScA".to_string(),
            change_key: Some("J7s=".to_string()),
        })],
    };
    let expected = r#"<DeleteFolder xmlns="http://schemas.microsoft.com/exchange/services/2006/messages" DeleteType="MoveToDeletedItems"><FolderIds><t:FolderId Id="AScA" ChangeKey="J7s="/></FolderIds></DeleteFolder>"#;
    assert_serialized_content(&delete, "DeleteFolder", expected);
}

#[test]
fn serialize_mark_as_junk() {
    let mark = ews::update_junk_status::MarkAsJunk {
        is_junk: true,
        move_item: false,
        item_ids: ews::update_junk_status::ItemIds {
            items: vec![ews::BaseItemId::ItemId {
                id: "AAMkAD".to_string(),
                change_key: None,
            }],
        },
    };
    let expected = r#"<m:MarkAsJunk xmlns="http://schemas.microsoft.com/exchange/services/2006/messages" IsJunk="true" MoveItem="false"><m:ItemIds><t:ItemId Id="AAMkAD"/></m:ItemIds></m:MarkAsJunk>"#;
    assert_serialized_content(&mark, "m:MarkAsJunk", expected);
}

#[test]
fn serialize_sync_folder_items() {
    let sync = ews::sync_folder_items::SyncFolderItems {
        item_shape: ews::ItemShape {
            base_shape: ews::BaseShape::IdOnly,
            include_mime_content: None,
        },
        sync_folder_id: ews::BaseFolderId::DistinguishedFolderId(ews::FolderId {
            id: "inbox".to_string(),
            change_key: None,
        }),
        sync_state: Some("H4sIA=".to_string()),
        ignore: None,
        max_changes_returned: 100,
        sync_scope: Some(ews::sync_folder_items::SyncScope::NormalItems),
    };
    let expected = r#"<SyncFolderItems xmlns="http://schemas.microsoft.com/exchange/services/2006/messages"><ItemShape><t:BaseShape>IdOnly</t:BaseShape></ItemShape><SyncFolderId><t:DistinguishedFolderId Id="inbox"/></SyncFolderId><SyncState>H4sIA=</SyncState><MaxChangesReturned>100</MaxChangesReturned><SyncScope>NormalItems</SyncScope></SyncFolderItems>"#;
    assert_serialized_content(&sync, "SyncFolderItems", expected);
}

#[test]
fn serialize_sync_folder_hierarchy() {
    let sync = ews::sync_folder_hierarchy::SyncFolderHierarchy {
        folder_shape: ews::FolderShape {
            base_shape: ews::BaseShape::AllProperties,
        },
        sync_folder_id: None,
        sync_state: None,
    };
    let expected = r#"<SyncFolderHierarchy xmlns="http://schemas.microsoft.com/exchange/services/2006/messages"><FolderShape><t:BaseShape>AllProperties</t:BaseShape></FolderShape></SyncFolderHierarchy>"#;
    assert_serialized_content(&sync, "SyncFolderHierarchy", expected);
}

#[test]
fn serialize_create_item() {
    let create = ews::create_item::CreateItem {
        message_disposition: Some(ews::create_item::MessageDisposition::SendAndSaveCopy),
        saved_item_folder_id: Some(ews::BaseFolderId::DistinguishedFolderId(ews::FolderId {
            id: "sentitems".to_string(),
            change_key: None,
        })),
        items: vec![ews::create_item::Item::Message(ews::create_item::Message {
            mime_content: Some(ews::MimeContent {
                character_set: Some("UTF-8".to_string()),
                content: "UmVjZWl2ZWQ=".to_string(),
            }),
            is_delivery_receipt_requested: Some(false),
            internet_message_id: Some("<msg-1@example.com>".to_string()),
            bcc_recipients: None,
            extended_property: None,
        })],
    };
    let expected = r#"<CreateItem xmlns="http://schemas.microsoft.com/exchange/services/2006/messages" MessageDisposition="SendAndSaveCopy"><SavedItemFolderId><t:DistinguishedFolderId Id="sentitems"/></SavedItemFolderId><Items><t:Message><t:MimeContent CharacterSet="UTF-8">UmVjZWl2ZWQ=</t:MimeContent><t:IsDeliveryReceiptRequested>false</t:IsDeliveryReceiptRequested><t:InternetMessageId>&lt;msg-1@example.com&gt;</t:InternetMessageId></t:Message></Items></CreateItem>"#;
    assert_serialized_content(&create, "CreateItem", expected);
}

#[test]
fn serialize_update_item_with_added_change() {
    let mut update = ews::update_item::UpdateItem {
        message_disposition: Some(ews::create_item::MessageDisposition::SaveOnly),
        conflict_resolution: Some(ews::update_item::ConflictResolution::AutoResolve),
        item_changes: ews::update_item::ItemChanges {
            item_changes: vec![],
        },
    };
    update.add_item_change(ews::update_item::ItemChange {
        item_id: ews::BaseItemId::ItemId {
            id: "AAAa".to_string(),
            change_key: Some("CCC".to_string()),
        },
        updates: ews::update_item::Updates {
            set_item_field: ews::update_item::SetItemField {
                field_uri: ews::PathToElement::FieldURI {
                    field_uri: "message:IsRead".to_string(),
                },
                message: ews::Message {
                    is_read: Some(true),
                },
            },
        },
    });
    let expected = r#"<UpdateItem xmlns="http://schemas.microsoft.com/exchange/services/2006/messages" MessageDisposition="SaveOnly" ConflictResolution="AutoResolve"><ItemChanges><t:ItemChange><t:ItemId Id="AAAa" ChangeKey="CCC"/><t:Updates><t:SetItemField><t:FieldURI FieldURI="message:IsRead"/><t:Message><t:IsRead>true</t:IsRead></t:Message></t:SetItemField></t:Updates></t:ItemChange></ItemChanges></UpdateItem>"#;
    assert_serialized_content(&update, "UpdateItem", expected);
}
