//! The strict typed decode of fault-free responses.

use ews::delete_folder::DeleteFolderResponse;
use ews::Envelope;
use ews::Error;
use ews::ResponseClass;

#[test]
fn typed_response_decodes_when_no_fault() {
    let xml = r#"<?xml version="1.0" encoding="utf-8"?><s:Envelope xmlns:s="http://schemas.xmlsoap.org/soap/envelope/"><s:Body><m:DeleteFolderResponse xmlns:m="http://schemas.microsoft.com/exchange/services/2006/messages"><m:ResponseMessages><m:DeleteFolderResponseMessage ResponseClass="Success"><m:ResponseCode>NoError</m:ResponseCode></m:DeleteFolderResponseMessage></m:ResponseMessages></m:DeleteFolderResponse></s:Body></s:Envelope>"#;
    let envelope = <Envelope<DeleteFolderResponse>>::from_xml_document(xml.as_bytes())
        .expect("a fault-free document must decode into the typed payload");
    let messages = envelope
        .body
        .response_messages
        .delete_folder_response_message;
    assert_eq!(messages.len(), 1);
    assert_eq!(messages[0].response_class, ResponseClass::Success);
    assert_eq!(messages[0].response_code, Some("NoError".to_string()));
    assert_eq!(messages[0].message_text, None);
}

#[test]
fn typed_response_reads_error_message() {
    let xml = r#"<Envelope><Body><DeleteFolderResponse><ResponseMessages><DeleteFolderResponseMessage ResponseClass="Error"><ResponseCode>ErrorCannotDeleteObject</ResponseCode><MessageText>The object cannot be deleted.</MessageText></DeleteFolderResponseMessage><DeleteFolderResponseMessage ResponseClass="Success"/></ResponseMessages></DeleteFolderResponse></Body></Envelope>"#;
    let envelope = <Envelope<DeleteFolderResponse>>::from_xml_document(xml.as_bytes())
        .expect("decode succeeds");
    let messages = envelope
        .body
        .response_messages
        .delete_folder_response_message;
    assert_eq!(messages.len(), 1, "a self-closing message has no opening tag and is passed over");
    assert_eq!(messages[0].response_class, ResponseClass::Error);
    assert_eq!(
        messages[0].response_code,
        Some("ErrorCannotDeleteObject".to_string())
    );
    assert_eq!(
        messages[0].message_text,
        Some("The object cannot be deleted.".to_string())
    );
}

#[test]
fn message_without_response_class_is_deserialize_error() {
    let xml = r#"<Envelope><Body><DeleteFolderResponseMessage Other="x">nothing</DeleteFolderResponseMessage></Body></Envelope>"#;
    let err = <Envelope<DeleteFolderResponse>>::from_xml_document(xml.as_bytes())
        .expect_err("a message without its class attribute must not decode");
    assert!(matches!(err, Error::Deserialize));
}

#[test]
fn unit_payload_accepts_fault_free_document() {
    let xml = r#"<Envelope><Body><Anything/></Body></Envelope>"#;
    let envelope =
        <Envelope<()>>::from_xml_document(xml.as_bytes()).expect("unit payload decode");
    let _unit: () = envelope.body;
}

#[test]
fn update_folder_response_decodes() {
    let xml = r#"<?xml version="1.0" encoding="utf-8"?><s:Envelope xmlns:s="http://schemas.xmlsoap.org/soap/envelope/"><s:Body><m:UpdateFolderResponse xmlns:m="http://schemas.microsoft.com/exchange/services/2006/messages"><m:ResponseMessages><m:UpdateFolderResponseMessage ResponseClass="Success"><m:ResponseCode>NoError</m:ResponseCode></m:UpdateFolderResponseMessage></m:ResponseMessages></m:UpdateFolderResponse></s:Body></s:Envelope>"#;
    let envelope =
        <Envelope<ews::update_folder::UpdateFolderResponse>>::from_xml_document(xml.as_bytes())
            .expect("a fault-free document must decode into the typed payload");
    let messages = envelope
        .body
        .response_messages
        .update_folder_response_message;
    assert_eq!(messages.len(), 1);
    assert_eq!(messages[0].response_class, ResponseClass::Success);
    assert_eq!(messages[0].response_code, Some("NoError".to_string()));
}
