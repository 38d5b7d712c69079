//! Fault-probe behaviour over whole documents.

use ews::Envelope;
use ews::Error;

#[test]
fn envelope_with_schema_fault() {
    let xml = r#"<?xml version="1.0" encoding="utf-8"?><s:Envelope xmlns:s="http://schemas.xmlsoap.org/soap/envelope/"><s:Body><s:Fault><faultcode xmlns:a="http://schemas.microsoft.com/exchange/services/2006/types">a:ErrorSchemaValidation</faultcode><faultstring xml:lang="en-US">The request failed schema validation: The 'Id' attribute is invalid - The value 'invalidparentid' is invalid according to its datatype 'http://schemas.microsoft.com/exchange/services/2006/types:DistinguishedFolderIdNameType' - The Enumeration constraint failed.</faultstring><detail><e:ResponseCode xmlns:e="http://schemas.microsoft.com/exchange/services/2006/errors">ErrorSchemaValidation</e:ResponseCode><e:Message xmlns:e="http://schemas.microsoft.com/exchange/services/2006/errors">The request failed schema validation.</e:Message><t:MessageXml xmlns:t="http://schemas.microsoft.com/exchange/services/2006/types"><t:LineNumber>2</t:LineNumber><t:LinePosition>630</t:LinePosition><t:Violation>The 'Id' attribute is invalid - The value 'invalidparentid' is invalid according to its datatype 'http://schemas.microsoft.com/exchange/services/2006/types:DistinguishedFolderIdNameType' - The Enumeration constraint failed.</t:Violation></t:MessageXml></detail></s:Fault></s:Body></s:Envelope>"#;
    let err = <Envelope<()>>::from_xml_document(xml.as_bytes())
        .expect_err("should return error when body contains fault");

    if let Error::RequestFault(fault) = err {
        assert_eq!(
            fault.fault_code, "a:ErrorSchemaValidation",
            "fault code should match original document"
        );
        assert_eq!(fault.fault_string, "The request failed schema validation: The 'Id' attribute is invalid - The value 'invalidparentid' is invalid according to its datatype 'http://schemas.microsoft.com/exchange/services/2006/types:DistinguishedFolderIdNameType' - The Enumeration constraint failed.", "fault string should match original document");
        assert!(
            fault.fault_actor.is_none(),
            "fault actor should not be present"
        );

        let detail = fault.detail.expect("fault detail should be present");
        assert_eq!(
            detail.response_code,
            Some("ErrorSchemaValidation".to_string()),
            "response code should match original document"
        );
        assert_eq!(
            detail.message,
            Some("The request failed schema validation.".to_string()),
            "error message should match original document"
        );

        let message_xml = detail.message_xml.expect("message XML should be present");
        assert_eq!(&message_xml.content, "<t:LineNumber>2</t:LineNumber><t:LinePosition>630</t:LinePosition><t:Violation>The 'Id' attribute is invalid - The value 'invalidparentid' is invalid according to its datatype 'http://schemas.microsoft.com/exchange/services/2006/types:DistinguishedFolderIdNameType' - The Enumeration constraint failed.</t:Violation>", "message XML content should contain full body of MessageXml tag");
        assert!(
            message_xml.back_off_milliseconds.is_none(),
            "back off milliseconds should not be present"
        );
    } else {
        panic!("error should be request fault");
    }
}

#[test]
fn envelope_with_server_busy_fault() {
    let xml = r#"<?xml version="1.0" encoding="utf-8"?><s:Envelope xmlns:s="http://schemas.xmlsoap.org/soap/envelope/"><s:Body><s:Fault><faultcode xmlns:a="http://schemas.microsoft.com/exchange/services/2006/types">a:ErrorServerBusy</faultcode><faultstring xml:lang="en-US">I made this up because I don't have real testing data. 🙃</faultstring><detail><e:ResponseCode xmlns:e="http://schemas.microsoft.com/exchange/services/2006/errors">ErrorServerBusy</e:ResponseCode><e:Message xmlns:e="http://schemas.microsoft.com/exchange/services/2006/errors">Who really knows?</e:Message><t:MessageXml xmlns:t="http://schemas.microsoft.com/exchange/services/2006/types"><t:Value Name="BackOffMilliseconds">25</t:Value></t:MessageXml></detail></s:Fault></s:Body></s:Envelope>"#;
    let err = <Envelope<()>>::from_xml_document(xml.as_bytes())
        .expect_err("should return error when body contains fault");

    if let Error::RequestFault(fault) = err {
        assert_eq!(
            fault.fault_code, "a:ErrorServerBusy",
            "fault code should match original document"
        );
        assert_eq!(
            fault.fault_string, "I made this up because I don't have real testing data. \u{1f643}",
            "text outside ASCII must decode exactly"
        );
        assert!(
            fault.fault_actor.is_none(),
            "fault actor should not be present"
        );

        let detail = fault.detail.expect("fault detail should be present");
        assert_eq!(
            detail.response_code,
            Some("ErrorServerBusy".to_string()),
            "response code should match original document"
        );

        let message_xml = detail.message_xml.expect("message XML should be present");
        assert_eq!(message_xml.back_off_milliseconds, Some(25));
    } else {
        panic!("error should be request fault");
    }
}

#[test]
fn missing_body_is_unexpected_response() {
    let xml = r#"<?xml version="1.0" encoding="utf-8"?><s:Envelope xmlns:s="http://schemas.xmlsoap.org/soap/envelope/"><s:NotBody>x</s:NotBody></s:Envelope>"#;
    let err = <Envelope<()>>::from_xml_document(xml.as_bytes())
        .expect_err("a document without a body must not decode");
    if let Error::UnexpectedResponse(raw) = err {
        assert_eq!(raw, xml.as_bytes(), "the raw document must be carried back");
    } else {
        panic!("error should be unexpected response");
    }
}

#[test]
fn missing_envelope_is_unexpected_response() {
    let xml = r#"<?xml version="1.0" encoding="utf-8"?><Paper><Body>x</Body></Paper>"#;
    let err = <Envelope<()>>::from_xml_document(xml.as_bytes())
        .expect_err("a document without the root element must not decode");
    match err {
        Error::UnexpectedResponse(raw) => assert_eq!(raw, xml.as_bytes()),
        other => panic!("expected unexpected-response, got {:?}", other),
    }
}

#[test]
fn fault_without_mandatory_fields_is_unexpected_response() {
    let xml = r#"<?xml version="1.0" encoding="utf-8"?><s:Envelope xmlns:s="http://schemas.xmlsoap.org/soap/envelope/"><s:Body><s:Fault><faultstring>only a string</faultstring></s:Fault></s:Body></s:Envelope>"#;
    let err = <Envelope<()>>::from_xml_document(xml.as_bytes())
        .expect_err("a fault without faultcode must not decode");
    match err {
        Error::UnexpectedResponse(raw) => assert_eq!(raw, xml.as_bytes()),
        other => panic!("expected unexpected-response, got {:?}", other),
    }
}

#[test]
fn malformed_document_is_xml_error() {
    let xml = r#"<?xml version="1.0" encoding="utf-8"?><s:Envelope xmlns:s="http://schemas.xmlsoap.org/soap/envelope/"><s:Body"#;
    let err = <Envelope<()>>::from_xml_document(xml.as_bytes())
        .expect_err("an unterminated tag must not decode");
    assert!(matches!(err, Error::Xml), "expected an XML error");
}

#[test]
fn invalid_text_encoding_is_xml_error() {
    let mut doc: Vec<u8> = Vec::new();
    doc.extend_from_slice(b"<Envelope><Body><Fault><faultcode>");
    doc.push(0xFF);
    doc.extend_from_slice(b"</faultcode><faultstring>x</faultstring></Fault></Body></Envelope>");
    let err = <Envelope<()>>::from_xml_document(&doc)
        .expect_err("a fault code that is not text must not decode");
    assert!(matches!(err, Error::Xml), "expected an XML error");
}

#[test]
fn fault_takes_precedence_over_typed_decode() {
    // The body carries both a well-formed fault and content that would
    // satisfy the typed response; the decode must report the fault and
    // never a deserialization outcome.
    let xml = r#"<?xml version="1.0" encoding="utf-8"?><s:Envelope xmlns:s="http://schemas.xmlsoap.org/soap/envelope/"><s:Body><s:Fault><faultcode>a:ErrorServerBusy</faultcode><faultstring>busy</faultstring></s:Fault><m:DeleteFolderResponse xmlns:m="http://schemas.microsoft.com/exchange/services/2006/messages"><m:ResponseMessages><m:DeleteFolderResponseMessage ResponseClass="Success"><m:ResponseCode>NoError</m:ResponseCode></m:DeleteFolderResponseMessage></m:ResponseMessages></m:DeleteFolderResponse></s:Body></s:Envelope>"#;
    let err = <Envelope<ews::delete_folder::DeleteFolderResponse>>::from_xml_document(
        xml.as_bytes(),
    )
    .expect_err("a fault must take precedence over the typed decode");
    match err {
        Error::RequestFault(fault) => assert_eq!(fault.fault_code, "a:ErrorServerBusy"),
        other => panic!("expected request fault, got {:?}", other),
    }
}

#[test]
fn fault_actor_is_decoded() {
    let xml = r#"<e><Body><Fault><faultcode>c</faultcode><faultstring>s</faultstring><faultactor>the gateway</faultactor></Fault></Body></e>"#;
    // The root element's local name is checked, not its prefix; here the
    // root is not an envelope at all.
    let err = <Envelope<()>>::from_xml_document(xml.as_bytes())
        .expect_err("no Envelope element means no decode");
    assert!(matches!(err, Error::UnexpectedResponse(_)));

    let xml = r#"<Envelope><Body><Fault><faultcode>c</faultcode><faultstring>s</faultstring><faultactor>the gateway</faultactor></Fault></Body></Envelope>"#;
    let err = <Envelope<()>>::from_xml_document(xml.as_bytes()).expect_err("fault expected");
    match err {
        Error::RequestFault(fault) => {
            assert_eq!(fault.fault_actor, Some("the gateway".to_string()));
            assert!(fault.detail.is_none(), "no detail element was present");
        }
        other => panic!("expected request fault, got {:?}", other),
    }
}
