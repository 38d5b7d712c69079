//! The fault probe on its own, and the properties the library states of it.

use ews::soap::extract_maybe_fault;
use ews::Envelope;
use ews::Error;
use ews::XmlSerialize;

#[test]
fn round_trip_encode_then_probe_finds_no_fault() {
    let request = ews::move_item::MoveItem {
        to_folder_id: ews::BaseFolderId::DistinguishedFolderId(ews::FolderId {
            id: "drafts".to_string(),
            change_key: None,
        }),
        item_ids: vec![ews::BaseItemId::ItemId {
            id: "AQMkAD".to_string(),
            change_key: Some("FFF".to_string()),
        }],
    };
    let doc = Envelope { body: request }
        .as_xml_document()
        .expect("encoding must succeed");
    let probe = extract_maybe_fault(&doc).expect("own documents must probe cleanly");
    assert!(probe.is_none(), "an encoded request carries no fault");
}

#[test]
fn round_trip_survives_markup_in_field_values() {
    // Field values holding markup characters are escaped on encode, so
    // even a hostile value cannot smuggle a fault element into the body.
    let request = ews::move_item::MoveItem {
        to_folder_id: ews::BaseFolderId::FolderId(ews::FolderId {
            id: "</soap:Body><Fault>".to_string(),
            change_key: Some("\"quoted\" & <tagged>".to_string()),
        }),
        item_ids: vec![],
    };
    let doc = Envelope { body: request }
        .as_xml_document()
        .expect("encoding must succeed");
    let probe = extract_maybe_fault(&doc).expect("own documents must probe cleanly");
    assert!(probe.is_none(), "escaped values cannot fake a fault");
}

#[test]
fn no_fault_in_plain_response() {
    let xml = r#"<?xml version="1.0" encoding="utf-8"?><s:Envelope xmlns:s="http://schemas.xmlsoap.org/soap/envelope/"><s:Body><m:GetFolderResponse xmlns:m="http://schemas.microsoft.com/exchange/services/2006/messages">fine</m:GetFolderResponse></s:Body></s:Envelope>"#;
    let probe = extract_maybe_fault(xml.as_bytes()).expect("well-formed document");
    assert!(probe.is_none());
}

#[test]
fn unknown_sibling_inside_fault_is_ignored() {
    let with = r#"<Envelope><Body><Fault><faultcode>c</faultcode><Wibble attr="x">noise</Wibble><faultstring>s</faultstring></Fault></Body></Envelope>"#;
    let without = r#"<Envelope><Body><Fault><faultcode>c</faultcode><faultstring>s</faultstring></Fault></Body></Envelope>"#;
    let f1 = extract_maybe_fault(with.as_bytes())
        .expect("decode must tolerate the unknown child")
        .expect("fault present");
    let f2 = extract_maybe_fault(without.as_bytes())
        .expect("decode")
        .expect("fault present");
    assert_eq!(f1, f2, "an unknown fault child must change nothing");
}

#[test]
fn unknown_sibling_inside_detail_keeps_recognized_fields() {
    let with = r#"<Envelope><Body><Fault><faultcode>c</faultcode><faultstring>s</faultstring><detail><Surprise>!</Surprise><ResponseCode>Code</ResponseCode><Message>m</Message></detail></Fault></Body></Envelope>"#;
    let without = r#"<Envelope><Body><Fault><faultcode>c</faultcode><faultstring>s</faultstring><detail><ResponseCode>Code</ResponseCode><Message>m</Message></detail></Fault></Body></Envelope>"#;
    let d1 = extract_maybe_fault(with.as_bytes())
        .expect("decode")
        .expect("fault present")
        .detail
        .expect("detail present");
    let d2 = extract_maybe_fault(without.as_bytes())
        .expect("decode")
        .expect("fault present")
        .detail
        .expect("detail present");
    assert_eq!(d1.response_code, d2.response_code);
    assert_eq!(d1.message, d2.message);
    assert_eq!(d1.message_xml, d2.message_xml);
    // The catch-all snapshot is the point of the unknown child: it holds
    // the whole detail text, captured at the first unknown child and never
    // overwritten.
    assert_eq!(
        d1.content,
        Some("<Surprise>!</Surprise><ResponseCode>Code</ResponseCode><Message>m</Message>".to_string())
    );
    assert_eq!(d2.content, None);
}

#[test]
fn unknown_sibling_inside_message_xml_keeps_back_off() {
    let with = r#"<Envelope><Body><Fault><faultcode>c</faultcode><faultstring>s</faultstring><detail><MessageXml><Noise>1</Noise><Value Name="BackOffMilliseconds">40</Value></MessageXml></detail></Fault></Body></Envelope>"#;
    let fault = extract_maybe_fault(with.as_bytes())
        .expect("decode")
        .expect("fault present");
    let mx = fault.detail.unwrap().message_xml.unwrap();
    assert_eq!(mx.back_off_milliseconds, Some(40));
}

#[test]
fn back_off_found_at_any_depth() {
    for depth in 1..=3 {
        let mut inner = r#"<Value Name="BackOffMilliseconds">25</Value>"#.to_string();
        for k in 0..depth - 1 {
            inner = format!("<Wrap{}>{}</Wrap{}>", k, inner, k);
        }
        let xml = format!(
            r#"<Envelope><Body><Fault><faultcode>c</faultcode><faultstring>s</faultstring><detail><MessageXml>{}</MessageXml></detail></Fault></Body></Envelope>"#,
            inner
        );
        let fault = extract_maybe_fault(xml.as_bytes())
            .expect("decode")
            .expect("fault present");
        let mx = fault.detail.unwrap().message_xml.unwrap();
        assert_eq!(
            mx.back_off_milliseconds,
            Some(25),
            "the hint must be found at depth {}",
            depth
        );
    }
}

#[test]
fn corrupt_back_off_value_is_no_hint() {
    let xml = r#"<Envelope><Body><Fault><faultcode>c</faultcode><faultstring>s</faultstring><detail><MessageXml><Value Name="BackOffMilliseconds">soon</Value></MessageXml></detail></Fault></Body></Envelope>"#;
    let fault = extract_maybe_fault(xml.as_bytes())
        .expect("a corrupt hint must never fail the fault decode")
        .expect("fault present");
    let mx = fault.detail.unwrap().message_xml.unwrap();
    assert_eq!(mx.back_off_milliseconds, None);
    assert_eq!(
        mx.content,
        r#"<Value Name="BackOffMilliseconds">soon</Value>"#.to_string()
    );
}

#[test]
fn first_successful_back_off_parse_wins() {
    let xml = r#"<Envelope><Body><Fault><faultcode>c</faultcode><faultstring>s</faultstring><detail><MessageXml><Value Name="BackOffMilliseconds">nope</Value><Value Name="BackOffMilliseconds">7</Value><Value Name="BackOffMilliseconds">9</Value></MessageXml></detail></Fault></Body></Envelope>"#;
    let fault = extract_maybe_fault(xml.as_bytes())
        .expect("decode")
        .expect("fault present");
    let mx = fault.detail.unwrap().message_xml.unwrap();
    assert_eq!(mx.back_off_milliseconds, Some(7));
}

#[test]
fn comments_and_cdata_are_skipped() {
    let xml = r#"<?xml version="1.0"?><!-- a <Fault> in a comment does not count --><Envelope><Body><![CDATA[<Fault>not real</Fault>]]><Data>fine</Data></Body></Envelope>"#;
    let probe = extract_maybe_fault(xml.as_bytes()).expect("well-formed document");
    assert!(probe.is_none(), "markup inside comments and CDATA is opaque");
}

#[test]
fn self_closing_fault_is_not_a_fault_element() {
    // Only a real opening tag starts a fault; an empty element has no
    // children and is passed over, as the reader only descends into
    // opening tags.
    let xml = r#"<Envelope><Body><Fault/></Body></Envelope>"#;
    let probe = extract_maybe_fault(xml.as_bytes()).expect("well-formed document");
    assert!(probe.is_none());
}

#[test]
fn serialize_capability_reports_success() {
    // The capability contract returns a result; for the crate's own
    // payload types it always succeeds.
    let shape = ews::FolderShape {
        base_shape: ews::BaseShape::IdOnly,
    };
    let mut out: Vec<u8> = Vec::new();
    let r = shape.serialize_as_element(&mut out, "FolderShape");
    assert!(r.is_ok());
    assert_eq!(
        String::from_utf8(out).unwrap(),
        "<FolderShape><t:BaseShape>IdOnly</t:BaseShape></FolderShape>"
    );
}

#[test]
fn error_descriptions_name_their_kind() {
    assert_eq!(Error::Xml.describe(), "error manipulating XML data");
    assert_eq!(
        Error::UnexpectedResponse(Vec::new()).describe(),
        "response was not in the expected shape"
    );
}

#[test]
fn whole_document_encode_is_exact() {
    let request = ews::get_folder::GetFolder {
        folder_shape: ews::FolderShape {
            base_shape: ews::BaseShape::Default,
        },
        folder_ids: vec![ews::BaseFolderId::DistinguishedFolderId(ews::FolderId {
            id: "inbox".to_string(),
            change_key: None,
        })],
    };
    let doc = Envelope { body: request }
        .as_xml_document()
        .expect("encoding must succeed");
    let expected = r#"<?xml version="1.0" encoding="utf-8"?><soap:Envelope xmlns:soap="http://schemas.xmlsoap.org/soap/envelope/" xmlns:t="http://schemas.microsoft.com/exchange/services/2006/types"><soap:Body xmlns="http://schemas.microsoft.com/exchange/services/2006/messages"><FolderShape><t:BaseShape>Default</t:BaseShape></FolderShape><FolderIds><t:DistinguishedFolderId Id="inbox"/></FolderIds></soap:Body></soap:Envelope>"#;
    assert_eq!(String::from_utf8(doc).unwrap(), expected);
}
