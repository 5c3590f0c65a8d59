use cups_rs::tags::{IPP_TAG_BEGIN_COLLECTION, IPP_TAG_KEYWORD, IPP_TAG_SYSTEM};
use cups_rs::{
    Error, IppAttribute, IppCollection, IppOperation, IppRequest, IppResponse, IppStatus, IppTag,
    IppValue, IppValueTag,
};

fn text_member(name: &str, tag: IppValueTag, value: &str) -> IppAttribute {
    IppAttribute {
        name: Some(name.to_string()),
        group: i32::from(IppTag::Zero),
        value_tag: i32::from(tag),
        values: vec![IppValue::Text(value.to_string())],
    }
}

fn collection_attr(group: IppTag, name: &str, members: Vec<IppAttribute>) -> IppAttribute {
    IppAttribute {
        name: Some(name.to_string()),
        group: i32::from(group),
        value_tag: i32::from(IppValueTag::BeginCollection),
        values: vec![IppValue::Collection(IppCollection { attributes: members })],
    }
}

/// A message shaped like a `PAPPL-Find-Devices` response: two
/// `smi55357-device-col` collections in the System group.
fn find_devices_response() -> IppResponse {
    let mut attributes = Vec::new();
    for (device_id, info, uri) in [
        (
            "MFG:Acme;MDL:Test Laser 9000;CMD:POSTSCRIPT;SN:SERIAL-1;",
            "Acme Test Laser 9000",
            "socket://192.0.2.10:9100",
        ),
        (
            "MFG:Acme;MDL:Test Label 100;CMD:PCL;SN:SERIAL-2;",
            "Acme Test Label 100",
            "usb://Acme/Test%20Label%20100?serial=SERIAL-2",
        ),
    ] {
        let members = vec![
            text_member("smi55357-device-id", IppValueTag::Text, device_id),
            text_member("smi55357-device-info", IppValueTag::Text, info),
            text_member("smi55357-device-uri", IppValueTag::Uri, uri),
        ];
        attributes.push(collection_attr(IppTag::System, "smi55357-device-col", members));
    }
    attributes.push(IppAttribute {
        name: Some("system-name".to_string()),
        group: i32::from(IppTag::System),
        value_tag: i32::from(IppValueTag::Name),
        values: vec![IppValue::Text("Test Printer Application".to_string())],
    });
    IppResponse { status_code: 0, attributes }
}

#[test]
fn test_ipp_request_creation() {
    let request = IppRequest::new(IppOperation::GetPrinterAttributes);
    assert!(request.is_ok());
}

#[test]
fn test_system_attributes_request_creation() {
    let request = IppRequest::new(IppOperation::GetSystemAttributes);
    assert!(request.is_ok());
}

#[test]
fn test_cups_move_job_request_creation() {
    let request = IppRequest::new(IppOperation::CupsMoveJob);
    assert!(request.is_ok());
}

#[test]
fn test_ipp_add_string() {
    let mut request = IppRequest::new(IppOperation::GetPrinterAttributes).unwrap();
    let result = request.add_string(
        IppTag::Operation,
        IppValueTag::Uri,
        "printer-uri",
        "ipp://localhost/printers/test",
    );
    assert!(result.is_ok());
}

#[test]
fn test_ipp_add_integer() {
    let mut request = IppRequest::new(IppOperation::GetJobs).unwrap();
    let result = request.add_integer(IppTag::Operation, IppValueTag::Integer, "limit", 10);
    assert!(result.is_ok());
}

#[test]
fn test_ipp_add_boolean() {
    let mut request = IppRequest::new(IppOperation::GetJobs).unwrap();
    let result = request.add_boolean(IppTag::Operation, "my-jobs", true);
    assert!(result.is_ok());
}

#[test]
fn test_ipp_status() {
    assert!(IppStatus::SuccessfulOk.is_successful());
    assert!(IppStatus::OkIgnoredOrSubstituted.is_successful());
    assert!(!IppStatus::ErrorBadRequest.is_successful());
    assert!(!IppStatus::ErrorNotFound.is_successful());
}

#[test]
fn vendor_operations_keep_their_wire_codes() {
    assert_eq!(IppOperation::pappl_find_devices().code(), 0x402b);
    assert_eq!(IppOperation::pappl_find_drivers().code(), 0x402c);
    assert_eq!(IppOperation::CreatePrinter.code(), 0x004c);
    assert_eq!(IppOperation::GetPrinters.code(), 0x004f);
}

#[test]
fn vendor_operation_requests_can_be_created() {
    assert!(IppRequest::new(IppOperation::pappl_find_devices()).is_ok());
    assert!(IppRequest::new(IppOperation::CreatePrinter).is_ok());
}

#[test]
fn unknown_value_tags_are_preserved_rather_than_guessed() {
    assert_eq!(
        IppValueTag::from_code(IPP_TAG_BEGIN_COLLECTION),
        IppValueTag::BeginCollection
    );
    assert_eq!(IppValueTag::from_code(0x7e), IppValueTag::Other(0x7e));
    assert!(IppValueTag::NameLang.is_text_like());
    assert!(!IppValueTag::Integer.is_text_like());
}

#[test]
fn group_tags_reject_values_that_are_not_groups() {
    assert_eq!(IppTag::from_code(IPP_TAG_SYSTEM), Some(IppTag::System));
    assert_eq!(IppTag::from_code(IPP_TAG_KEYWORD), None);
}

#[test]
fn repeated_collections_are_all_reachable() {
    let response = find_devices_response();

    let devices = response.attributes_named("smi55357-device-col");
    assert_eq!(devices.len(), 2);

    let uris = devices
        .iter()
        .map(|attr| {
            let collection = attr.get_collection(0).expect("collection value");
            collection.text("smi55357-device-uri").expect("device uri")
        })
        .collect::<Vec<_>>();
    assert_eq!(
        uris,
        vec![
            "socket://192.0.2.10:9100".to_string(),
            "usb://Acme/Test%20Label%20100?serial=SERIAL-2".to_string(),
        ]
    );
}

#[test]
fn collection_members_report_their_types() {
    let response = find_devices_response();
    let device = response
        .find_attribute("smi55357-device-col", Some(IppTag::System))
        .expect("device collection attribute");

    assert_eq!(device.value_tag(), IppValueTag::BeginCollection);
    assert_eq!(device.group_tag(), Some(IppTag::System));

    let collection = device.get_collection(0).expect("collection value");
    assert_eq!(
        collection
            .find("smi55357-device-uri")
            .map(|member| member.value_tag()),
        Some(IppValueTag::Uri)
    );
    assert_eq!(
        collection
            .find("smi55357-device-id")
            .map(|member| member.value_tag()),
        Some(IppValueTag::Text)
    );
    assert!(collection.find("smi55357-device-type").is_none());
}

#[test]
fn group_filter_rejects_attributes_from_another_group() {
    let response = find_devices_response();

    assert!(
        response
            .find_attribute("system-name", Some(IppTag::System))
            .is_some()
    );
    assert!(
        response
            .find_attribute("system-name", Some(IppTag::Printer))
            .is_none()
    );
    assert!(response.find_attribute("system-name", None).is_some());
}

#[test]
fn non_collection_attributes_do_not_yield_collections() {
    let response = find_devices_response();
    let name = response
        .find_attribute("system-name", None)
        .expect("system-name");

    assert!(name.get_collection(0).is_none());
    assert!(name.collections().is_empty());
}

#[test]
fn out_of_range_collection_index_is_rejected() {
    let response = find_devices_response();
    let device = response
        .find_attribute("smi55357-device-col", None)
        .expect("device collection attribute");

    assert_eq!(device.count(), 1);
    assert!(device.get_collection(1).is_none());
}

#[test]
fn collection_text_rejects_the_wrong_type_and_blank_values() {
    let members = vec![
        IppAttribute {
            name: Some("smi55357-device-id".to_string()),
            group: i32::from(IppTag::Zero),
            value_tag: i32::from(IppValueTag::Integer),
            values: vec![IppValue::Integer(42)],
        },
        text_member("smi55357-device-info", IppValueTag::Text, "   "),
    ];
    let collection_owner = IppResponse {
        status_code: 0,
        attributes: vec![collection_attr(IppTag::System, "smi55357-device-col", members)],
    };

    let device = collection_owner
        .find_attribute("smi55357-device-col", None)
        .expect("device collection attribute");
    let collection = device.get_collection(0).expect("collection value");

    assert_eq!(collection.text("smi55357-device-id"), None);
    assert_eq!(collection.text("smi55357-device-info"), None);
    assert_eq!(collection.text("smi55357-device-uri"), None);
}

// ---- further cases ----

#[test]
fn find_in_any_group_is_the_first_named_attribute() {
    let mut response = find_devices_response();
    response.attributes.insert(
        0,
        IppAttribute {
            name: Some("system-name".to_string()),
            group: i32::from(IppTag::Printer),
            value_tag: i32::from(IppValueTag::Name),
            values: vec![IppValue::Text("printer copy".to_string())],
        },
    );
    let any = response.find_attribute("system-name", None).unwrap();
    let named = response.attributes_named("system-name");
    assert_eq!(named.len(), 2);
    assert_eq!(any.get_string(0), named[0].get_string(0));
    assert_eq!(any.get_string(0), Some("printer copy".to_string()));
    let system = response
        .find_attribute("system-name", Some(IppTag::System))
        .unwrap();
    assert_eq!(
        system.get_string(0),
        Some("Test Printer Application".to_string())
    );
}

#[test]
fn names_with_a_zero_byte_find_nothing() {
    let response = find_devices_response();
    assert!(response.find_attribute("system\0name", None).is_none());
    assert!(response.attributes_named("smi55357\0device-col").is_empty());
}

#[test]
fn attributes_lists_every_attribute_in_order() {
    let response = find_devices_response();
    let all = response.attributes();
    assert_eq!(all.len(), 3);
    assert_eq!(all[2].name(), Some("system-name".to_string()));
    assert_eq!(all[0].name(), Some("smi55357-device-col".to_string()));
}

#[test]
fn collections_lists_every_collection_value() {
    let attr = IppAttribute {
        name: Some("col".to_string()),
        group: i32::from(IppTag::Printer),
        value_tag: i32::from(IppValueTag::BeginCollection),
        values: vec![
            IppValue::Collection(IppCollection {
                attributes: vec![text_member("a", IppValueTag::Keyword, "one")],
            }),
            IppValue::Collection(IppCollection {
                attributes: vec![text_member("a", IppValueTag::Keyword, "two")],
            }),
        ],
    };
    let cols = attr.collections();
    assert_eq!(cols.len(), 2);
    assert_eq!(cols[1].text("a"), Some("two".to_string()));
    assert!(attr.get_collection(2).is_none());
}

#[test]
fn text_is_trimmed_and_accepts_uris_and_with_language_forms() {
    let collection = IppCollection {
        attributes: vec![
            text_member("info", IppValueTag::TextLang, " \t Acme Laser\u{a0}\n"),
            text_member("uri", IppValueTag::Uri, "ipp://host/ipp/print "),
            text_member("charset", IppValueTag::Charset, "utf-8"),
        ],
    };
    assert_eq!(collection.text("info"), Some("Acme Laser".to_string()));
    assert_eq!(collection.text("uri"), Some("ipp://host/ipp/print".to_string()));
    assert_eq!(collection.text("charset"), None);
}

#[test]
fn value_getters_fall_back_on_the_wrong_type_or_index() {
    let attr = IppAttribute {
        name: Some("limit".to_string()),
        group: i32::from(IppTag::Operation),
        value_tag: i32::from(IppValueTag::Integer),
        values: vec![IppValue::Integer(10), IppValue::Boolean(true)],
    };
    assert_eq!(attr.get_integer(0), 10);
    assert_eq!(attr.get_integer(1), 0);
    assert_eq!(attr.get_integer(5), 0);
    assert!(attr.get_boolean(1));
    assert!(!attr.get_boolean(0));
    assert_eq!(attr.get_string(0), None);
    assert_eq!(attr.group_tag(), Some(IppTag::Operation));
}

#[test]
fn response_status_reads_the_raw_code() {
    let mut response = find_devices_response();
    assert!(response.is_successful());
    assert_eq!(response.status(), IppStatus::SuccessfulOk);
    response.status_code = 0x0406;
    assert_eq!(response.status(), IppStatus::ErrorNotFound);
    assert_eq!(response.status_code(), 0x0406);
    assert!(!response.is_successful());
    response.status_code = 0x0777;
    assert_eq!(response.status(), IppStatus::ErrorInternalError);
    assert_eq!(response.status_code(), 0x0777);
}

#[test]
fn request_attributes_keep_what_was_added() {
    let mut request = IppRequest::new(IppOperation::GetJobs).unwrap();
    request
        .add_string(IppTag::Operation, IppValueTag::Uri, "printer-uri", "ipp://h/p")
        .unwrap();
    request
        .add_integer(IppTag::Operation, IppValueTag::Integer, "limit", 10)
        .unwrap();
    request
        .add_boolean(IppTag::Operation, "my-jobs", true)
        .unwrap();
    request
        .add_strings(
            IppTag::Operation,
            IppValueTag::Keyword,
            "requested-attributes",
            &["job-id", "job-state"],
        )
        .unwrap();
    assert_eq!(request.operation, IppOperation::GetJobs);
    assert_eq!(request.attributes.len(), 4);
    let uri = &request.attributes[0];
    assert_eq!(uri.value_tag(), IppValueTag::Uri);
    assert_eq!(uri.group_tag(), Some(IppTag::Operation));
    assert_eq!(uri.get_string(0), Some("ipp://h/p".to_string()));
    assert_eq!(request.attributes[1].get_integer(0), 10);
    assert!(request.attributes[2].get_boolean(0));
    assert_eq!(request.attributes[2].value_tag(), IppValueTag::Boolean);
    let keywords = &request.attributes[3];
    assert_eq!(keywords.count(), 2);
    assert_eq!(keywords.get_string(1), Some("job-state".to_string()));
}

#[test]
fn request_rejects_zero_bytes_and_stays_unchanged() {
    let mut request = IppRequest::new(IppOperation::GetJobs).unwrap();
    match request.add_string(IppTag::Operation, IppValueTag::Uri, "printer\0uri", "x") {
        Err(Error::InteriorNul(7)) => {}
        other => panic!("unexpected {:?}", other),
    }
    match request.add_string(IppTag::Operation, IppValueTag::Uri, "printer-uri", "ab\0") {
        Err(Error::InteriorNul(2)) => {}
        other => panic!("unexpected {:?}", other),
    }
    match request.add_integer(IppTag::Operation, IppValueTag::Integer, "\0", 1) {
        Err(Error::InteriorNul(0)) => {}
        other => panic!("unexpected {:?}", other),
    }
    match request.add_boolean(IppTag::Operation, "a\0b", true) {
        Err(Error::InteriorNul(1)) => {}
        other => panic!("unexpected {:?}", other),
    }
    match request.add_strings(IppTag::Operation, IppValueTag::Keyword, "k", &["ok", "b\0ad", "\0"]) {
        Err(Error::InteriorNul(1)) => {}
        other => panic!("unexpected {:?}", other),
    }
    assert!(request.attributes.is_empty());
}

#[test]
fn names_are_looked_up_ignoring_ascii_case() {
    let response = find_devices_response();
    assert!(response.find_attribute("System-Name", Some(IppTag::System)).is_some());
    assert_eq!(response.attributes_named("SMI55357-DEVICE-COL").len(), 2);
    let device = response.find_attribute("smi55357-device-col", None).unwrap();
    let collection = device.get_collection(0).unwrap();
    assert_eq!(
        collection.text("SMI55357-Device-URI"),
        Some("socket://192.0.2.10:9100".to_string())
    );
    assert!(response.find_attribute("system_name", None).is_none());
}

#[test]
fn request_refuses_value_tags_libcups_does_not_take() {
    let mut request = IppRequest::new(IppOperation::GetJobs).unwrap();
    match request.add_string(IppTag::Operation, IppValueTag::Integer, "limit", "10") {
        Err(Error::UnsupportedFeature(m)) => assert_eq!(m, "Failed to add string attribute 'limit'"),
        other => panic!("unexpected {:?}", other),
    }
    match request.add_integer(IppTag::Operation, IppValueTag::Keyword, "limit", 10) {
        Err(Error::UnsupportedFeature(m)) => assert_eq!(m, "Failed to add integer attribute 'limit'"),
        other => panic!("unexpected {:?}", other),
    }
    match request.add_strings(IppTag::Operation, IppValueTag::Keyword, "requested-attributes", &[]) {
        Err(Error::UnsupportedFeature(m)) => {
            assert_eq!(m, "Failed to add string array attribute 'requested-attributes'")
        }
        other => panic!("unexpected {:?}", other),
    }
    match request.add_strings(IppTag::Operation, IppValueTag::Boolean, "x", &["a"]) {
        Err(Error::UnsupportedFeature(_)) => {}
        other => panic!("unexpected {:?}", other),
    }
    assert!(request.attributes.is_empty());
    assert!(request
        .add_string(IppTag::Operation, IppValueTag::NameLang, "job-name", "x")
        .is_ok());
    assert!(request
        .add_integer(IppTag::Operation, IppValueTag::Enum, "job-state", 3)
        .is_ok());
    assert!(request
        .add_string(IppTag::Operation, IppValueTag::Other(0x43), "reserved", "x")
        .is_ok());
    assert_eq!(request.attributes.len(), 3);
}
