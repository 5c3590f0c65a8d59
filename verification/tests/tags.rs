use cups_rs::tags::IPP_TAG_TEXT;
use cups_rs::{IppOperation, IppStatus, IppTag, IppValueTag};

const GROUPS: [IppTag; 10] = [
    IppTag::Zero,
    IppTag::Operation,
    IppTag::Job,
    IppTag::Printer,
    IppTag::Subscription,
    IppTag::EventNotification,
    IppTag::Resource,
    IppTag::Document,
    IppTag::System,
    IppTag::UnsupportedGroup,
];

#[test]
fn group_tags_round_trip() {
    for tag in GROUPS {
        assert_eq!(IppTag::from_code(i32::from(tag)), Some(tag));
    }
    assert_eq!(i32::from(IppTag::Printer), 0x04);
    assert_eq!(i32::from(IppTag::UnsupportedGroup), 0x05);
    assert_eq!(IppTag::from_code(0x03), None);
    assert_eq!(IppTag::from_code(-1), None);
}

#[test]
fn value_tags_round_trip() {
    for code in -2..0x80 {
        assert_eq!(i32::from(IppValueTag::from_code(code)), code);
    }
    assert_eq!(IppValueTag::from_code(IPP_TAG_TEXT), IppValueTag::Text);
    assert_eq!(i32::from(IppValueTag::MemberName), 0x4a);
    assert_eq!(IppValueTag::from_code(0x43), IppValueTag::Other(0x43));
    assert!(IppValueTag::Keyword.is_text_like());
    assert!(!IppValueTag::Uri.is_text_like());
}

#[test]
fn operation_codes() {
    assert_eq!(IppOperation::PrintJob.code(), 0x0002);
    assert_eq!(IppOperation::GetSystemAttributes.code(), 0x005b);
    assert_eq!(IppOperation::CupsCreateLocalPrinter.code(), 0x4028);
    assert_eq!(IppOperation::Other(0x1234).code(), 0x1234);
    assert_eq!(i32::from(IppOperation::CupsMoveJob), 0x400d);
}

#[test]
fn status_codes_and_success() {
    for code in -1..0x600 {
        let status = IppStatus::from_code(code);
        assert_eq!(status.is_successful(), (0..=2).contains(&code));
    }
    assert_eq!(IppStatus::from_code(0x0002), IppStatus::OkConflicting);
    assert_eq!(IppStatus::from_code(0x040e), IppStatus::ErrorConflicting);
    assert_eq!(IppStatus::from_code(0x050b), IppStatus::ErrorTooManyJobs);
    assert_eq!(IppStatus::from_code(0x0410), IppStatus::ErrorInternalError);
}
