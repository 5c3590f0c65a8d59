use cups_rs::dnssd::{check_browse_request, CUPS_DNSSD_FLAGS_ADD, CUPS_DNSSD_FLAGS_ERROR};
use cups_rs::Error;
use cups_rs::{DnssdBrowseEvent, DnssdResolveEvent};

fn service() -> DnssdBrowseEvent {
    DnssdBrowseEvent::from_callback(
        CUPS_DNSSD_FLAGS_ADD,
        3,
        Some("Office Laser".to_string()),
        Some("_ipp._tcp".to_string()),
        Some("local.".to_string()),
    )
    .unwrap()
}

#[test]
fn browse_events_carry_the_callback_fields() {
    let event = service();
    assert!(event.added);
    assert_eq!(event.interface_index, 3);
    assert_eq!(event.name, "Office Laser");
    assert_eq!(event.service_type, "_ipp._tcp");
    assert_eq!(event.domain, "local.");

    let removed = DnssdBrowseEvent::from_callback(
        0,
        1,
        Some("a".to_string()),
        Some("b".to_string()),
        Some("c".to_string()),
    )
    .unwrap();
    assert!(!removed.added);
    assert!(DnssdBrowseEvent::from_callback(1, 1, None, Some("b".into()), Some("c".into())).is_none());
}

#[test]
fn resolve_events_trim_the_host_and_skip_partial_txt_entries() {
    let txt = vec![
        (Some("rp".to_string()), Some("ipp/print".to_string())),
        (Some("note".to_string()), None),
        (None, Some("x".to_string())),
        (Some("ty".to_string()), Some("Laser".to_string())),
    ];
    let event = DnssdResolveEvent::from_callback(
        &service(),
        0,
        3,
        Some("Office Laser._ipp._tcp.local.".to_string()),
        Some("office.local."),
        631,
        &txt,
    )
    .unwrap();
    assert_eq!(event.name, "Office Laser");
    assert_eq!(event.domain, "local.");
    assert_eq!(event.hostname, "office.local");
    assert_eq!(event.port, 631);
    assert_eq!(
        event.txt,
        vec![
            ("rp".to_string(), "ipp/print".to_string()),
            ("ty".to_string(), "Laser".to_string())
        ]
    );
}

#[test]
fn resolve_errors_and_missing_fields_give_no_event() {
    let full = Some("x._ipp._tcp.local.".to_string());
    assert!(DnssdResolveEvent::from_callback(&service(), CUPS_DNSSD_FLAGS_ERROR, 0, full.clone(), Some("h"), 1, &[]).is_none());
    assert!(DnssdResolveEvent::from_callback(&service(), 0, 0, None, Some("h"), 1, &[]).is_none());
    assert!(DnssdResolveEvent::from_callback(&service(), 0, 0, full, None, 1, &[]).is_none());
}

#[test]
fn zero_bytes_are_refused_before_browsing_or_resolving() {
    assert!(check_browse_request("_ipp._tcp", None).is_ok());
    assert!(check_browse_request("_ipp._tcp", Some("local.")).is_ok());
    match check_browse_request("_ipp\0._tcp", Some("lo\0cal")) {
        Err(Error::InteriorNul(4)) => {}
        other => panic!("unexpected {:?}", other),
    }
    match check_browse_request("_ipp._tcp", Some("lo\0cal")) {
        Err(Error::InteriorNul(2)) => {}
        other => panic!("unexpected {:?}", other),
    }
    assert!(service().check_resolve_request().is_ok());
    let mut bad = service();
    bad.domain = "loc\0al".to_string();
    bad.service_type = "_i\0pp".to_string();
    match bad.check_resolve_request() {
        Err(Error::InteriorNul(2)) => {}
        other => panic!("unexpected {:?}", other),
    }
}

#[test]
fn a_refused_resolve_names_the_service() {
    match service().resolve_failure() {
        Error::NetworkError(m) => assert_eq!(m, "failed to resolve DNS-SD service 'Office Laser'"),
        other => panic!("unexpected {:?}", other),
    }
}
