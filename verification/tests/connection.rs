use cups_rs::connection::{callback_continues, resource_from_buffer};
use cups_rs::{
    ConnectionFlags, DestConnectRequest, EncryptionMode, Error, HttpConnection, DEST_FLAGS_DEVICE,
    DEST_FLAGS_NONE,
};

#[test]
fn test_connection_flags() {
    assert_eq!(u32::from(ConnectionFlags::Scheduler), DEST_FLAGS_NONE);
    assert_eq!(u32::from(ConnectionFlags::Device), DEST_FLAGS_DEVICE);
}

#[test]
fn connect_host_prepares_the_request() {
    let req = HttpConnection::connect_host("printer.local", 631, "/ipp/print", Some(5000)).unwrap();
    assert_eq!(req.host, "printer.local");
    assert_eq!(req.port, 631);
    assert_eq!(req.encryption, EncryptionMode::IfRequested);
    assert!(req.blocking);
    assert_eq!(req.timeout_ms, 5000);
    assert_eq!(req.resource, "/ipp/print");
    assert_eq!(i32::from(req.encryption), 0);

    let req = HttpConnection::connect_host_with_encryption(
        "h",
        443,
        "/",
        EncryptionMode::Always,
        None,
    )
    .unwrap();
    assert_eq!(req.timeout_ms, -1);
    assert_eq!(i32::from(req.encryption), 3);

    match HttpConnection::connect_host("bad\0host", 631, "/", None) {
        Err(Error::InteriorNul(3)) => {}
        _ => panic!("zero byte in host name must be refused"),
    }
}

#[test]
fn completing_a_host_request() {
    let req = HttpConnection::connect_host("h", 631, "/admin", None).unwrap();
    match req.complete(0) {
        Err(Error::ConnectionFailed(m)) => assert_eq!(m, "Failed to connect to printer URI"),
        _ => panic!("null handle must fail"),
    }
    let req = HttpConnection::connect_host("h", 631, "/admin", None).unwrap();
    let conn = req.complete(0x1000).unwrap();
    assert!(conn.is_connected());
    assert_eq!(conn.as_ptr(), 0x1000);
    assert_eq!(conn.resource_path(), "/admin");
}

#[test]
fn closing_twice_releases_the_handle_once() {
    let mut conn = HttpConnection::from_raw(0x2000, "/".to_string()).unwrap();
    assert_eq!(conn.close(), 0x2000);
    assert!(!conn.is_connected());
    assert_eq!(conn.close(), 0);
    assert!(!conn.is_connected());
    assert_eq!(conn.resource_path(), "/");
}

#[test]
fn from_raw_refuses_a_null_handle() {
    match HttpConnection::from_raw(0, "/".to_string()) {
        Err(Error::ConnectionFailed(m)) => assert_eq!(m, "Failed to establish connection"),
        _ => panic!("null handle must fail"),
    }
}

#[test]
fn destination_requests_and_outcomes() {
    let req = DestConnectRequest::new(0x40, "Office", ConnectionFlags::Device, None, Some(false)).unwrap();
    assert_eq!(req.flags, 0x80);
    assert_eq!(req.timeout_ms, -1);
    assert_eq!(req.resource_size, 1024);

    let out = req.complete(0, 1, b"", false);
    assert!(out.cancelled);
    match out.connection {
        Err(Error::ConnectionFailed(m)) => {
            assert_eq!(m, "Failed to connect to destination 'Office'")
        }
        _ => panic!("null handle must fail"),
    }
    let out = req.complete(0, 0, b"", true);
    assert!(!out.cancelled);
    match out.connection {
        Err(Error::ConnectionFailed(m)) => assert_eq!(
            m,
            "Failed to connect to destination 'Office' or connection was cancelled"
        ),
        _ => panic!("null handle must fail"),
    }

    let unwatched = DestConnectRequest::new(0x40, "Office", ConnectionFlags::Scheduler, Some(1000), None).unwrap();
    assert_eq!(unwatched.flags, 0);
    let out = unwatched.complete(0x10, 1, b"/printers/Office\0junk", false);
    assert!(!out.cancelled);
    let conn = out.connection.unwrap();
    assert_eq!(conn.resource_path(), "/printers/Office");
}

#[test]
fn resource_buffer_without_terminator_is_empty() {
    assert_eq!(resource_from_buffer(b"/printers/x"), "");
    assert_eq!(resource_from_buffer(b"/p\0/q\0"), "/p");
    assert_eq!(resource_from_buffer(b"\0"), "");
    assert_eq!(resource_from_buffer("/imprimantes/\u{e9}t\u{e9}\0".as_bytes()), "/imprimantes/\u{e9}t\u{e9}");
    assert_eq!(resource_from_buffer(b"\xff/a\0"), "\u{fffd}/a");
}

#[test]
fn peer_port_and_hostname() {
    assert_eq!(HttpConnection::peer_port(631), Some(631));
    assert_eq!(HttpConnection::peer_port(65535), Some(65535));
    assert_eq!(HttpConnection::peer_port(65536), None);
    assert_eq!(HttpConnection::peer_port(-1), None);
    assert_eq!(
        HttpConnection::normalize_hostname("printer.local."),
        Some("printer.local".to_string())
    );
    assert_eq!(HttpConnection::normalize_hostname("..."), None);
    assert_eq!(HttpConnection::normalize_hostname(""), None);
}

#[test]
fn a_null_destination_is_refused() {
    match DestConnectRequest::new(0, "Office", ConnectionFlags::Scheduler, Some(1000), None) {
        Err(Error::NullPointer) => {}
        _ => panic!("null destination must be refused"),
    }
}

#[test]
fn a_successful_connect_is_connected_with_a_resource_path() {
    let req = DestConnectRequest::new(0x40, "Office", ConnectionFlags::Scheduler, Some(1000), None).unwrap();
    let out = req.complete(0x50, 0, b"/printers/Office\0\0\0", false);
    let conn = out.connection.unwrap();
    assert!(conn.is_connected());
    assert!(!conn.resource_path().is_empty());
    assert_eq!(conn.resource_path(), "/printers/Office");
}

#[test]
fn a_resource_path_with_invalid_utf8_is_decoded_lossily() {
    let req = DestConnectRequest::new(0x40, "Office", ConnectionFlags::Device, None, None).unwrap();
    let out = req.complete(0x50, 0, b"\x80\xc3/p\xe9\0", false);
    assert_eq!(out.connection.unwrap().resource_path(), "\u{fffd}\u{fffd}/p\u{fffd}");
}

#[test]
fn a_cancel_flag_already_set_opens_no_connection() {
    match DestConnectRequest::new(0x40, "Office", ConnectionFlags::Device, Some(500), Some(true)) {
        Err(Error::ConnectionFailed(m)) => assert_eq!(
            m,
            "Failed to connect to destination 'Office' or connection was cancelled"
        ),
        _ => panic!("a set cancel flag must stop the attempt"),
    }
    let watched = DestConnectRequest::new(0x40, "Office", ConnectionFlags::Device, Some(500), Some(false)).unwrap();
    assert!(watched.watch_cancel);
}

#[test]
fn the_callback_decides_unless_the_destination_is_unreadable() {
    assert!(callback_continues(None));
    assert!(callback_continues(Some(true)));
    assert!(!callback_continues(Some(false)));
}
