//! Verified core of a CUPS client library: IPP tag, operation and status
//! codes, IPP requests and responses with the attribute queries the library
//! offers, connection bookkeeping and DNS-SD event assembly.
//!
//! libcups itself does the I/O; this crate decides what is handed to it and
//! what its answers mean.

pub mod connection;
pub mod dnssd;
pub mod error;
pub mod ipp;
pub mod tags;
pub mod text;

pub use connection::{
    ConnectionFlags, DestConnectOutcome, DestConnectRequest, EncryptionMode, HostConnectRequest,
    HttpConnection, DEST_FLAGS_DEVICE, DEST_FLAGS_NONE,
};
pub use dnssd::{DnssdBrowseEvent, DnssdResolveEvent};
pub use error::Error;
pub use ipp::{IppAttribute, IppCollection, IppRequest, IppResponse, IppValue};
pub use tags::{IppOperation, IppStatus, IppTag, IppValueTag};
