//! Connections to a CUPS server or printer.
//!
//! Opening and closing a connection is libcups's work; what is decided around
//! it lives here: the arguments a connection is opened with, how the outcome
//! becomes an [`HttpConnection`] or an error, and the connection's own state.

use vstd::prelude::*;
use vstd::string::StringSliceAdditionalSpecFns;
use vstd::utf8::decode_utf8;
use vstd::utf8::valid_utf8;
use crate::error::Error;
use crate::text::first_nul;
use crate::text::nul_position;
use crate::text::trim_dots;
use crate::text::trim_trailing_dots;

verus! {

/// `cupsConnectDest` flag value for connecting through the scheduler.
pub const DEST_FLAGS_NONE: u32 = 0x00;
/// `cupsConnectDest` flag value for connecting to the device itself.
pub const DEST_FLAGS_DEVICE: u32 = 0x80;

/// Size of the buffer `cupsConnectDest` writes the resource path into.
pub const RESOURCE_SIZE: usize = 1024;

/// Connection flags for controlling how to connect to a destination
#[derive(Debug, Clone, Copy, PartialEq, Eq, Structural)]
pub enum ConnectionFlags {
    /// Connect to CUPS scheduler
    Scheduler,
    /// Connect directly to device/printer
    Device,
}

/// The flag value libcups is handed for `flags`.
pub open spec fn flags_code(flags: ConnectionFlags) -> u32 {
    match flags {
        ConnectionFlags::Scheduler => DEST_FLAGS_NONE,
        ConnectionFlags::Device => DEST_FLAGS_DEVICE,
    }
}

impl From<ConnectionFlags> for u32 {
    fn from(flags: ConnectionFlags) -> (r: u32) {
        match flags {
            ConnectionFlags::Scheduler => DEST_FLAGS_NONE,
            ConnectionFlags::Device => DEST_FLAGS_DEVICE,
        }
    }
}

impl vstd::std_specs::convert::FromSpecImpl<ConnectionFlags> for u32 {
    open spec fn obeys_from_spec() -> bool {
        true
    }

    open spec fn from_spec(flags: ConnectionFlags) -> u32 {
        flags_code(flags)
    }
}

/// When a connection uses TLS.
#[derive(Debug, Clone, Copy, PartialEq, Eq, Structural)]
pub enum EncryptionMode {
    /// Encrypt when the server asks for it.
    IfRequested,
    /// Never encrypt.
    Never,
    /// Upgrade to TLS after connecting.
    Required,
    /// Encrypt from the start.
    Always,
}

/// The `http_encryption_t` value libcups is handed for `mode`.
pub open spec fn encryption_code(mode: EncryptionMode) -> i32 {
    match mode {
        EncryptionMode::IfRequested => 0,
        EncryptionMode::Never => 1,
        EncryptionMode::Required => 2,
        EncryptionMode::Always => 3,
    }
}

impl From<EncryptionMode> for i32 {
    fn from(mode: EncryptionMode) -> (r: i32) {
        match mode {
            EncryptionMode::IfRequested => 0,
            EncryptionMode::Never => 1,
            EncryptionMode::Required => 2,
            EncryptionMode::Always => 3,
        }
    }
}

impl vstd::std_specs::convert::FromSpecImpl<EncryptionMode> for i32 {
    open spec fn obeys_from_spec() -> bool {
        true
    }

    open spec fn from_spec(mode: EncryptionMode) -> i32 {
        encryption_code(mode)
    }
}

/// Represents an HTTP connection to a CUPS server or printer
///
/// Holds the libcups `http_t` handle, 0 once the connection is closed, and
/// the resource path requests on this connection go to.
pub struct HttpConnection {
    http: usize,
    resource: String,
}

/// What an [`HttpConnection`] is: its handle (0 when closed) and its resource
/// path.
#[verifier::ext_equal]
pub struct ConnectionView {
    pub handle: usize,
    pub resource: Seq<char>,
}

impl View for HttpConnection {
    type V = ConnectionView;

    closed spec fn view(&self) -> ConnectionView {
        ConnectionView { handle: self.http, resource: self.resource@ }
    }
}

/// The arguments a direct connection to a host is opened with, and the
/// resource path the connection will serve.
pub struct HostConnectRequest {
    /// Host name or address; holds no zero byte.
    pub host: String,
    pub port: u16,
    pub encryption: EncryptionMode,
    /// Whether the connection blocks; always true.
    pub blocking: bool,
    /// Connection timeout in milliseconds, -1 for none.
    pub timeout_ms: i32,
    pub resource: String,
}

/// The arguments a connection to a destination is opened with.
pub struct DestConnectRequest {
    /// The `cupsConnectDest` flag value.
    pub flags: u32,
    /// Connection timeout in milliseconds, -1 for none.
    pub timeout_ms: i32,
    /// Whether libcups is handed a cancel flag to watch.
    pub watch_cancel: bool,
    /// Size of the buffer the resource path is written into.
    pub resource_size: usize,
    /// Name of the destination, for the error when connecting fails.
    pub dest_name: String,
}

/// How a connection attempt to a destination ended.
pub struct DestConnectOutcome {
    /// Whether the caller's cancel flag must now be set.
    pub cancelled: bool,
    pub connection: Result<HttpConnection, Error>,
}

/// The message of a failed connection to destination `name`.
pub open spec fn dest_failure_message(name: Seq<char>, with_callback: bool) -> Seq<char> {
    if with_callback {
        "Failed to connect to destination '"@ + name
            + "' or connection was cancelled"@
    } else {
        "Failed to connect to destination '"@ + name + "'"@
    }
}

/// The resource path in a buffer libcups filled: the bytes before the first
/// zero byte, or nothing when the buffer holds no zero byte.
pub open spec fn resource_bytes(buf: Seq<u8>) -> Seq<u8> {
    match first_nul(buf) {
        Some(n) => buf.take(n),
        None => Seq::empty(),
    }
}

/// The text `String::from_utf8_lossy` makes of `bytes`: the bytes decoded as
/// UTF-8, each invalid sequence replaced by U+FFFD.
pub uninterp spec fn lossy_utf8(bytes: Seq<u8>) -> Seq<char>;

/// Decodes bytes as UTF-8, replacing what is not valid UTF-8.
///
/// Calls `String::from_utf8_lossy` and takes the text it gives. The contract
/// names that text `lossy_utf8` of the bytes, and claims that valid UTF-8 is
/// decoded as it stands.
#[verifier::external_body]
fn utf8_lossy(bytes: &[u8]) -> (r: String)
    ensures
        r@ == lossy_utf8(bytes@),
        valid_utf8(bytes@) ==> r@ == decode_utf8(bytes@),
{
    String::from_utf8_lossy(bytes).into_owned()
}

/// The resource path in a buffer libcups filled: the bytes before the first
/// zero byte (none when there is no zero byte), decoded lossily.
pub fn resource_from_buffer(buf: &[u8]) -> (r: String)
    ensures
        r@ == lossy_utf8(resource_bytes(buf@)),
        valid_utf8(resource_bytes(buf@)) ==> r@ == decode_utf8(resource_bytes(buf@)),
{
    let mut n: usize = 0;
    let mut found = false;
    while n < buf.len()
        invariant_except_break
            n <= buf@.len(),
            !found,
            forall|j: int| 0 <= j < n ==> buf@[j] != 0,
        ensures
            n <= buf@.len(),
            found ==> n < buf@.len() && buf@[n as int] == 0,
            forall|j: int| 0 <= j < n ==> buf@[j] != 0,
            !found ==> n == buf@.len(),
        decreases buf@.len() - n,
    {
        if buf[n] == 0 {
            found = true;
            break;
        }
        n = n + 1;
    }
    proof {
        if found {
            let k = n as int;
            assert(0 <= k < buf@.len() && buf@[k] == 0);
            let c = choose|i: int| 0 <= i < buf@.len() && buf@[i] == 0 && forall|j: int| 0 <= j < i ==> buf@[j] != 0;
            if c < k { assert(buf@[c] != 0); }
            if k < c { assert(buf@[k] != 0); }
        }
    }
    let len = if found { n } else { 0 };
    let prefix = slice_prefix(buf, len);
    assert(prefix@ =~= resource_bytes(buf@));
    utf8_lossy(prefix)
}

/// The first `n` bytes of `buf`.
fn slice_prefix(buf: &[u8], n: usize) -> (r: &[u8])
    requires
        n <= buf@.len(),
    ensures
        r@ == buf@.take(n as int),
{
    let (a, _) = buf.split_at(n);
    a
}

impl HttpConnection {
    /// Wraps a handle libcups returned, failing when it is null.
    pub fn from_raw(http: usize, resource: String) -> (r: Result<HttpConnection, Error>)
        ensures
            http == 0 ==> (r matches Err(Error::ConnectionFailed(m)) && m@
                == "Failed to establish connection"@),
            http != 0 ==> (r matches Ok(c) && c@.handle == http && c@.resource == resource@),
    {
        if http == 0 {
            return Err(Error::ConnectionFailed("Failed to establish connection".to_owned()));
        }
        Ok(HttpConnection { http, resource })
    }

    /// Prepares a direct connection to a host and resource path.
    ///
    /// The connection encrypts if the server asks for it. Fails when the host
    /// holds a zero byte.
    pub fn connect_host(host: &str, port: u16, resource: &str, timeout_ms: Option<i32>) -> (r:
        Result<HostConnectRequest, Error>)
        ensures
            host_request(r, host, port, resource, EncryptionMode::IfRequested, timeout_ms),
    {
        Self::connect_host_with_encryption(
            host,
            port,
            resource,
            EncryptionMode::IfRequested,
            timeout_ms,
        )
    }

    /// Prepares a direct connection to a host with an explicit encryption
    /// policy. Fails when the host holds a zero byte.
    pub fn connect_host_with_encryption(
        host: &str,
        port: u16,
        resource: &str,
        encryption: EncryptionMode,
        timeout_ms: Option<i32>,
    ) -> (r: Result<HostConnectRequest, Error>)
        ensures
            host_request(r, host, port, resource, encryption, timeout_ms),
    {
        if let Some(p) = nul_position(host) {
            return Err(Error::InteriorNul(p));
        }
        let timeout = match timeout_ms {
            Some(t) => t,
            None => -1,
        };
        Ok(
            HostConnectRequest {
                host: host.to_owned(),
                port,
                encryption,
                blocking: true,
                timeout_ms: timeout,
                resource: resource.to_owned(),
            },
        )
    }

    /// Get the raw `http_t` handle, 0 once the connection is closed
    pub fn as_ptr(&self) -> (r: usize)
        ensures
            r == self@.handle,
    {
        self.http
    }

    /// Get the resource path for this connection
    pub fn resource_path(&self) -> (r: &str)
        ensures
            r@ == self@.resource,
    {
        self.resource.as_str()
    }

    /// Check if the connection is still valid
    pub fn is_connected(&self) -> (r: bool)
        ensures
            r == (self@.handle != 0),
    {
        self.http != 0
    }

    /// Close the HTTP connection
    ///
    /// Returns the handle libcups must close now, or 0 when the connection
    /// was already closed.
    pub fn close(&mut self) -> (released: usize)
        ensures
            released == old(self)@.handle,
            final(self)@ == closed(old(self)@),
    {
        let released = self.http;
        self.http = 0;
        released
    }

    /// The peer port libcups reported, when it is a valid port number.
    pub fn peer_port(raw: i32) -> (r: Option<u16>)
        ensures
            0 <= raw <= 0xffff ==> r == Some(raw as u16),
            !(0 <= raw <= 0xffff) ==> r is None,
    {
        if 0 <= raw && raw <= 0xffff {
            Some(raw as u16)
        } else {
            None
        }
    }

    /// The host name libcups reported, without trailing dots; `None` when
    /// nothing is left.
    pub fn normalize_hostname(raw: &str) -> (r: Option<String>)
        ensures
            trim_dots(raw@).len() == 0 ==> r is None,
            trim_dots(raw@).len() > 0 ==> (r matches Some(h) && h@ == trim_dots(raw@)),
    {
        let trimmed = trim_trailing_dots(raw);
        if trimmed.as_str().is_empty() {
            None
        } else {
            Some(trimmed)
        }
    }
}

/// `r` is what preparing a connection to `host` gives: an error at the first
/// zero byte of the host name, otherwise the request with these arguments.
pub open spec fn host_request(
    r: Result<HostConnectRequest, Error>,
    host: &str,
    port: u16,
    resource: &str,
    encryption: EncryptionMode,
    timeout_ms: Option<i32>,
) -> bool {
    match first_nul(host.spec_bytes()) {
        Some(p) => r matches Err(Error::InteriorNul(q)) && q == p,
        None => r matches Ok(req) && {
            &&& req.host@ == host@
            &&& req.port == port
            &&& req.encryption == encryption
            &&& req.blocking
            &&& req.timeout_ms == (match timeout_ms {
                Some(t) => t,
                None => -1i32,
            })
            &&& req.resource@ == resource@
        },
    }
}

impl HostConnectRequest {
    /// Turns the handle libcups opened for this request into a connection.
    pub fn complete(self, http: usize) -> (r: Result<HttpConnection, Error>)
        ensures
            http == 0 ==> (r matches Err(Error::ConnectionFailed(m)) && m@
                == "Failed to connect to printer URI"@),
            http != 0 ==> (r matches Ok(c) && c@.handle == http && c@.resource == self.resource@),
    {
        if http == 0 {
            return Err(Error::ConnectionFailed("Failed to connect to printer URI".to_owned()));
        }
        Ok(HttpConnection { http, resource: self.resource })
    }
}

/// The message of a failed connection to destination `name`.
fn failure_message(name: &str, with_callback: bool) -> (r: String)
    ensures
        r@ == dest_failure_message(name@, with_callback),
{
    let mut message = String::from_str("Failed to connect to destination '");
    message.append(name);
    if with_callback {
        message.append("' or connection was cancelled");
    } else {
        message.append("'");
    }
    proof {
        reveal_strlit("Failed to connect to destination '");
        reveal_strlit("' or connection was cancelled");
        reveal_strlit("'");
    }
    message
}

/// Whether connecting goes on after libcups reported progress on a
/// destination: the callback's answer when the destination could be handed to
/// it (`answer` is `Some`), otherwise yes.
pub fn callback_continues(answer: Option<bool>) -> (r: bool)
    ensures
        r == match answer {
            Some(a) => a,
            None => true,
        },
{
    match answer {
        Some(a) => a,
        None => true,
    }
}

impl DestConnectRequest {
    /// The arguments for connecting to the destination whose libcups handle
    /// is `dest` and whose name is `dest_name`: the flag value, the timeout
    /// (-1 for none) and whether a cancel flag is watched. `cancel` is the
    /// caller's cancel flag as it stands, if there is one.
    ///
    /// Fails when the handle is null, and, without opening a connection, when
    /// the cancel flag is already set.
    pub fn new(dest: usize, dest_name: &str, flags: ConnectionFlags, timeout_ms: Option<i32>, cancel: Option<bool>) -> (r:
        Result<DestConnectRequest, Error>)
        ensures
            dest == 0 ==> r matches Err(Error::NullPointer),
            dest != 0 && cancel == Some(true) ==> (r matches Err(Error::ConnectionFailed(m))
                && m@ == dest_failure_message(dest_name@, true)),
            dest != 0 && cancel != Some(true) ==> (r matches Ok(req) && {
                &&& req.flags == flags_code(flags)
                &&& req.timeout_ms == (match timeout_ms {
                    Some(t) => t,
                    None => -1i32,
                })
                &&& req.watch_cancel == cancel is Some
                &&& req.resource_size == RESOURCE_SIZE
                &&& req.dest_name@ == dest_name@
            }),
    {
        if dest == 0 {
            return Err(Error::NullPointer);
        }
        if let Some(true) = cancel {
            return Err(Error::ConnectionFailed(failure_message(dest_name, true)));
        }
        Ok(DestConnectRequest {
            flags: flags.into(),
            timeout_ms: match timeout_ms {
                Some(t) => t,
                None => -1,
            },
            watch_cancel: cancel.is_some(),
            resource_size: RESOURCE_SIZE,
            dest_name: dest_name.to_owned(),
        })
    }

    /// Turns what libcups reported into the outcome of the attempt: the
    /// handle (0 on failure), the cancel value it left, and the resource
    /// buffer it filled. `with_callback` tells whether a callback could have
    /// cancelled the attempt.
    pub fn complete(&self, http: usize, cancel_value: i32, resource_buf: &[u8], with_callback: bool) -> (r: DestConnectOutcome)
        ensures
            r.cancelled == (self.watch_cancel && cancel_value != 0),
            http == 0 ==> (r.connection matches Err(Error::ConnectionFailed(m)) && m@
                == dest_failure_message(self.dest_name@, with_callback)),
            http != 0 ==> (r.connection matches Ok(c) && c@.handle == http && c@.resource
                == lossy_utf8(resource_bytes(resource_buf@)) && (valid_utf8(
                resource_bytes(resource_buf@),
            ) ==> c@.resource == decode_utf8(resource_bytes(resource_buf@)))),
    {
        let cancelled = self.watch_cancel && cancel_value != 0;
        if http == 0 {
            let message = failure_message(self.dest_name.as_str(), with_callback);
            return DestConnectOutcome { cancelled, connection: Err(Error::ConnectionFailed(message)) };
        }
        let resource = resource_from_buffer(resource_buf);
        DestConnectOutcome { cancelled, connection: HttpConnection::from_raw(http, resource) }
    }
}

/// What closing leaves of a connection: no handle, the same resource path.
pub open spec fn closed(v: ConnectionView) -> ConnectionView {
    ConnectionView { handle: 0, resource: v.resource }
}

/// Closing is idempotent: a closed connection is not connected, and closing
/// it again releases no handle (hands back 0) and changes nothing.
pub proof fn lemma_close_idempotent(v: ConnectionView)
    ensures
        closed(v).handle == 0,
        closed(closed(v)) == closed(v),
{
}

/// The values handed to libcups are its own: `CUPS_DEST_FLAGS_NONE` (0x00)
/// to go through the scheduler and `CUPS_DEST_FLAGS_DEVICE` (0x80) to reach
/// the device; `HTTP_ENCRYPTION_IF_REQUESTED` (0), `HTTP_ENCRYPTION_NEVER`
/// (1), `HTTP_ENCRYPTION_REQUIRED` (2) and `HTTP_ENCRYPTION_ALWAYS` (3).
pub proof fn lemma_libcups_codes(flags: ConnectionFlags, mode: EncryptionMode)
    ensures
        flags_code(flags) == match flags {
            ConnectionFlags::Scheduler => 0x00u32,
            ConnectionFlags::Device => 0x80u32,
        },
        encryption_code(mode) == match mode {
            EncryptionMode::IfRequested => 0i32,
            EncryptionMode::Never => 1i32,
            EncryptionMode::Required => 2i32,
            EncryptionMode::Always => 3i32,
        },
{
}

} // verus!
