//! HTTP version values. The HTTP layer and the WebSocket framing layer
//! each have their own enumeration of versions, and the two differ in
//! exactly one point: the HTTP layer also distinguishes cleartext HTTP/2,
//! which the framing layer cannot represent. Carrying a version across
//! that boundary is therefore an explicit, exhaustive mapping whose one
//! gap is a hard, typed failure — never a silent default.

use vstd::prelude::*;
use vstd::slice::slice_to_vec;

verus! {

/// An HTTP version as the HTTP layer reports it.
#[derive(Clone, Copy, Debug, PartialEq, Eq, Structural)]
pub enum HttpVersion {
    /// HTTP/0.9
    Http09,
    /// HTTP/1.0
    Http10,
    /// HTTP/1.1
    Http11,
    /// HTTP/2 over TLS
    H2,
    /// HTTP/2 over cleartext TCP
    H2c,
}

/// An HTTP version as the WebSocket framing layer represents it.
#[derive(Clone, Copy, Debug, PartialEq, Eq, Structural)]
pub enum WsHttpVersion {
    /// HTTP/0.9
    Http09,
    /// HTTP/1.0
    Http10,
    /// HTTP/1.1
    Http11,
    /// HTTP/2.0
    Http20,
}

/// What can go wrong while an upgrade is driven to completion.
#[derive(Clone, Copy, Debug, PartialEq, Eq, Structural)]
pub enum UpgradeError {
    /// The request's HTTP version cannot be represented to the WebSocket
    /// framing layer; raised before any byte is written.
    UnsupportedHttpVersion,
    /// The transport failed while a response was being written; the
    /// connection is no longer usable at this layer.
    Transport,
    /// The WebSocket framing layer refused the synthetic upgrade request.
    Protocol,
}

impl HttpVersion {
    /// Versions below 1.1 lack the persistent-connection semantics the
    /// upgrade mechanism requires.
    pub open spec fn below_http11(self) -> bool {
        self is Http09 || self is Http10
    }
}

/// The 1:1 translation into the framing layer's enumeration. Cleartext
/// HTTP/2 has no counterpart there and is refused.
pub open spec fn spec_translate_version(v: HttpVersion) -> Result<WsHttpVersion, UpgradeError> {
    match v {
        HttpVersion::Http09 => Ok(WsHttpVersion::Http09),
        HttpVersion::Http10 => Ok(WsHttpVersion::Http10),
        HttpVersion::Http11 => Ok(WsHttpVersion::Http11),
        HttpVersion::H2 => Ok(WsHttpVersion::Http20),
        HttpVersion::H2c => Err(UpgradeError::UnsupportedHttpVersion),
    }
}

/// Translates an HTTP layer version for the framing layer; see
/// [`spec_translate_version`].
pub fn translate_version(v: HttpVersion) -> (r: Result<WsHttpVersion, UpgradeError>)
    ensures
        r == spec_translate_version(v),
{
    match v {
        HttpVersion::Http09 => Ok(WsHttpVersion::Http09),
        HttpVersion::Http10 => Ok(WsHttpVersion::Http10),
        HttpVersion::Http11 => Ok(WsHttpVersion::Http11),
        HttpVersion::H2 => Ok(WsHttpVersion::Http20),
        HttpVersion::H2c => Err(UpgradeError::UnsupportedHttpVersion),
    }
}

/// The ASCII bytes of `HTTP/0.9`.
pub const HTTP09_TEXT: [u8; 8] = [72, 84, 84, 80, 47, 48, 46, 57];

/// The ASCII bytes of `HTTP/1.0`.
pub const HTTP10_TEXT: [u8; 8] = [72, 84, 84, 80, 47, 49, 46, 48];

/// The ASCII bytes of `HTTP/1.1`.
pub const HTTP11_TEXT: [u8; 8] = [72, 84, 84, 80, 47, 49, 46, 49];

/// The ASCII bytes of `HTTP/2.0`.
pub const HTTP20_TEXT: [u8; 8] = [72, 84, 84, 80, 47, 50, 46, 48];

/// The version text that opens a status line written back on `v`.
pub open spec fn spec_version_text(v: WsHttpVersion) -> Seq<u8> {
    match v {
        WsHttpVersion::Http09 => HTTP09_TEXT@,
        WsHttpVersion::Http10 => HTTP10_TEXT@,
        WsHttpVersion::Http11 => HTTP11_TEXT@,
        WsHttpVersion::Http20 => HTTP20_TEXT@,
    }
}

/// The version text as owned bytes; see [`spec_version_text`].
pub fn version_text(v: WsHttpVersion) -> (r: Vec<u8>)
    ensures
        r@ == spec_version_text(v),
{
    match v {
        WsHttpVersion::Http09 => slice_to_vec(HTTP09_TEXT.as_slice()),
        WsHttpVersion::Http10 => slice_to_vec(HTTP10_TEXT.as_slice()),
        WsHttpVersion::Http11 => slice_to_vec(HTTP11_TEXT.as_slice()),
        WsHttpVersion::Http20 => slice_to_vec(HTTP20_TEXT.as_slice()),
    }
}

} // verus!
