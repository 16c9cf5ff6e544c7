//! The upgrade detector and the handshake token. Detection is a pure
//! classification of a request's method, HTTP version and headers; it yields
//! a token exactly when every RFC 6455 server-side check passes, and the
//! token carries the client's raw key bytes and the negotiated version —
//! nothing else.

use vstd::prelude::*;
use crate::ascii::bytes_eq;
use crate::headers::{Headers, HeadersView, one_value, has_entry_with_token};
use crate::version::HttpVersion;

verus! {

/// The ASCII bytes of the header name `sec-websocket-key`.
pub const SEC_WEBSOCKET_KEY: [u8; 17] = [115, 101, 99, 45, 119, 101, 98, 115, 111, 99, 107, 101,
    116, 45, 107, 101, 121];

/// The ASCII bytes of the header name `sec-websocket-version`.
pub const SEC_WEBSOCKET_VERSION: [u8; 21] = [115, 101, 99, 45, 119, 101, 98, 115, 111, 99, 107,
    101, 116, 45, 118, 101, 114, 115, 105, 111, 110];

/// The ASCII bytes of `upgrade`: the header name, and the connection option
/// looked for in the `Connection` list.
pub const UPGRADE: [u8; 7] = [117, 112, 103, 114, 97, 100, 101];

/// The ASCII bytes of the header name `connection`.
pub const CONNECTION: [u8; 10] = [99, 111, 110, 110, 101, 99, 116, 105, 111, 110];

/// The ASCII bytes of the protocol token `websocket`.
pub const WEBSOCKET: [u8; 9] = [119, 101, 98, 115, 111, 99, 107, 101, 116];

/// The ASCII bytes of `13`, the only WebSocket version accepted.
pub const VERSION_13: [u8; 2] = [49, 51];

/// The HTTP request methods the HTTP layer distinguishes. Detection only
/// asks whether a request is a `GET`.
#[derive(Clone, Debug)]
pub enum Method {
    Options,
    Get,
    Post,
    Put,
    Delete,
    Head,
    Trace,
    Connect,
    Patch,
    /// A method outside the registered set, carried verbatim.
    Extension(String),
}

/// A handshake token: the data a detected upgrade request leaves behind.
/// One is producible only by [`WsHandshake::detect_from_parts`], from a
/// request that passed every check; it holds no reference to that request
/// or its connection, and is consumed by value exactly once.
#[derive(Clone, Debug)]
pub struct WsHandshake {
    key: Vec<u8>,
    version: HttpVersion,
}

/// The mathematical model of a token: the client's raw key bytes and the
/// request's HTTP version.
pub struct WsHandshakeView {
    pub key: Seq<u8>,
    pub version: HttpVersion,
}

impl View for WsHandshake {
    type V = WsHandshakeView;

    closed spec fn view(&self) -> WsHandshakeView {
        WsHandshakeView { key: self.key@, version: self.version }
    }
}

/// Is a `Sec-WebSocket-Version` header present, single, and different from
/// `13`? Absence is tolerated, as is a repeated header.
pub open spec fn spec_bad_ws_version(h: HeadersView) -> bool {
    match one_value(h, SEC_WEBSOCKET_VERSION@) {
        Some(v) => v != VERSION_13@,
        None => false,
    }
}

/// What detection returns: a token exactly when
/// 1. the method is `GET`;
/// 2. the HTTP version is 1.1 or higher;
/// 3. any single `Sec-WebSocket-Version` header says `13`;
/// 4. exactly one `Sec-WebSocket-Key` header is present — its raw bytes
///    become the token's key;
/// 5. an `Upgrade` header lists the token `websocket`;
/// 6. a `Connection` header lists the option `upgrade`
///    (all comparisons ASCII case-insensitive, lists comma-separated).
pub open spec fn spec_detect(m: Method, v: HttpVersion, h: HeadersView) -> Option<
    WsHandshakeView,
> {
    if !(m is Get) {
        None
    } else if v.below_http11() {
        None
    } else if spec_bad_ws_version(h) {
        None
    } else {
        match one_value(h, SEC_WEBSOCKET_KEY@) {
            None => None,
            Some(k) => if has_entry_with_token(h, UPGRADE@, WEBSOCKET@) && has_entry_with_token(
                h,
                CONNECTION@,
                UPGRADE@,
            ) {
                Some(WsHandshakeView { key: k, version: v })
            } else {
                None
            },
        }
    }
}

impl WsHandshake {
    /// The client's key bytes, borrowed.
    pub fn key(&self) -> (r: &[u8])
        ensures
            r@ == self@.key,
    {
        self.key.as_slice()
    }

    /// The client's key bytes, consuming the token.
    pub fn into_key(self) -> (r: Vec<u8>)
        ensures
            r@ == self@.key,
    {
        self.key
    }

    /// The HTTP version recorded when the request was detected.
    pub fn version(&self) -> (r: HttpVersion)
        ensures
            r == self@.version,
    {
        self.version
    }

    /// Classifies a request's parts; see [`spec_detect`] for the exact
    /// conditions. Pure: no side effect, no I/O.
    pub fn detect_from_parts(method: &Method, version: HttpVersion, headers: &Headers) -> (r:
        Option<WsHandshake>)
        ensures
            (match r {
                Some(t) => spec_detect(*method, version, headers@) == Some(t@),
                None => spec_detect(*method, version, headers@) is None,
            }),
    {
        let is_get = match method {
            Method::Get => true,
            _ => false,
        };
        if !is_get {
            return None;
        }
        match version {
            HttpVersion::Http09 | HttpVersion::Http10 => {
                return None;
            },
            _ => {},
        }
        if let Some(v) = headers.get_one(SEC_WEBSOCKET_VERSION.as_slice()) {
            if !bytes_eq(v.as_slice(), VERSION_13.as_slice()) {
                return None;
            }
        }
        let key = match headers.get_one(SEC_WEBSOCKET_KEY.as_slice()) {
            None => {
                return None;
            },
            Some(k) => k,
        };
        if !headers.contains_token_entry(UPGRADE.as_slice(), WEBSOCKET.as_slice()) {
            return None;
        }
        if !headers.contains_token_entry(CONNECTION.as_slice(), UPGRADE.as_slice()) {
            return None;
        }
        Some(WsHandshake { key, version })
    }
}

} // verus!
