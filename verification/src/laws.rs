//! The negotiation's laws, stated over the same spec functions the
//! executable code is verified against, and proved once for all inputs.

use vstd::prelude::*;
use crate::handshake::{
    CONNECTION, Method, SEC_WEBSOCKET_KEY, SEC_WEBSOCKET_VERSION, UPGRADE, VERSION_13, WEBSOCKET,
    spec_detect,
};
use crate::headers::{HeadersView, has_entry_with_token, one_value, values_of};
use crate::response::{GUID, base64_of, sha1_of, spec_accept_response, spec_accept_value};
use crate::version::{HttpVersion, WsHttpVersion, spec_version_text};

verus! {

/// A request whose method is not `GET` is never detected, whatever its
/// version and headers.
pub proof fn lemma_detect_requires_get(m: Method, v: HttpVersion, h: HeadersView)
    requires
        !(m is Get),
    ensures
        spec_detect(m, v, h) is None,
{
}

/// A request below HTTP/1.1 is never detected, whatever its headers.
pub proof fn lemma_detect_requires_http11(m: Method, v: HttpVersion, h: HeadersView)
    requires
        v.below_http11(),
    ensures
        spec_detect(m, v, h) is None,
{
}

/// A request missing the single key header, the `websocket` entry of the
/// `Upgrade` list, or the `upgrade` entry of the `Connection` list is never
/// detected.
pub proof fn lemma_detect_requires_headers(m: Method, v: HttpVersion, h: HeadersView)
    requires
        values_of(h, SEC_WEBSOCKET_KEY@).len() == 0 || !has_entry_with_token(
            h,
            UPGRADE@,
            WEBSOCKET@,
        ) || !has_entry_with_token(h, CONNECTION@, UPGRADE@),
    ensures
        spec_detect(m, v, h) is None,
{
}

/// A single `Sec-WebSocket-Version` header saying anything but `13` blocks
/// detection, whatever else the request carries.
pub proof fn lemma_detect_requires_version_13(m: Method, v: HttpVersion, h: HeadersView)
    requires
        (one_value(h, SEC_WEBSOCKET_VERSION@) matches Some(val) && val != VERSION_13@),
    ensures
        spec_detect(m, v, h) is None,
{
}

/// Absence of the `Sec-WebSocket-Version` header does not block detection:
/// with every other check passing, a token is produced, and it carries the
/// single key value byte for byte and the request's version.
pub proof fn lemma_detect_version_header_optional(m: Method, v: HttpVersion, h: HeadersView)
    requires
        m is Get,
        !v.below_http11(),
        values_of(h, SEC_WEBSOCKET_VERSION@).len() == 0,
        one_value(h, SEC_WEBSOCKET_KEY@) is Some,
        has_entry_with_token(h, UPGRADE@, WEBSOCKET@),
        has_entry_with_token(h, CONNECTION@, UPGRADE@),
    ensures
        (spec_detect(m, v, h) matches Some(t) && t.version == v && Some(t.key) == one_value(
            h,
            SEC_WEBSOCKET_KEY@,
        )),
{
}

/// The accept response carries, between its fixed header block and its
/// closing blank line, exactly the RFC 6455 transform of the token's key:
/// the base64 encoding of the SHA-1 digest of the key bytes followed by
/// the fixed GUID.
pub proof fn lemma_accept_response_round_trip(v: WsHttpVersion, key: Seq<u8>)
    ensures
        spec_accept_response(v, key).subrange(
            spec_version_text(v).len() as int + 89,
            spec_accept_response(v, key).len() as int - 4,
        ) == base64_of(sha1_of(key + GUID@)),
{
    assert(spec_accept_response(v, key).subrange(
        spec_version_text(v).len() as int + 89,
        spec_accept_response(v, key).len() as int - 4,
    ) =~= spec_accept_value(key));
}

} // verus!
