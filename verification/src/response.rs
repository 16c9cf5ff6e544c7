//! The bytes a handshake writes back: the `101 Switching Protocols`
//! response that completes an upgrade, and the plain HTTP response that
//! refuses one. The accept value is the RFC 6455 transform of the client's
//! key — the key bytes, the fixed GUID appended, SHA-1 hashed,
//! base64-encoded — computed by the same hash and encoding crates the
//! WebSocket framing layer uses.

use vstd::prelude::*;
use vstd::slice::slice_to_vec;
use base64::Engine;
use sha1::Digest;
use crate::version::{WsHttpVersion, spec_version_text, version_text};

verus! {

/// The ASCII bytes of the RFC 6455 handshake GUID
/// `258EAFA5-E914-47DA-95CA-C5AB0DC85B11`.
pub const GUID: [u8; 36] = [50, 53, 56, 69, 65, 70, 65, 53, 45, 69, 57, 49, 52, 45, 52, 55, 68,
    65, 45, 57, 53, 67, 65, 45, 67, 53, 65, 66, 48, 68, 67, 56, 53, 66, 49, 49];

/// The ASCII bytes between the version text and the accept value of a `101`
/// response: ` 101 Switching Protocols`, then the `Upgrade: websocket`,
/// `Connection: Upgrade` and `Sec-WebSocket-Accept: ` header lines.
pub const ACCEPT_MID: [u8; 89] = [32, 49, 48, 49, 32, 83, 119, 105, 116, 99, 104, 105, 110, 103,
    32, 80, 114, 111, 116, 111, 99, 111, 108, 115, 13, 10, 85, 112, 103, 114, 97, 100, 101, 58,
    32, 119, 101, 98, 115, 111, 99, 107, 101, 116, 13, 10, 67, 111, 110, 110, 101, 99, 116, 105,
    111, 110, 58, 32, 85, 112, 103, 114, 97, 100, 101, 13, 10, 83, 101, 99, 45, 87, 101, 98, 83,
    111, 99, 107, 101, 116, 45, 65, 99, 99, 101, 112, 116, 58, 32];

/// The ASCII bytes of the blank line that ends a header block.
pub const CRLF2: [u8; 4] = [13, 10, 13, 10];

/// The ASCII bytes of `Bad Request`, the framing layer's stock reason
/// phrase for a refused upgrade.
pub const BAD_REQUEST: [u8; 11] = [66, 97, 100, 32, 82, 101, 113, 117, 101, 115, 116];

/// The status the framing layer writes when an upgrade is refused without a
/// caller-chosen code.
pub const DEFAULT_REJECT_STATUS: u16 = 400;

/// The SHA-1 digest of `data`, named; what it is on given bytes only the
/// hash itself says.
pub uninterp spec fn sha1_of(data: Seq<u8>) -> Seq<u8>;

/// The standard, padded base64 encoding of `data`, named.
pub uninterp spec fn base64_of(data: Seq<u8>) -> Seq<u8>;

/// Relies on `sha1::Sha1::digest` (the RustCrypto SHA-1): the digest is a
/// function of the input bytes alone, and is 20 bytes long.
#[verifier::external_body]
fn sha1_digest(data: &Vec<u8>) -> (r: Vec<u8>)
    ensures
        r@ == sha1_of(data@),
        r@.len() == 20,
{
    sha1::Sha1::digest(data.as_slice()).as_slice().to_vec()
}

/// Relies on `base64::engine::general_purpose::STANDARD.encode`: the
/// standard-alphabet, padded encoding, a function of the input bytes alone.
#[verifier::external_body]
fn base64_encode(data: &Vec<u8>) -> (r: Vec<u8>)
    ensures
        r@ == base64_of(data@),
{
    base64::engine::general_purpose::STANDARD.encode(data.as_slice()).into_bytes()
}

/// Appends `src` to `dst`.
fn append(dst: &mut Vec<u8>, src: &[u8])
    ensures
        final(dst)@ == old(dst)@ + src@,
{
    proof {
        assert(dst@ =~= old(dst)@ + src@.take(0));
    }
    let mut i: usize = 0;
    while i < src.len()
        invariant
            0 <= i <= src@.len(),
            dst@ == old(dst)@ + src@.take(i as int),
        decreases src@.len() - i,
    {
        dst.push(src[i]);
        proof {
            assert(old(dst)@ + src@.take(i as int + 1) =~= (old(dst)@ + src@.take(i as int)).push(
                src@[i as int],
            ));
        }
        i = i + 1;
    }
    proof {
        assert(src@.take(src@.len() as int) =~= src@);
    }
}

/// The RFC 6455 accept value of a key: the key bytes with the GUID
/// appended, SHA-1 hashed, base64-encoded.
pub open spec fn spec_accept_value(key: Seq<u8>) -> Seq<u8> {
    base64_of(sha1_of(key + GUID@))
}

/// Computes the accept value of a key; see [`spec_accept_value`].
pub fn accept_value(key: &[u8]) -> (r: Vec<u8>)
    ensures
        r@ == spec_accept_value(key@),
{
    let mut buf = slice_to_vec(key);
    append(&mut buf, GUID.as_slice());
    let digest = sha1_digest(&buf);
    base64_encode(&digest)
}

/// The complete `101 Switching Protocols` response owed on accept: status
/// line in the negotiated version, `Upgrade`, `Connection` and
/// `Sec-WebSocket-Accept` headers, blank line.
pub open spec fn spec_accept_response(v: WsHttpVersion, key: Seq<u8>) -> Seq<u8> {
    spec_version_text(v) + ACCEPT_MID@ + spec_accept_value(key) + CRLF2@
}

/// Builds the accept response; see [`spec_accept_response`].
pub fn build_accept_response(v: WsHttpVersion, key: &[u8]) -> (r: Vec<u8>)
    ensures
        r@ == spec_accept_response(v, key@),
{
    let mut out = version_text(v);
    append(&mut out, ACCEPT_MID.as_slice());
    let value = accept_value(key);
    append(&mut out, value.as_slice());
    append(&mut out, CRLF2.as_slice());
    out
}

/// The three ASCII digits of a status code.
pub open spec fn spec_status_digits(s: int) -> Seq<u8>
    recommends
        100 <= s <= 999,
{
    seq![(48 + s / 100) as u8, (48 + (s / 10) % 10) as u8, (48 + s % 10) as u8]
}

/// The plain HTTP response owed on reject: a status line in the negotiated
/// version with the caller's status and reason, no headers, blank line.
pub open spec fn spec_reject_response(v: WsHttpVersion, status: int, reason: Seq<u8>) -> Seq<u8> {
    spec_version_text(v) + seq![32u8] + spec_status_digits(status) + seq![32u8] + reason + CRLF2@
}

/// Builds the reject response; see [`spec_reject_response`]. The status
/// must be a three-digit code other than 101, and the reason phrase must
/// stay on its line.
pub fn build_reject_response(v: WsHttpVersion, status: u16, reason: &[u8]) -> (r: Vec<u8>)
    requires
        100 <= status <= 599,
        status != 101,
        forall|i: int| 0 <= i < reason@.len() ==> reason@[i] != 13 && reason@[i] != 10,
    ensures
        r@ == spec_reject_response(v, status as int, reason@),
{
    let mut out = version_text(v);
    out.push(32);
    let d1: u8 = (status / 100) as u8 + 48;
    let d2: u8 = ((status / 10) % 10) as u8 + 48;
    let d3: u8 = (status % 10) as u8 + 48;
    out.push(d1);
    out.push(d2);
    out.push(d3);
    out.push(32);
    append(&mut out, reason);
    append(&mut out, CRLF2.as_slice());
    proof {
        assert(out@ =~= spec_reject_response(v, status as int, reason@));
    }
    out
}

} // verus!
