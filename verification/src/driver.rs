//! The upgrade driver. A token, an exclusively owned connection and the
//! bytes already read off it become a prepared accept or reject task: the
//! synthetic upgrade context is built, the version translated, and the
//! exact response bytes computed before any I/O. The caller performs the
//! one write and reports what it observed; the task's `poll` then resolves
//! to a WebSocket-framed connection, to the original byte stream, or to an
//! error — never to both framings at once, since the connection moves by
//! value through every step.

use vstd::prelude::*;
use crate::handshake::{Method, WsHandshake, WsHandshakeView, SEC_WEBSOCKET_KEY};
use crate::headers::Headers;
use crate::response::{
    BAD_REQUEST, DEFAULT_REJECT_STATUS, build_accept_response, build_reject_response,
    spec_accept_response, spec_reject_response,
};
use crate::version::{UpgradeError, WsHttpVersion, spec_translate_version, translate_version};

verus! {

/// The ASCII bytes of `*`, the wildcard request target of the synthetic
/// upgrade request.
pub const WILDCARD: [u8; 1] = [42];

/// The subset of the original request that the WebSocket framing layer
/// needs: method `GET`, a wildcard target, the translated version, and a
/// single `Sec-WebSocket-Key` header.
pub struct UpgradeRequest {
    pub method: Method,
    pub target: Vec<u8>,
    pub version: WsHttpVersion,
    pub headers: Headers,
}

/// The synthetic upgrade context handed to the framing layer: the request
/// it will answer, the connection, and the read-ahead bytes that precede
/// anything still unread on it.
pub struct WsUpgrade<T> {
    pub request: UpgradeRequest,
    pub stream: T,
    pub buffer: Vec<u8>,
}

/// A connection as a plain byte stream: the duplex handle and the bytes
/// read ahead of any HTTP parsing. Owned by exactly one holder at a time.
pub struct ConnectionHandle<T> {
    pub io: T,
    pub read_buf: Vec<u8>,
}

/// A connection after reframing: the same handle, now speaking WebSocket;
/// the read-ahead bytes open its frame stream.
pub struct WsConnection<T> {
    pub io: T,
    pub read_buf: Vec<u8>,
}

/// What the caller observed of the response write it was asked to perform:
/// not finished yet, fully flushed, or failed.
#[derive(Clone, Copy, Debug, PartialEq, Eq, Structural)]
pub enum IoProgress {
    Pending,
    Flushed,
    Failed,
}

/// A prepared accept task: the response owed to the client is fixed before
/// any byte moves, or the failure is already decided.
pub struct AcceptWsHandshake<T> {
    pub io: T,
    pub read_buf: Vec<u8>,
    pub prepared: Result<Vec<u8>, UpgradeError>,
}

/// A prepared reject task.
pub struct RejectWsHandshake<T> {
    pub io: T,
    pub read_buf: Vec<u8>,
    pub prepared: Result<Vec<u8>, UpgradeError>,
}

/// A prepared response task: an accept or a reject, behind one error
/// channel.
pub struct SendWsResponse<T>(pub Result<AcceptWsHandshake<T>, RejectWsHandshake<T>>);

/// What one step of an accept task yields.
pub enum AcceptPoll<T> {
    /// The write has not finished; the task is handed back unchanged.
    NotReady(AcceptWsHandshake<T>),
    /// The response is flushed; the connection is WebSocket-framed.
    Ready(WsConnection<T>),
    /// The task failed; the connection is gone with it.
    Failed(UpgradeError),
}

/// What one step of a reject task yields.
pub enum RejectPoll<T> {
    NotReady(RejectWsHandshake<T>),
    /// The response is flushed; the connection is handed back as the plain
    /// byte stream it was.
    Ready(ConnectionHandle<T>),
    Failed(UpgradeError),
}

/// What one step of a response task yields.
pub enum RespondPoll<T> {
    NotReady(SendWsResponse<T>),
    /// Accept resolves to the WebSocket side, reject to the plain side.
    Ready(Result<WsConnection<T>, ConnectionHandle<T>>),
    Failed(UpgradeError),
}

/// What [`WsHandshake::accept`] leaves in its task: the connection and
/// read-ahead taken over unchanged, and either the exact accept response
/// for the token's key, or the version-translation failure.
pub open spec fn accept_post<T>(
    t: WsHandshakeView,
    io: T,
    read_buf: Seq<u8>,
    r: AcceptWsHandshake<T>,
) -> bool {
    &&& r.io == io
    &&& r.read_buf@ == read_buf
    &&& (match r.prepared {
        Ok(resp) => spec_translate_version(t.version) matches Ok(wv) && resp@
            == spec_accept_response(wv, t.key),
        Err(e) => spec_translate_version(t.version) == Err::<WsHttpVersion, UpgradeError>(e),
    })
}

/// What [`WsHandshake::reject_with`] leaves in its task, for a given status
/// and reason.
pub open spec fn reject_post<T>(
    t: WsHandshakeView,
    io: T,
    read_buf: Seq<u8>,
    status: int,
    reason: Seq<u8>,
    r: RejectWsHandshake<T>,
) -> bool {
    &&& r.io == io
    &&& r.read_buf@ == read_buf
    &&& (match r.prepared {
        Ok(resp) => spec_translate_version(t.version) matches Ok(wv) && resp@
            == spec_reject_response(wv, status, reason),
        Err(e) => spec_translate_version(t.version) == Err::<WsHttpVersion, UpgradeError>(e),
    })
}

/// What [`WsHandshake::respond`] leaves in its task: the accept task when
/// the decision was to accept, else the reject task with the framing
/// layer's stock `400 Bad Request`.
pub open spec fn respond_post<T>(
    t: WsHandshakeView,
    io: T,
    read_buf: Seq<u8>,
    accept: bool,
    r: SendWsResponse<T>,
) -> bool {
    match r.0 {
        Ok(a) => accept && accept_post(t, io, read_buf, a),
        Err(j) => !accept && reject_post(
            t,
            io,
            read_buf,
            DEFAULT_REJECT_STATUS as int,
            BAD_REQUEST@,
            j,
        ),
    }
}

impl WsHandshake {
    /// Builds the synthetic upgrade context, translating the token's HTTP
    /// version for the framing layer; a version it cannot represent is a
    /// typed failure before any I/O.
    pub fn build_ws_upgrade<T>(self, io: T, read_buf: Vec<u8>) -> (r: Result<
        WsUpgrade<T>,
        UpgradeError,
    >)
        ensures
            (match r {
                Ok(u) => {
                    &&& spec_translate_version(self@.version) == Ok::<WsHttpVersion, UpgradeError>(
                        u.request.version,
                    )
                    &&& u.request.method is Get
                    &&& u.request.target@ == WILDCARD@
                    &&& u.request.headers@ == seq![(SEC_WEBSOCKET_KEY@, self@.key)]
                    &&& u.stream == io
                    &&& u.buffer@ == read_buf@
                },
                Err(e) => spec_translate_version(self@.version) == Err::<
                    WsHttpVersion,
                    UpgradeError,
                >(e),
            }),
    {
        let version = self.version();
        let key = self.into_key();
        match translate_version(version) {
            Err(e) => Err(e),
            Ok(wv) => {
                let mut headers = Headers::new();
                let name = vstd::slice::slice_to_vec(SEC_WEBSOCKET_KEY.as_slice());
                headers.add(name, key);
                proof {
                    assert(headers@ =~= seq![(SEC_WEBSOCKET_KEY@, self@.key)]);
                }
                Ok(
                    WsUpgrade {
                        request: UpgradeRequest {
                            method: Method::Get,
                            target: vstd::slice::slice_to_vec(WILDCARD.as_slice()),
                            version: wv,
                            headers,
                        },
                        stream: io,
                        buffer: read_buf,
                    },
                )
            },
        }
    }

    /// Consumes the token and prepares the accept task; see
    /// [`accept_post`].
    pub fn accept<T>(self, io: T, read_buf: Vec<u8>) -> (r: AcceptWsHandshake<T>)
        ensures
            accept_post(self@, io, read_buf@, r),
    {
        let version = self.version();
        let key = self.into_key();
        match translate_version(version) {
            Err(e) => AcceptWsHandshake { io, read_buf, prepared: Err(e) },
            Ok(wv) => {
                let resp = build_accept_response(wv, key.as_slice());
                AcceptWsHandshake { io, read_buf, prepared: Ok(resp) }
            },
        }
    }

    /// Consumes the token and prepares the reject task with the framing
    /// layer's stock `400 Bad Request`; see [`reject_post`].
    pub fn reject<T>(self, io: T, read_buf: Vec<u8>) -> (r: RejectWsHandshake<T>)
        ensures
            reject_post(self@, io, read_buf@, DEFAULT_REJECT_STATUS as int, BAD_REQUEST@, r),
    {
        proof {
            assert(forall|i: int|
                0 <= i < BAD_REQUEST@.len() ==> BAD_REQUEST@[i] != 13 && BAD_REQUEST@[i] != 10);
        }
        self.reject_with(io, read_buf, DEFAULT_REJECT_STATUS, BAD_REQUEST.as_slice())
    }

    /// Consumes the token and prepares the reject task with a
    /// caller-chosen status line, as the rejection code is the
    /// application's to pick; see [`reject_post`]. The status must be a
    /// three-digit code other than 101 and the reason must stay on its
    /// line.
    pub fn reject_with<T>(self, io: T, read_buf: Vec<u8>, status: u16, reason: &[u8]) -> (r:
        RejectWsHandshake<T>)
        requires
            100 <= status <= 599,
            status != 101,
            forall|i: int| 0 <= i < reason@.len() ==> reason@[i] != 13 && reason@[i] != 10,
        ensures
            reject_post(self@, io, read_buf@, status as int, reason@, r),
    {
        let version = self.version();
        match translate_version(version) {
            Err(e) => RejectWsHandshake { io, read_buf, prepared: Err(e) },
            Ok(wv) => {
                let resp = build_reject_response(wv, status, reason);
                RejectWsHandshake { io, read_buf, prepared: Ok(resp) }
            },
        }
    }

    /// Consumes the token and dispatches on the decision: the accept task
    /// when `accept` holds, else the reject task; both share one error
    /// channel. See [`respond_post`].
    pub fn respond<T>(self, io: T, read_buf: Vec<u8>, accept: bool) -> (r: SendWsResponse<T>)
        ensures
            respond_post(self@, io, read_buf@, accept, r),
    {
        if accept {
            SendWsResponse(Ok(self.accept(io, read_buf)))
        } else {
            SendWsResponse(Err(self.reject(io, read_buf)))
        }
    }

    /// Bundles the token with a connection and its read-ahead, leaving the
    /// decision for later.
    pub fn start<T>(self, io: T, read_buf: Vec<u8>) -> (r: WsStart<T>)
        ensures
            r.handshake@ == self@,
            r.io == io,
            r.read_buf@ == read_buf@,
    {
        WsStart::new(self, io, read_buf)
    }
}

impl<T> AcceptWsHandshake<T> {
    /// One cooperative step. A pending write hands the task back
    /// unchanged; a flushed write resolves to the WebSocket-framed
    /// connection with the read-ahead kept; a failed write, or a failure
    /// decided at preparation, resolves to the error — the write always
    /// happens before resolution.
    pub fn poll(self, progress: IoProgress) -> (r: AcceptPoll<T>)
        ensures
            (match self.prepared {
                Err(e) => r == AcceptPoll::<T>::Failed(e),
                Ok(resp) => match progress {
                    IoProgress::Pending => r matches AcceptPoll::NotReady(s) && s.io == self.io
                        && s.read_buf@ == self.read_buf@ && (s.prepared matches Ok(p) && p@
                        == resp@),
                    IoProgress::Flushed => r matches AcceptPoll::Ready(c) && c.io == self.io
                        && c.read_buf@ == self.read_buf@,
                    IoProgress::Failed => r == AcceptPoll::<T>::Failed(UpgradeError::Transport),
                },
            }),
    {
        let AcceptWsHandshake { io, read_buf, prepared } = self;
        match prepared {
            Err(e) => AcceptPoll::Failed(e),
            Ok(resp) => match progress {
                IoProgress::Pending => AcceptPoll::NotReady(
                    AcceptWsHandshake { io, read_buf, prepared: Ok(resp) },
                ),
                IoProgress::Flushed => AcceptPoll::Ready(WsConnection { io, read_buf }),
                IoProgress::Failed => AcceptPoll::Failed(UpgradeError::Transport),
            },
        }
    }
}

impl<T> RejectWsHandshake<T> {
    /// One cooperative step; as [`AcceptWsHandshake::poll`], but a flushed
    /// write resolves to the original plain byte stream, its read-ahead
    /// unchanged, since no reframing occurred.
    pub fn poll(self, progress: IoProgress) -> (r: RejectPoll<T>)
        ensures
            (match self.prepared {
                Err(e) => r == RejectPoll::<T>::Failed(e),
                Ok(resp) => match progress {
                    IoProgress::Pending => r matches RejectPoll::NotReady(s) && s.io == self.io
                        && s.read_buf@ == self.read_buf@ && (s.prepared matches Ok(p) && p@
                        == resp@),
                    IoProgress::Flushed => r matches RejectPoll::Ready(h) && h.io == self.io
                        && h.read_buf@ == self.read_buf@,
                    IoProgress::Failed => r == RejectPoll::<T>::Failed(UpgradeError::Transport),
                },
            }),
    {
        let RejectWsHandshake { io, read_buf, prepared } = self;
        match prepared {
            Err(e) => RejectPoll::Failed(e),
            Ok(resp) => match progress {
                IoProgress::Pending => RejectPoll::NotReady(
                    RejectWsHandshake { io, read_buf, prepared: Ok(resp) },
                ),
                IoProgress::Flushed => RejectPoll::Ready(ConnectionHandle { io, read_buf }),
                IoProgress::Failed => RejectPoll::Failed(UpgradeError::Transport),
            },
        }
    }
}

impl<T> SendWsResponse<T> {
    /// One cooperative step of whichever task the decision chose; accept
    /// resolves to `Ok` of the WebSocket side, reject to `Err` of the
    /// plain side, one error channel for both.
    pub fn poll(self, progress: IoProgress) -> (r: RespondPoll<T>)
        ensures
            (match self.0 {
                Ok(a) => match a.prepared {
                    Err(e) => r == RespondPoll::<T>::Failed(e),
                    Ok(resp) => match progress {
                        IoProgress::Pending => r matches RespondPoll::NotReady(s) && (s.0 matches
                            Ok(a2) && a2.io == a.io && a2.read_buf@ == a.read_buf@ && (a2.prepared
                            matches Ok(p) && p@ == resp@)),
                        IoProgress::Flushed => r matches RespondPoll::Ready(q) && q matches Ok(c)
                            && c.io == a.io && c.read_buf@ == a.read_buf@,
                        IoProgress::Failed => r == RespondPoll::<T>::Failed(
                            UpgradeError::Transport,
                        ),
                    },
                },
                Err(j) => match j.prepared {
                    Err(e) => r == RespondPoll::<T>::Failed(e),
                    Ok(resp) => match progress {
                        IoProgress::Pending => r matches RespondPoll::NotReady(s) && (s.0 matches
                            Err(j2) && j2.io == j.io && j2.read_buf@ == j.read_buf@ && (j2.prepared
                            matches Ok(p) && p@ == resp@)),
                        IoProgress::Flushed => r matches RespondPoll::Ready(q) && q matches Err(h)
                            && h.io == j.io && h.read_buf@ == j.read_buf@,
                        IoProgress::Failed => r == RespondPoll::<T>::Failed(
                            UpgradeError::Transport,
                        ),
                    },
                },
            }),
    {
        match self.0 {
            Ok(a) => match a.poll(progress) {
                AcceptPoll::NotReady(s) => RespondPoll::NotReady(SendWsResponse(Ok(s))),
                AcceptPoll::Ready(c) => RespondPoll::Ready(Ok(c)),
                AcceptPoll::Failed(e) => RespondPoll::Failed(e),
            },
            Err(j) => match j.poll(progress) {
                RejectPoll::NotReady(s) => RespondPoll::NotReady(SendWsResponse(Err(s))),
                RejectPoll::Ready(h) => RespondPoll::Ready(Err(h)),
                RejectPoll::Failed(e) => RespondPoll::Failed(e),
            },
        }
    }
}

/// A token paired with the connection and read-ahead it was detected on,
/// the decision still open.
#[derive(Clone, Debug)]
pub struct WsStart<T> {
    pub handshake: WsHandshake,
    pub io: T,
    pub read_buf: Vec<u8>,
}

impl<T> WsStart<T> {
    /// Pairs a token with a connection and its read-ahead.
    pub fn new(handshake: WsHandshake, io: T, read_buf: Vec<u8>) -> (r: WsStart<T>)
        ensures
            r.handshake@ == handshake@,
            r.io == io,
            r.read_buf@ == read_buf@,
    {
        WsStart { handshake, io, read_buf }
    }

    /// Takes the pairing apart again, unchanged.
    pub fn into_parts(self) -> (r: (WsHandshake, T, Vec<u8>))
        ensures
            r.0@ == self.handshake@,
            r.1 == self.io,
            r.2@ == self.read_buf@,
    {
        (self.handshake, self.io, self.read_buf)
    }

    /// Accepts the upgrade; see [`WsHandshake::accept`].
    pub fn accept(self) -> (r: AcceptWsHandshake<T>)
        ensures
            accept_post(self.handshake@, self.io, self.read_buf@, r),
    {
        self.handshake.accept(self.io, self.read_buf)
    }

    /// Rejects the upgrade; see [`WsHandshake::reject`].
    pub fn reject(self) -> (r: RejectWsHandshake<T>)
        ensures
            reject_post(
                self.handshake@,
                self.io,
                self.read_buf@,
                DEFAULT_REJECT_STATUS as int,
                BAD_REQUEST@,
                r,
            ),
    {
        self.handshake.reject(self.io, self.read_buf)
    }

    /// Dispatches on the decision; see [`WsHandshake::respond`].
    pub fn respond(self, accept: bool) -> (r: SendWsResponse<T>)
        ensures
            respond_post(self.handshake@, self.io, self.read_buf@, accept, r),
    {
        self.handshake.respond(self.io, self.read_buf, accept)
    }
}

/// A token paired with the decision the application took on it.
#[derive(Clone, Debug)]
pub struct WsResponse {
    pub handshake: WsHandshake,
    pub accept: bool,
}

impl WsResponse {
    /// The decision to accept.
    pub fn accept(handshake: WsHandshake) -> (r: WsResponse)
        ensures
            r.handshake@ == handshake@,
            r.accept == true,
    {
        WsResponse { handshake, accept: true }
    }

    /// The decision to reject.
    pub fn reject(handshake: WsHandshake) -> (r: WsResponse)
        ensures
            r.handshake@ == handshake@,
            r.accept == false,
    {
        WsResponse { handshake, accept: false }
    }

    /// Carries the decision out on a connection; see
    /// [`WsHandshake::respond`].
    pub fn send<T>(self, io: T, read_buf: Vec<u8>) -> (r: SendWsResponse<T>)
        ensures
            respond_post(self.handshake@, io, read_buf@, self.accept, r),
    {
        self.handshake.respond(io, read_buf, self.accept)
    }
}

} // verus!
