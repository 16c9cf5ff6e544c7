//! Server-side negotiation of the upgrade of an HTTP/1.1 connection to the
//! WebSocket protocol (RFC 6455 section 4): deciding from a request's
//! method, version and headers whether it asks for the upgrade, carrying the
//! client's key in a handshake token, and preparing the exact response bytes
//! with which the upgrade is completed or refused.

pub mod ascii;
pub mod token_list;
pub mod headers;
pub mod version;
pub mod handshake;
pub mod response;
pub mod driver;
pub mod laws;

pub use crate::driver::{
    AcceptPoll, AcceptWsHandshake, ConnectionHandle, IoProgress, RejectPoll, RejectWsHandshake,
    RespondPoll, SendWsResponse, UpgradeRequest, WsConnection, WsResponse, WsStart, WsUpgrade,
};
pub use crate::handshake::{Method, WsHandshake, WsHandshakeView};
pub use crate::headers::Headers;
pub use crate::version::{HttpVersion, UpgradeError, WsHttpVersion};
