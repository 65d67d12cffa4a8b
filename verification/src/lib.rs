//! Verified core of a Discord interactions webhook: Ed25519 request
//! authentication over hex-encoded headers, and dispatch of parsed
//! interactions to a pong, a channel-invite call, or a client error.

pub mod discord;
pub mod dispatch;
pub mod verify;
