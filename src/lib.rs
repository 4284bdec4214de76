//! Real-time event distribution for a chat backend: the domain events, the
//! decoding of database change notifications, a bounded multicast bus with
//! per-subscriber cursors, the per-subscription filters, the QR pairing
//! handshake, and identity checks for streaming connections.
pub mod bus;
pub mod chats;
pub mod decode;
pub mod event;
pub mod error;
pub mod identity;
pub mod models;
pub mod pairing;
pub mod subscription;
pub mod text;
