//! The domain events carried by the bus.
use vstd::prelude::*;

use crate::models::{Chat, Message};
use crate::text::copy_string;

verus! {

/// Something that happened: a chat lifecycle change, a new message, or a
/// step of the QR pairing handshake. Chats and messages are value snapshots.
#[derive(Debug, Clone, PartialEq, Eq)]
pub enum DomainEvent {
    ChatCreated { chat: Chat },
    ChatOwnerChanged { chat: Chat },
    ChatNameChanged { chat: Chat },
    ChatDeleted { chat: Chat },
    NewMessage { message: Message },
    QRScanned { device_id: String },
    QRConfirmed { device_id: String, token: String },
    QRCancelled { device_id: String },
}

/// An event as published on the bus.
#[derive(Debug, Clone, PartialEq, Eq)]
pub struct Notification {
    pub event: DomainEvent,
}

/// One of the four chat lifecycle kinds.
pub open spec fn is_chat_lifecycle(e: DomainEvent) -> bool {
    match e {
        DomainEvent::ChatCreated { .. } => true,
        DomainEvent::ChatOwnerChanged { .. } => true,
        DomainEvent::ChatNameChanged { .. } => true,
        DomainEvent::ChatDeleted { .. } => true,
        _ => false,
    }
}

/// The device a pairing event is about, if it is one.
pub open spec fn pairing_device(e: DomainEvent) -> Option<Seq<char>> {
    match e {
        DomainEvent::QRScanned { device_id } => Some(device_id@),
        DomainEvent::QRConfirmed { device_id, .. } => Some(device_id@),
        DomainEvent::QRCancelled { device_id } => Some(device_id@),
        _ => None,
    }
}

/// A pairing event after which the viewer's stream ends.
pub open spec fn is_pairing_terminal(e: DomainEvent) -> bool {
    match e {
        DomainEvent::QRConfirmed { .. } => true,
        DomainEvent::QRCancelled { .. } => true,
        _ => false,
    }
}

impl DomainEvent {
    /// A value copy of this event.
    pub fn duplicate(&self) -> (r: DomainEvent)
        ensures
            r == *self,
    {
        match self {
            DomainEvent::ChatCreated { chat } => DomainEvent::ChatCreated { chat: chat.duplicate() },
            DomainEvent::ChatOwnerChanged { chat } => DomainEvent::ChatOwnerChanged {
                chat: chat.duplicate(),
            },
            DomainEvent::ChatNameChanged { chat } => DomainEvent::ChatNameChanged {
                chat: chat.duplicate(),
            },
            DomainEvent::ChatDeleted { chat } => DomainEvent::ChatDeleted { chat: chat.duplicate() },
            DomainEvent::NewMessage { message } => DomainEvent::NewMessage {
                message: message.duplicate(),
            },
            DomainEvent::QRScanned { device_id } => DomainEvent::QRScanned {
                device_id: copy_string(device_id),
            },
            DomainEvent::QRConfirmed { device_id, token } => DomainEvent::QRConfirmed {
                device_id: copy_string(device_id),
                token: copy_string(token),
            },
            DomainEvent::QRCancelled { device_id } => DomainEvent::QRCancelled {
                device_id: copy_string(device_id),
            },
        }
    }

    /// Whether this is one of the four chat lifecycle kinds.
    pub fn is_chat_lifecycle(&self) -> (r: bool)
        ensures
            r == is_chat_lifecycle(*self),
    {
        match self {
            DomainEvent::ChatCreated { .. } => true,
            DomainEvent::ChatOwnerChanged { .. } => true,
            DomainEvent::ChatNameChanged { .. } => true,
            DomainEvent::ChatDeleted { .. } => true,
            _ => false,
        }
    }
}

} // verus!
