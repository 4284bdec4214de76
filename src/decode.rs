//! Turning database change notifications into domain events.
use vstd::prelude::*;

use crate::error::AppError;
use crate::event::{DomainEvent, Notification};
use crate::models::{Chat, Message};
use crate::text::str_eq;

verus! {

/// The notification channels the listener subscribes to.
#[derive(Debug, Clone, Copy, PartialEq, Eq, Structural)]
pub enum Channel {
    ChatChange,
    NewMessage,
    Unknown,
}

/// A row change on the chats table: the operation and the row before and after.
#[derive(Debug, Clone, PartialEq, Eq)]
pub struct ChatUpdated {
    pub op: String,
    pub old: Option<Chat>,
    pub new: Option<Chat>,
}

/// A notification whose payload has been read according to its channel.
#[derive(Debug, Clone, PartialEq, Eq)]
pub enum RawNotification {
    ChatChange(ChatUpdated),
    NewMessage(Message),
    Other,
}

pub open spec fn channel_spec(name: Seq<char>) -> Channel {
    if name == "chat_change"@ {
        Channel::ChatChange
    } else if name == "new_message"@ {
        Channel::NewMessage
    } else {
        Channel::Unknown
    }
}

/// The event a chat row change stands for, or `None` when the change is
/// malformed or ambiguous: an insert without the new row, a delete without
/// the old row, an update without both rows or in which neither the owner nor
/// the name differs, or an unknown operation. An owner change wins over a
/// name change.
pub open spec fn chat_change_event(p: ChatUpdated) -> Option<DomainEvent> {
    if p.op@ == "INSERT"@ {
        match p.new {
            Some(c) => Some(DomainEvent::ChatCreated { chat: c }),
            None => None,
        }
    } else if p.op@ == "UPDATE"@ {
        match (p.old, p.new) {
            (Some(o), Some(n)) => if o.owner_id != n.owner_id {
                Some(DomainEvent::ChatOwnerChanged { chat: n })
            } else if o.name@ != n.name@ {
                Some(DomainEvent::ChatNameChanged { chat: n })
            } else {
                None
            },
            _ => None,
        }
    } else if p.op@ == "DELETE"@ {
        match p.old {
            Some(c) => Some(DomainEvent::ChatDeleted { chat: c }),
            None => None,
        }
    } else {
        None
    }
}

/// The event a raw notification stands for, or `None` when it is invalid.
pub open spec fn notification_event(raw: RawNotification) -> Option<DomainEvent> {
    match raw {
        RawNotification::ChatChange(p) => chat_change_event(p),
        RawNotification::NewMessage(m) => Some(DomainEvent::NewMessage { message: m }),
        RawNotification::Other => None,
    }
}

/// The rejection of an invalid notification.
pub open spec fn is_invalid_operation(e: AppError) -> bool {
    match e {
        AppError::NotificationError(m) => m@ == "Invalid operation"@,
        _ => false,
    }
}

/// An update is classified by what changed: a new owner makes it an owner
/// change, a new name under the same owner a name change, and an update that
/// changes neither is rejected.
pub proof fn lemma_update_classification(op: String, old: Chat, new: Chat)
    requires
        op@ == "UPDATE"@,
    ensures
        old.owner_id != new.owner_id ==> chat_change_event(
            ChatUpdated { op, old: Some(old), new: Some(new) },
        ) == Some(DomainEvent::ChatOwnerChanged { chat: new }),
        old.owner_id == new.owner_id && old.name@ != new.name@ ==> chat_change_event(
            ChatUpdated { op, old: Some(old), new: Some(new) },
        ) == Some(DomainEvent::ChatNameChanged { chat: new }),
        old.owner_id == new.owner_id && old.name@ == new.name@ ==> chat_change_event(
            ChatUpdated { op, old: Some(old), new: Some(new) },
        ) is None,
{
    reveal_strlit("INSERT");
    reveal_strlit("UPDATE");
    assert("INSERT"@ != "UPDATE"@) by {
        assert("INSERT"@[0] != "UPDATE"@[0]);
    }
}

/// Which channel a notification came on.
pub fn channel_of(name: &str) -> (r: Channel)
    ensures
        r == channel_spec(name@),
{
    if str_eq(name, "chat_change") {
        Channel::ChatChange
    } else if str_eq(name, "new_message") {
        Channel::NewMessage
    } else {
        Channel::Unknown
    }
}

fn invalid_operation() -> (r: AppError)
    ensures
        is_invalid_operation(r),
{
    AppError::NotificationError(String::from_str("Invalid operation"))
}

impl Notification {
    /// Decodes a notification into an event on the bus.
    pub fn load(raw: RawNotification) -> (r: Result<Notification, AppError>)
        ensures
            match notification_event(raw) {
                Some(e) => r == Ok::<Notification, AppError>(Notification { event: e }),
                None => r is Err && is_invalid_operation(r->Err_0),
            },
    {
        let event = match raw {
            RawNotification::ChatChange(p) => Self::handle_chat_change(p)?,
            RawNotification::NewMessage(m) => Self::handle_new_message(m),
            RawNotification::Other => {
                return Err(invalid_operation());
            },
        };
        Ok(Notification { event })
    }

    /// Classifies a chat row change; see `chat_change_event`.
    pub fn handle_chat_change(payload: ChatUpdated) -> (r: Result<DomainEvent, AppError>)
        ensures
            match chat_change_event(payload) {
                Some(e) => r == Ok::<DomainEvent, AppError>(e),
                None => r is Err && is_invalid_operation(r->Err_0),
            },
    {
        let ChatUpdated { op, old, new } = payload;
        if str_eq(op.as_str(), "INSERT") {
            match new {
                Some(c) => Ok(DomainEvent::ChatCreated { chat: c }),
                None => Err(invalid_operation()),
            }
        } else if str_eq(op.as_str(), "UPDATE") {
            match (old, new) {
                (Some(o), Some(n)) => {
                    if o.owner_id != n.owner_id {
                        Ok(DomainEvent::ChatOwnerChanged { chat: n })
                    } else if o.name != n.name {
                        Ok(DomainEvent::ChatNameChanged { chat: n })
                    } else {
                        Err(invalid_operation())
                    }
                },
                _ => Err(invalid_operation()),
            }
        } else if str_eq(op.as_str(), "DELETE") {
            match old {
                Some(c) => Ok(DomainEvent::ChatDeleted { chat: c }),
                None => Err(invalid_operation()),
            }
        } else {
            Err(invalid_operation())
        }
    }

    /// Wraps a new message row.
    pub fn handle_new_message(message: Message) -> (r: DomainEvent)
        ensures
            r == (DomainEvent::NewMessage { message }),
    {
        DomainEvent::NewMessage { message }
    }
}

} // verus!
