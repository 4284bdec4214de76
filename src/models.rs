//! Immutable snapshots of the rows the events carry.
use vstd::prelude::*;

use crate::text::copy_string;

verus! {

/// Identifier of a user.
pub type UserId = i64;

/// Kind of a chat: two members, or a group.
#[derive(Debug, Clone, Copy, PartialEq, Eq, Structural)]
pub enum ChatType {
    Private,
    Group,
}

/// Kind of a message body.
#[derive(Debug, Clone, Copy, PartialEq, Eq, Structural)]
pub enum MessageType {
    Text,
    Image,
    Video,
    Audio,
    File,
}

/// Which mutation produced an event.
#[derive(Debug, Clone, Copy, PartialEq, Eq, Structural)]
pub enum MutationType {
    Created,
    Deleted,
    Updated,
}

/// A chat row. `created_at` is milliseconds since the Unix epoch.
#[derive(Debug, Clone, PartialEq, Eq)]
pub struct Chat {
    pub id: i64,
    pub name: String,
    pub owner_id: UserId,
    pub chat_type: ChatType,
    pub created_at: i64,
}

/// A message row. `created_at` is milliseconds since the Unix epoch.
#[derive(Debug, Clone, PartialEq, Eq)]
pub struct Message {
    pub id: i64,
    pub chat_id: i64,
    pub user_id: UserId,
    pub message_type: MessageType,
    pub content: String,
    pub created_at: i64,
}

/// A user row, without its password hash. `created_at` is milliseconds since the Unix epoch.
#[derive(Debug, Clone, PartialEq, Eq)]
pub struct User {
    pub id: UserId,
    pub fullname: String,
    pub email: String,
    pub avatar: Option<String>,
    pub created_at: i64,
}

/// The custom claims a signed identity token carries.
#[derive(Debug, Clone, Copy, PartialEq, Eq, Structural)]
pub struct IdClaims {
    pub user_id: i64,
}

/// The body of an error answer.
#[derive(Debug, Clone, PartialEq, Eq)]
pub struct ErrorOutput {
    pub error: String,
}

impl ErrorOutput {
    pub fn new(error: String) -> (r: ErrorOutput)
        ensures
            r.error@ == error@,
    {
        ErrorOutput { error }
    }
}

impl Chat {
    /// A value copy of this snapshot.
    pub fn duplicate(&self) -> (r: Chat)
        ensures
            r == *self,
    {
        Chat {
            id: self.id,
            name: copy_string(&self.name),
            owner_id: self.owner_id,
            chat_type: self.chat_type,
            created_at: self.created_at,
        }
    }
}

impl Message {
    /// A value copy of this snapshot.
    pub fn duplicate(&self) -> (r: Message)
        ensures
            r == *self,
    {
        Message {
            id: self.id,
            chat_id: self.chat_id,
            user_id: self.user_id,
            message_type: self.message_type,
            content: copy_string(&self.content),
            created_at: self.created_at,
        }
    }
}

} // verus!
