use chat_server::bus::{EventBus, BUS_CAPACITY};
use chat_server::decode::{channel_of, Channel, ChatUpdated, RawNotification};
use chat_server::error::AppError;
use chat_server::event::{DomainEvent, Notification};
use chat_server::models::{Chat, ChatType, Message, MessageType};
use chat_server::subscription::{StreamPoll, SubscriptionRoot};

fn chat(owner: i64, name: &str) -> Chat {
    Chat { id: 7, name: name.to_string(), owner_id: owner, chat_type: ChatType::Group, created_at: 1_700_000_000_000 }
}

fn change(op: &str, old: Option<Chat>, new: Option<Chat>) -> ChatUpdated {
    ChatUpdated { op: op.to_string(), old, new }
}

fn invalid() -> AppError {
    AppError::NotificationError("Invalid operation".to_string())
}

#[test]
fn channels_are_recognised() {
    assert_eq!(channel_of("chat_change"), Channel::ChatChange);
    assert_eq!(channel_of("new_message"), Channel::NewMessage);
    assert_eq!(channel_of("chat_changes"), Channel::Unknown);
    assert_eq!(channel_of(""), Channel::Unknown);
}

#[test]
fn update_with_new_owner_is_owner_change() {
    let r = Notification::handle_chat_change(change("UPDATE", Some(chat(1, "a")), Some(chat(2, "b"))));
    assert_eq!(r, Ok(DomainEvent::ChatOwnerChanged { chat: chat(2, "b") }));
}

#[test]
fn update_with_new_name_is_name_change() {
    let r = Notification::handle_chat_change(change("UPDATE", Some(chat(1, "a")), Some(chat(1, "b"))));
    assert_eq!(r, Ok(DomainEvent::ChatNameChanged { chat: chat(1, "b") }));
}

#[test]
fn update_with_nothing_changed_is_rejected() {
    let r = Notification::handle_chat_change(change("UPDATE", Some(chat(1, "a")), Some(chat(1, "a"))));
    assert_eq!(r, Err(invalid()));
}

#[test]
fn update_without_both_rows_is_rejected() {
    let r = Notification::handle_chat_change(change("UPDATE", None, Some(chat(1, "a"))));
    assert_eq!(r, Err(invalid()));
}

#[test]
fn insert_and_delete_need_their_rows() {
    assert_eq!(
        Notification::handle_chat_change(change("INSERT", None, Some(chat(1, "a")))),
        Ok(DomainEvent::ChatCreated { chat: chat(1, "a") })
    );
    assert_eq!(Notification::handle_chat_change(change("INSERT", Some(chat(1, "a")), None)), Err(invalid()));
    assert_eq!(
        Notification::handle_chat_change(change("DELETE", Some(chat(1, "a")), None)),
        Ok(DomainEvent::ChatDeleted { chat: chat(1, "a") })
    );
    assert_eq!(Notification::handle_chat_change(change("DELETE", None, Some(chat(1, "a")))), Err(invalid()));
    assert_eq!(Notification::handle_chat_change(change("TRUNCATE", Some(chat(1, "a")), None)), Err(invalid()));
}

#[test]
fn load_wraps_messages_and_rejects_other_channels() {
    let m = Message { id: 3, chat_id: 7, user_id: 1, message_type: MessageType::Text, content: "hi".to_string(), created_at: 5 };
    assert_eq!(
        Notification::load(RawNotification::NewMessage(m.clone())),
        Ok(Notification { event: DomainEvent::NewMessage { message: m } })
    );
    assert_eq!(Notification::load(RawNotification::Other), Err(invalid()));
    assert_eq!(
        Notification::load(RawNotification::ChatChange(change("UPDATE", Some(chat(1, "a")), Some(chat(1, "a"))))),
        Err(invalid())
    );
}

#[test]
fn lifecycle_subscriber_receives_deleted_chat() {
    let mut bus = EventBus::new(BUS_CAPACITY);
    let root = SubscriptionRoot;
    let mut s = root.chat(&mut bus, Some(42)).unwrap();
    let n = Notification::load(RawNotification::ChatChange(change("DELETE", Some(chat(9, "gone")), None))).unwrap();
    bus.publish(n.event).unwrap();
    assert_eq!(s.next(&mut bus), StreamPoll::Item(DomainEvent::ChatDeleted { chat: chat(9, "gone") }));
    assert_eq!(s.next(&mut bus), StreamPoll::Pending);
}
