use chat_server::chats::{check_drop_permission, default_group_name, display_name, plan_chat, private_peer};
use chat_server::error::AppError;
use chat_server::identity::{bearer_token, handle_connect_init};
use chat_server::models::{Chat, ChatType, ErrorOutput, User};

fn chat(t: ChatType, owner: i64) -> Chat {
    Chat { id: 1, name: "team".to_string(), owner_id: owner, chat_type: t, created_at: 0 }
}

fn user(id: i64, name: &str) -> User {
    User { id, fullname: name.to_string(), email: format!("{}@example.com", name), avatar: None, created_at: 0 }
}

#[test]
fn bearer_token_is_extracted() {
    assert_eq!(bearer_token("Bearer abc.def"), Some("abc.def".to_string()));
    assert_eq!(bearer_token("Bearer "), Some(String::new()));
    assert_eq!(bearer_token("Basic abc"), None);
    assert_eq!(bearer_token("Bearer"), None);
}

#[test]
fn connection_without_identity_is_refused() {
    assert_eq!(handle_connect_init(Some(3)), Ok(3));
    assert_eq!(handle_connect_init(None), Err(AppError::Unauthorized));
}

#[test]
fn status_codes() {
    assert_eq!(AppError::Unauthorized.status_code(), 401);
    assert_eq!(AppError::EmailAlreadyExists("a".to_string()).status_code(), 409);
    assert_eq!(AppError::EmailCodeIncorrect.status_code(), 422);
    assert_eq!(AppError::PasswordError.status_code(), 403);
    assert_eq!(AppError::ChatNotFound.status_code(), 404);
    assert_eq!(AppError::NotificationError("x".to_string()).status_code(), 500);
}

#[test]
fn error_output_keeps_message() {
    assert_eq!(ErrorOutput::new("boom".to_string()).error, "boom");
}

#[test]
fn chat_plan_adds_owner_and_picks_kind() {
    assert_eq!(plan_chat(1, vec![2]), Ok((vec![2, 1], ChatType::Private)));
    assert_eq!(plan_chat(1, vec![1, 2, 3]), Ok((vec![1, 2, 3], ChatType::Group)));
    assert!(matches!(plan_chat(1, vec![1]), Err(AppError::CreateChatError(_))));
    assert!(matches!(plan_chat(1, vec![]), Err(AppError::CreateChatError(_))));
}

#[test]
fn private_peer_is_first_other_member() {
    assert_eq!(private_peer(1, &vec![1, 5, 6]), 5);
    assert_eq!(private_peer(1, &vec![1, 1]), 1);
    assert_eq!(private_peer(1, &vec![]), 1);
}

#[test]
fn group_default_name_joins_names() {
    let names = vec!["Ann".to_string(), "Bob".to_string(), "Cy".to_string()];
    assert_eq!(default_group_name(&names), "Ann,Bob,Cy等的群聊");
    assert_eq!(default_group_name(&vec![]), "等的群聊");
}

#[test]
fn drop_permission_rules() {
    assert_eq!(check_drop_permission(&chat(ChatType::Group, 1), &vec![1, 2, 3], 1), Ok(()));
    assert!(matches!(check_drop_permission(&chat(ChatType::Group, 1), &vec![1, 2, 3], 2), Err(AppError::ChatError(_))));
    assert_eq!(check_drop_permission(&chat(ChatType::Private, 1), &vec![1, 2], 2), Ok(()));
    assert!(matches!(check_drop_permission(&chat(ChatType::Private, 1), &vec![1, 2], 3), Err(AppError::ChatError(_))));
}

#[test]
fn display_name_of_private_and_group_chats() {
    let members = vec![user(1, "me"), user(2, "you")];
    assert_eq!(display_name(&chat(ChatType::Private, 1), &members, 1), Ok("you".to_string()));
    assert_eq!(display_name(&chat(ChatType::Group, 1), &members, 1), Ok("team".to_string()));
    assert_eq!(display_name(&chat(ChatType::Private, 1), &vec![user(1, "me")], 1), Err(AppError::UserNotFound));
}
