//! The decisions behind chat creation, deletion and naming.
use vstd::prelude::*;
use vstd::string::StringExecFns;

use crate::error::AppError;
use crate::models::{Chat, ChatType, User, UserId};
use crate::text::copy_string;

verus! {

/// Whether `v` holds `x`.
pub fn contains_id(v: &Vec<UserId>, x: UserId) -> (r: bool)
    ensures
        r == v@.contains(x),
{
    let mut i: usize = 0;
    while i < v.len()
        invariant
            i <= v.len(),
            forall|j: int| 0 <= j < i ==> v@[j] != x,
        decreases v.len() - i,
    {
        if v[i] == x {
            assert(v@[i as int] == x);
            return true;
        }
        i = i + 1;
    }
    false
}

/// The members of a new chat: the requested ones, with the owner added when
/// missing.
pub open spec fn chat_members(owner_id: UserId, member_ids: Seq<UserId>) -> Seq<UserId> {
    if member_ids.contains(owner_id) {
        member_ids
    } else {
        member_ids.push(owner_id)
    }
}

/// A chat of exactly two members is private; a larger one is a group.
pub open spec fn chat_type_for(n: nat) -> ChatType {
    if n == 2 {
        ChatType::Private
    } else {
        ChatType::Group
    }
}

/// Completes the member list of a chat `owner_id` creates and picks its
/// kind. Fewer than two members is refused.
pub fn plan_chat(owner_id: UserId, member_ids: Vec<UserId>) -> (r: Result<
    (Vec<UserId>, ChatType),
    AppError,
>)
    requires
        member_ids.len() < usize::MAX,
    ensures
        chat_members(owner_id, member_ids@).len() < 2 <==> r is Err,
        match r {
            Ok((m, t)) => m@ == chat_members(owner_id, member_ids@) && t == chat_type_for(m@.len()),
            Err(e) => e is CreateChatError,
        },
{
    let mut member_ids = member_ids;
    if !contains_id(&member_ids, owner_id) {
        member_ids.push(owner_id);
    }
    if member_ids.len() < 2 {
        return Err(AppError::CreateChatError(String::from_str("Member ids must be at least 2")));
    }
    let t = if member_ids.len() == 2 {
        ChatType::Private
    } else {
        ChatType::Group
    };
    Ok((member_ids, t))
}

/// The other party of a private chat: the first member that is not the
/// owner, or the owner when there is none.
pub open spec fn private_peer_spec(owner_id: UserId, members: Seq<UserId>) -> UserId
    decreases members.len(),
{
    if members.len() == 0 {
        owner_id
    } else if members[0] != owner_id {
        members[0]
    } else {
        private_peer_spec(owner_id, members.drop_first())
    }
}

/// The other party of a private chat; see `private_peer_spec`.
pub fn private_peer(owner_id: UserId, members: &Vec<UserId>) -> (r: UserId)
    ensures
        r == private_peer_spec(owner_id, members@),
{
    let mut i: usize = 0;
    assert(members@.subrange(0, members@.len() as int) =~= members@);
    while i < members.len()
        invariant
            i <= members.len(),
            private_peer_spec(owner_id, members@) == private_peer_spec(
                owner_id,
                members@.subrange(i as int, members@.len() as int),
            ),
        decreases members.len() - i,
    {
        let ghost rest = members@.subrange(i as int, members@.len() as int);
        assert(rest.drop_first() =~= members@.subrange(i + 1, members@.len() as int));
        if members[i] != owner_id {
            return members[i];
        }
        i = i + 1;
    }
    assert(members@.subrange(i as int, members@.len() as int).len() == 0);
    owner_id
}

/// Names joined by commas.
pub open spec fn joined(names: Seq<Seq<char>>) -> Seq<char>
    decreases names.len(),
{
    if names.len() == 0 {
        Seq::empty()
    } else if names.len() == 1 {
        names[0]
    } else {
        joined(names.drop_last()) + ","@ + names.last()
    }
}

/// The name a group gets when created without one, from its first members'
/// names.
pub fn default_group_name(names: &Vec<String>) -> (r: String)
    ensures
        r@ == joined(names@.map_values(|s: String| s@)) + "等的群聊"@,
{
    let ghost views = names@.map_values(|s: String| s@);
    let mut out = String::new();
    let mut i: usize = 0;
    while i < names.len()
        invariant
            i <= names.len(),
            views == names@.map_values(|s: String| s@),
            out@ == joined(views.subrange(0, i as int)),
        decreases names.len() - i,
    {
        if i > 0 {
            out.append(",");
        }
        out.append(names[i].as_str());
        proof {
            let pre = views.subrange(0, i as int);
            let post = views.subrange(0, i + 1);
            assert(post.drop_last() =~= pre);
            assert(post.last() == names@[i as int]@);
        }
        i = i + 1;
    }
    assert(views.subrange(0, names.len() as int) =~= views);
    out.append("等的群聊");
    out
}

/// Who may delete a chat: the owner of a group, or a member of a private chat.
pub open spec fn may_drop(chat_type: ChatType, owner_id: UserId, members: Seq<UserId>, user_id: UserId) -> bool {
    match chat_type {
        ChatType::Group => owner_id == user_id,
        ChatType::Private => members.contains(user_id),
    }
}

/// Refuses the deletion of `chat` by `user_id` unless `may_drop` allows it.
pub fn check_drop_permission(chat: &Chat, members: &Vec<UserId>, user_id: UserId) -> (r: Result<
    (),
    AppError,
>)
    ensures
        r is Ok <==> may_drop(chat.chat_type, chat.owner_id, members@, user_id),
        r matches Err(e) ==> e is ChatError,
{
    match chat.chat_type {
        ChatType::Group => if chat.owner_id != user_id {
            Err(AppError::ChatError(String::from_str("You are not the owner of group chat")))
        } else {
            Ok(())
        },
        ChatType::Private => if !contains_id(members, user_id) {
            Err(AppError::ChatError(String::from_str("You are not the member of private chat")))
        } else {
            Ok(())
        },
    }
}

/// The first member other than `viewer`, if any.
pub open spec fn other_member(members: Seq<User>, viewer: UserId) -> Option<User>
    decreases members.len(),
{
    if members.len() == 0 {
        None
    } else if members[0].id != viewer {
        Some(members[0])
    } else {
        other_member(members.drop_first(), viewer)
    }
}

/// The name `viewer` sees for a chat: for a private chat, the other
/// member's full name; for a group, its own name.
pub fn display_name(chat: &Chat, members: &Vec<User>, viewer: UserId) -> (r: Result<String, AppError>)
    ensures
        match chat.chat_type {
            ChatType::Group => r == Ok::<String, AppError>(chat.name),
            ChatType::Private => match other_member(members@, viewer) {
                Some(u) => r == Ok::<String, AppError>(u.fullname),
                None => r == Err::<String, AppError>(AppError::UserNotFound),
            },
        },
{
    match chat.chat_type {
        ChatType::Group => Ok(copy_string(&chat.name)),
        ChatType::Private => {
            let mut i: usize = 0;
            assert(members@.subrange(0, members@.len() as int) =~= members@);
            while i < members.len()
                invariant
                    chat.chat_type == ChatType::Private,
                    i <= members.len(),
                    other_member(members@, viewer) == other_member(
                        members@.subrange(i as int, members@.len() as int),
                        viewer,
                    ),
                decreases members.len() - i,
            {
                let ghost rest = members@.subrange(i as int, members@.len() as int);
                assert(rest.drop_first() =~= members@.subrange(i + 1, members@.len() as int));
                if members[i].id != viewer {
                    return Ok(copy_string(&members[i].fullname));
                }
                i = i + 1;
            }
            assert(members@.subrange(i as int, members@.len() as int).len() == 0);
            Err(AppError::UserNotFound)
        },
    }
}

} // verus!
