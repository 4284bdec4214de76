//! Identity for requests and streaming connections.
use vstd::prelude::*;
use vstd::string::StrSliceExecFns;

use crate::error::AppError;
use crate::models::UserId;
use crate::text::{owned, starts_with};

verus! {

pub open spec fn bearer_prefix() -> Seq<char> {
    seq!['B', 'e', 'a', 'r', 'e', 'r', ' ']
}

/// The credential of an `Authorization` value of the form `Bearer <token>`.
pub open spec fn bearer_token_spec(h: Seq<char>) -> Option<Seq<char>> {
    if bearer_prefix().len() <= h.len() && h.subrange(0, bearer_prefix().len() as int)
        == bearer_prefix() {
        Some(h.subrange(bearer_prefix().len() as int, h.len() as int))
    } else {
        None
    }
}

/// Extracts the credential from an `Authorization` value, if it is one.
pub fn bearer_token(header: &str) -> (r: Option<String>)
    ensures
        match r {
            Some(t) => bearer_token_spec(header@) == Some(t@),
            None => bearer_token_spec(header@) is None,
        },
{
    let prefix = "Bearer ";
    proof {
        reveal_strlit("Bearer ");
        assert(prefix@ =~= bearer_prefix());
    }
    if starts_with(header, prefix) {
        let n = header.unicode_len();
        Some(owned(header.substring_char(7, n)))
    } else {
        None
    }
}

/// Connection set-up for a streaming transport: without a verified
/// identity the connection is refused.
pub fn handle_connect_init(user: Option<UserId>) -> (r: Result<UserId, AppError>)
    ensures
        match user {
            Some(u) => r == Ok::<UserId, AppError>(u),
            None => r == Err::<UserId, AppError>(AppError::Unauthorized),
        },
{
    match user {
        Some(u) => Ok(u),
        None => Err(AppError::Unauthorized),
    }
}

} // verus!
