//! The errors of the library and the HTTP status each maps to.
use vstd::prelude::*;

verus! {

/// An error. Variants that stand for a failure of an outside service carry
/// that failure's message.
#[derive(Debug, Clone, PartialEq, Eq)]
pub enum AppError {
    EmailAlreadyExists(String),
    SqlxError(String),
    PasswordHashError(String),
    SmtpError(String),
    RedisError(String),
    R2D2Error(String),
    EmailCodeIncorrect,
    PasswordError,
    UserNotFound,
    JwtSimpleErr(String),
    CreateChatError(String),
    ChatError(String),
    ChatNotFound,
    GetGraphqlUserIdError,
    NotificationError(String),
    SerdeJsonError(String),
    Unauthorized,
    BusUnavailable,
}

/// The HTTP status an error answers with.
pub open spec fn status_of(e: AppError) -> u16 {
    match e {
        AppError::EmailAlreadyExists(_) => 409,
        AppError::PasswordHashError(_) => 422,
        AppError::EmailCodeIncorrect => 422,
        AppError::PasswordError => 403,
        AppError::UserNotFound => 404,
        AppError::ChatNotFound => 404,
        AppError::Unauthorized => 401,
        _ => 500,
    }
}

impl AppError {
    /// The HTTP status code of this error.
    pub fn status_code(&self) -> (r: u16)
        ensures
            r == status_of(*self),
    {
        match self {
            AppError::EmailAlreadyExists(_) => 409,
            AppError::PasswordHashError(_) => 422,
            AppError::EmailCodeIncorrect => 422,
            AppError::PasswordError => 403,
            AppError::UserNotFound => 404,
            AppError::ChatNotFound => 404,
            AppError::Unauthorized => 401,
            _ => 500,
        }
    }
}

} // verus!
