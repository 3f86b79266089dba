//! Error taxonomy: request-level error codes with their HTTP status mapping,
//! and the application error type served to API clients.

use vstd::prelude::*;
use vstd::string::StringExecFns;

verus! {

/// Request-level failure classes. `BadRequest` is never retried and goes
/// straight back to the caller; `Unauthorized` covers a disabled feature or a
/// missing credential; `NotFound` an unknown storage or presign key;
/// `Conflict` a presign confirmation that already happened; `InternalError`
/// everything the caller cannot mend, disk failures during staging included.
#[derive(Clone, Copy, Debug, PartialEq, Eq, Structural)]
pub enum ErrorCode {
    BadRequest,
    Unauthorized,
    NotFound,
    Conflict,
    InternalError,
}

/// The HTTP status that each error class is served with.
pub fn http_status(code: ErrorCode) -> (r: u16)
    ensures
        r == spec_http_status(code),
{
    match code {
        ErrorCode::BadRequest => 400,
        ErrorCode::Unauthorized => 401,
        ErrorCode::NotFound => 404,
        ErrorCode::Conflict => 409,
        ErrorCode::InternalError => 500,
    }
}

pub open spec fn spec_http_status(code: ErrorCode) -> u16 {
    match code {
        ErrorCode::BadRequest => 400u16,
        ErrorCode::Unauthorized => 401u16,
        ErrorCode::NotFound => 404u16,
        ErrorCode::Conflict => 409u16,
        ErrorCode::InternalError => 500u16,
    }
}

/// Application-level errors surfaced by the account endpoints, plus the
/// internal fallback. Serialization into a response body stays outside the
/// library; the status and description below are what that body carries.
pub enum AppError {
    EmailAlreadyExist(String),
    UsernameNotExist,
    WrongCredentials,
    EmailNotVerified,
    TokenOutdated,
    InvalidToken,
    InvalidRequest,
    Internal,
}

impl AppError {
    /// The HTTP status this error is served with.
    pub fn http_status(&self) -> (r: u16)
        ensures
            r == self.spec_http_status(),
    {
        match self {
            AppError::EmailAlreadyExist(_) => 400,
            AppError::UsernameNotExist => 401,
            AppError::WrongCredentials => 400,
            AppError::EmailNotVerified => 401,
            AppError::TokenOutdated => 400,
            AppError::InvalidToken => 401,
            AppError::InvalidRequest => 400,
            AppError::Internal => 500,
        }
    }

    pub open spec fn spec_http_status(&self) -> u16 {
        match self {
            AppError::EmailAlreadyExist(_) => 400u16,
            AppError::UsernameNotExist => 401u16,
            AppError::WrongCredentials => 400u16,
            AppError::EmailNotVerified => 401u16,
            AppError::TokenOutdated => 400u16,
            AppError::InvalidToken => 401u16,
            AppError::InvalidRequest => 400u16,
            AppError::Internal => 500u16,
        }
    }

    /// The human-readable description served in the error body.
    pub fn description(&self) -> (r: String)
        ensures
            r@ == self.spec_description(),
    {
        match self {
            AppError::EmailAlreadyExist(email) => {
                let head = String::from_str("邮箱");
                head.concat(email.as_str()).concat("已被占用")
            },
            AppError::UsernameNotExist => String::from_str("用户名不存在"),
            AppError::WrongCredentials => String::from_str("用户名或密码错误"),
            AppError::EmailNotVerified => String::from_str(
                "此用户邮箱没有通过验证，请检查收件箱并点击链接激活账号",
            ),
            AppError::TokenOutdated => String::from_str("验证链接已过期，请重新发送"),
            AppError::InvalidToken => String::from_str("无效的token"),
            AppError::InvalidRequest => String::from_str("无效的请求"),
            AppError::Internal => String::from_str("服务器内部错误"),
        }
    }

    pub open spec fn spec_description(&self) -> Seq<char> {
        match self {
            AppError::EmailAlreadyExist(email) => "邮箱"@ + email@ + "已被占用"@,
            AppError::UsernameNotExist => "用户名不存在"@,
            AppError::WrongCredentials => "用户名或密码错误"@,
            AppError::EmailNotVerified => "此用户邮箱没有通过验证，请检查收件箱并点击链接激活账号"@,
            AppError::TokenOutdated => "验证链接已过期，请重新发送"@,
            AppError::InvalidToken => "无效的token"@,
            AppError::InvalidRequest => "无效的请求"@,
            AppError::Internal => "服务器内部错误"@,
        }
    }
}

} // verus!
