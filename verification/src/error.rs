//! Errors of Steam operations.
use vstd::prelude::*;
use vstd::string::*;

verus! {

/// Why a Steam operation failed. Errors of the file system and of other parts
/// are held by their messages.
#[derive(Debug, Clone, PartialEq, Eq)]
pub enum AppError {
    SteamNotConnected,
    SteamLockError(String),
    InvalidAppId,
    IoError(String),
    AnyhowError(String),
}

/// The message of an error.
pub open spec fn error_text(e: AppError) -> Seq<char> {
    match e {
        AppError::SteamNotConnected => "Steam 未连接"@,
        AppError::SteamLockError(m) => "Steam 管理器锁错误: "@ + m@,
        AppError::InvalidAppId => "无效的 App ID"@,
        AppError::IoError(m) => "IO 错误: "@ + m@,
        AppError::AnyhowError(m) => m@,
    }
}

impl AppError {
    /// The message of the error, as shown to the user.
    pub fn message(&self) -> (r: String)
        ensures
            r@ == error_text(*self),
    {
        match self {
            AppError::SteamNotConnected => String::from_str("Steam 未连接"),
            AppError::SteamLockError(m) => {
                let mut s = String::from_str("Steam 管理器锁错误: ");
                s.append(m.as_str());
                s
            },
            AppError::InvalidAppId => String::from_str("无效的 App ID"),
            AppError::IoError(m) => {
                let mut s = String::from_str("IO 错误: ");
                s.append(m.as_str());
                s
            },
            AppError::AnyhowError(m) => m.clone(),
        }
    }
}

} // verus!
