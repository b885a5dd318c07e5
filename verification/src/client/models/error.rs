//! Errors of the client, with the messages shown to the user.
use vstd::prelude::*;

verus! {

/// An error of the client. The failures of the SQLite pool and driver are
/// kept as their messages.
#[derive(Debug, Clone)]
pub enum AppError {
    DatabaseError(String),
    /// The connection pool failed.
    Pool(String),
    /// The SQLite driver failed.
    Database(String),
    NoteNotFound(String),
    FolderNotFound(String),
    TagNotFound(String),
    NotFound(String),
    NotAuthenticated(String),
    AuthenticationError(String),
    ConflictError(String),
    NetworkError(String),
    SyncError(String),
    SyncCancelled(String),
    EncryptionError(String),
    InvalidOperation(String),
    InvalidInput(String),
    Internal(String),
}

/// The prefix of the message of an error, and the detail it carries.
pub open spec fn error_parts(e: AppError) -> (Seq<char>, Seq<char>) {
    match e {
        AppError::DatabaseError(d) => ("数据库错误: "@, d@),
        AppError::Pool(d) => ("连接池错误: "@, d@),
        AppError::Database(d) => ("数据库错误: "@, d@),
        AppError::NoteNotFound(d) => ("笔记不存在: "@, d@),
        AppError::FolderNotFound(d) => ("文件夹不存在: "@, d@),
        AppError::TagNotFound(d) => ("标签不存在: "@, d@),
        AppError::NotFound(d) => ("未找到: "@, d@),
        AppError::NotAuthenticated(d) => ("未认证: "@, d@),
        AppError::AuthenticationError(d) => ("认证错误: "@, d@),
        AppError::ConflictError(d) => ("冲突错误: "@, d@),
        AppError::NetworkError(d) => ("网络错误: "@, d@),
        AppError::SyncError(d) => ("同步错误: "@, d@),
        AppError::SyncCancelled(d) => ("同步已取消: "@, d@),
        AppError::EncryptionError(d) => ("加密错误: "@, d@),
        AppError::InvalidOperation(d) => ("无效操作: "@, d@),
        AppError::InvalidInput(d) => ("无效输入: "@, d@),
        AppError::Internal(d) => ("内部错误: "@, d@),
    }
}

fn prefixed(prefix: &str, detail: &str) -> (r: String)
    ensures
        r@ == prefix@ + detail@,
{
    let mut s = prefix.to_owned();
    s.append(detail);
    s
}

impl AppError {
    /// The message shown for the error: its kind, then its detail.
    pub fn message(&self) -> (r: String)
        ensures
            r@ == error_parts(*self).0 + error_parts(*self).1,
    {
        match self {
            AppError::DatabaseError(d) => prefixed("数据库错误: ", d.as_str()),
            AppError::Pool(d) => prefixed("连接池错误: ", d.as_str()),
            AppError::Database(d) => prefixed("数据库错误: ", d.as_str()),
            AppError::NoteNotFound(d) => prefixed("笔记不存在: ", d.as_str()),
            AppError::FolderNotFound(d) => prefixed("文件夹不存在: ", d.as_str()),
            AppError::TagNotFound(d) => prefixed("标签不存在: ", d.as_str()),
            AppError::NotFound(d) => prefixed("未找到: ", d.as_str()),
            AppError::NotAuthenticated(d) => prefixed("未认证: ", d.as_str()),
            AppError::AuthenticationError(d) => prefixed("认证错误: ", d.as_str()),
            AppError::ConflictError(d) => prefixed("冲突错误: ", d.as_str()),
            AppError::NetworkError(d) => prefixed("网络错误: ", d.as_str()),
            AppError::SyncError(d) => prefixed("同步错误: ", d.as_str()),
            AppError::SyncCancelled(d) => prefixed("同步已取消: ", d.as_str()),
            AppError::EncryptionError(d) => prefixed("加密错误: ", d.as_str()),
            AppError::InvalidOperation(d) => prefixed("无效操作: ", d.as_str()),
            AppError::InvalidInput(d) => prefixed("无效输入: ", d.as_str()),
            AppError::Internal(d) => prefixed("内部错误: ", d.as_str()),
        }
    }
}

} // verus!
