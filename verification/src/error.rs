//! Errors reported by the service-management operations.

use vstd::prelude::*;
use vstd::string::*;

verus! {

/// Why a service-management operation failed.
#[derive(Debug, PartialEq, Eq)]
pub enum ServiceError {
    /// The service address could not be parsed as a URL.
    InvalidUrl,
    /// The service has no name, so no cache key can be made for it.
    EmptyKey,
    /// Another service already uses the same name and path.
    DuplicateService,
    /// The database or the cache reported an error, with its message.
    Storage(String),
}

/// Model of a [`ServiceError`].
pub enum ServiceErrorView {
    InvalidUrl,
    EmptyKey,
    DuplicateService,
    Storage(Seq<char>),
}

impl View for ServiceError {
    type V = ServiceErrorView;

    open spec fn view(&self) -> ServiceErrorView {
        match self {
            ServiceError::InvalidUrl => ServiceErrorView::InvalidUrl,
            ServiceError::EmptyKey => ServiceErrorView::EmptyKey,
            ServiceError::DuplicateService => ServiceErrorView::DuplicateService,
            ServiceError::Storage(m) => ServiceErrorView::Storage(m@),
        }
    }
}

/// The message shown to API clients for each error.
pub open spec fn error_message(e: ServiceErrorView) -> Seq<char> {
    match e {
        ServiceErrorView::InvalidUrl => "url 解析失败"@,
        ServiceErrorView::EmptyKey => "redis key 生成失败"@,
        ServiceErrorView::DuplicateService => "已有同名服务名称和路径,请重新命名"@,
        ServiceErrorView::Storage(m) => m,
    }
}

impl ServiceError {
    /// The message shown to API clients.
    pub fn message(&self) -> (m: String)
        ensures
            m@ == error_message(self@),
    {
        match self {
            ServiceError::InvalidUrl => String::from_str("url 解析失败"),
            ServiceError::EmptyKey => String::from_str("redis key 生成失败"),
            ServiceError::DuplicateService => String::from_str("已有同名服务名称和路径,请重新命名"),
            ServiceError::Storage(m) => m.clone(),
        }
    }
}

} // verus!
