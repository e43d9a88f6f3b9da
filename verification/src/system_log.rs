use std::sync::Arc;
use vstd::prelude::*;

verus! {

/// Records system events through a shared log store.
pub struct SystemLogService<T> {
    repo: Arc<T>,
}

impl<T> SystemLogService<T> {
    /// The store this service writes to.
    pub closed spec fn store(&self) -> Arc<T> {
        self.repo
    }

    /// A service that writes to `repo`.
    pub fn new(repo: Arc<T>) -> (s: Self)
        ensures
            s.store() == repo,
    {
        SystemLogService { repo }
    }

    /// The store this service writes to.
    pub fn repo(&self) -> (r: &Arc<T>)
        ensures
            *r == self.store(),
    {
        &self.repo
    }
}


/// How serious a logged event is.
#[derive(Clone, Copy, Debug, PartialEq, Eq, Structural)]
pub enum LogLevel {
    Debug,
    Info,
    Warn,
    Error,
    Fatal,
}

/// The text a level is stored as.
pub open spec fn level_text(l: LogLevel) -> Seq<char> {
    match l {
        LogLevel::Debug => "DEBUG"@,
        LogLevel::Info => "INFO"@,
        LogLevel::Warn => "WARN"@,
        LogLevel::Error => "ERROR"@,
        LogLevel::Fatal => "FATAL"@,
    }
}

impl LogLevel {
    pub fn as_str(&self) -> (s: &'static str)
        ensures
            s@ == level_text(*self),
    {
        match self {
            LogLevel::Debug => "DEBUG",
            LogLevel::Info => "INFO",
            LogLevel::Warn => "WARN",
            LogLevel::Error => "ERROR",
            LogLevel::Fatal => "FATAL",
        }
    }
}

/// One event of the system log, as it is stored.
#[derive(Clone, Debug, PartialEq, Eq)]
pub struct SystemLogEntry {
    pub log_level: String,
    pub category: String,
    pub user_id: Option<String>,
    pub tenant_id: Option<i32>,
    pub tenant_type: Option<String>,
    pub ip_address: Option<String>,
    pub request_id: Option<String>,
    pub component: String,
    pub action: String,
    pub resource_type: Option<String>,
    pub resource_id: Option<String>,
    pub message: String,
    /// The details, as JSON text.
    pub details: Option<String>,
    pub error_code: Option<String>,
    pub error_stack: Option<String>,
    pub execution_time: Option<i64>,
}

impl SystemLogEntry {
    /// An event of a component's action in a category, at level `INFO`, with
    /// an empty message and nothing else recorded.
    pub fn new(category: &str, component: &str, action: &str) -> (e: Self)
        ensures
            e.log_level@ == "INFO"@,
            e.category@ == category@,
            e.component@ == component@,
            e.action@ == action@,
            e.message@ == Seq::<char>::empty(),
            e.user_id is None && e.tenant_id is None && e.tenant_type is None && e.ip_address is None,
            e.request_id is None && e.resource_type is None && e.resource_id is None,
            e.details is None && e.error_code is None && e.error_stack is None && e.execution_time is None,
    {
        SystemLogEntry {
            log_level: String::from_str("INFO"),
            category: category.to_owned(),
            user_id: None,
            tenant_id: None,
            tenant_type: None,
            ip_address: None,
            request_id: None,
            component: component.to_owned(),
            action: action.to_owned(),
            resource_type: None,
            resource_id: None,
            message: String::new(),
            details: None,
            error_code: None,
            error_stack: None,
            execution_time: None,
        }
    }

    /// The same event with the given message.
    pub fn with_message(self, message: &str) -> (e: Self)
        ensures
            e.message@ == message@,
            e == (SystemLogEntry { message: e.message, ..self }),
    {
        SystemLogEntry { message: message.to_owned(), ..self }
    }

    /// The same event with the given error code.
    pub fn with_error_code(self, code: &str) -> (e: Self)
        ensures
            e.error_code matches Some(c) && c@ == code@,
            e == (SystemLogEntry { error_code: e.error_code, ..self }),
    {
        SystemLogEntry { error_code: Some(code.to_owned()), ..self }
    }

    /// The same event at the given level: each way of logging stores the
    /// event at its own level, whatever level it carried before.
    pub fn with_level(self, level: LogLevel) -> (e: Self)
        ensures
            e.log_level@ == level_text(level),
            e == (SystemLogEntry { log_level: e.log_level, ..self }),
    {
        SystemLogEntry { log_level: String::from_str(level.as_str()), ..self }
    }
}

} // verus!
