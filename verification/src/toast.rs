//! Toast notifications and how each level is styled.

use vstd::prelude::*;

verus! {

/// How grave a notification is.
#[derive(Debug, Clone, Copy, PartialEq, Eq)]
pub enum ToastLevel {
    Info,
    Success,
    Warning,
    Error,
}

/// One notification.
#[derive(Debug, Clone, PartialEq, Eq)]
pub struct Toast {
    pub id: u128,
    pub message: String,
    pub level: ToastLevel,
}

/// The style classes of a notification of the given level.
pub open spec fn class_of(level: ToastLevel) -> Seq<char> {
    match level {
        ToastLevel::Info => "toast toast--info"@,
        ToastLevel::Success => "toast toast--success"@,
        ToastLevel::Warning => "toast toast--warning"@,
        ToastLevel::Error => "toast toast--error"@,
    }
}

impl ToastLevel {
    /// The style classes that a notification of this level is drawn with.
    pub fn class(&self) -> (class: &'static str)
        ensures
            class@ == class_of(*self),
    {
        match self {
            ToastLevel::Info => "toast toast--info",
            ToastLevel::Success => "toast toast--success",
            ToastLevel::Warning => "toast toast--warning",
            ToastLevel::Error => "toast toast--error",
        }
    }
}

} // verus!
