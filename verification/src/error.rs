//! Errors reported to the settings window: a stable code, a Korean message for the
//! user, and optional detail text.
use vstd::prelude::*;

verus! {

/// An error as the settings window receives it.
#[derive(Clone, Debug)]
pub struct AppError {
    pub code: String,
    pub message_ko: String,
    pub detail: Option<String>,
}

impl AppError {
    /// An error without detail.
    pub fn new(code: &str, message_ko: &str) -> (e: Self)
        ensures
            e.code@ == code@,
            e.message_ko@ == message_ko@,
            e.detail is None,
    {
        AppError { code: code.to_owned(), message_ko: message_ko.to_owned(), detail: None }
    }

    /// An error with detail text (typically the underlying error rendered as text).
    pub fn with_detail(code: &str, message_ko: &str, detail: &str) -> (e: Self)
        ensures
            e.code@ == code@,
            e.message_ko@ == message_ko@,
            e.detail matches Some(d) && d@ == detail@,
    {
        AppError {
            code: code.to_owned(),
            message_ko: message_ko.to_owned(),
            detail: Some(detail.to_owned()),
        }
    }

    /// The text shown for the error: its Korean message.
    pub fn to_display_string(&self) -> (s: String)
        ensures
            s@ == self.message_ko@,
    {
        self.message_ko.clone()
    }
}

} // verus!
