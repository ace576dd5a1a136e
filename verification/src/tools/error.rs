//! How a tool fails.

use vstd::prelude::*;
use vstd::string::StringExecFns;

verus! {

/// The failures of a tool.  Input/output and JSON failures are held as the
/// text their `Display` gives.
#[derive(Debug)]
pub enum Error {
    InvalidParameter(String),
    IoError(String),
    JsonError(String),
    NonUTF8PathName,
    WhitelistViolation,
}

pub enum ErrorView {
    InvalidParameter(Seq<char>),
    IoError(Seq<char>),
    JsonError(Seq<char>),
    NonUTF8PathName,
    WhitelistViolation,
}

impl View for Error {
    type V = ErrorView;

    open spec fn view(&self) -> ErrorView {
        match self {
            Error::InvalidParameter(s) => ErrorView::InvalidParameter(s@),
            Error::IoError(s) => ErrorView::IoError(s@),
            Error::JsonError(s) => ErrorView::JsonError(s@),
            Error::NonUTF8PathName => ErrorView::NonUTF8PathName,
            Error::WhitelistViolation => ErrorView::WhitelistViolation,
        }
    }
}

/// The text `Display` gives a tool error.
pub open spec fn tool_error_text(e: ErrorView) -> Seq<char> {
    match e {
        ErrorView::InvalidParameter(m) => "InvalidParameter "@ + m,
        ErrorView::IoError(m) => "IoError: "@ + m,
        ErrorView::JsonError(m) => "JsonError: "@ + m,
        ErrorView::NonUTF8PathName => "NonUTF8PathName"@,
        ErrorView::WhitelistViolation => "Action denied (whitelist)"@,
    }
}

impl Error {
    /// The error's `Display` text.
    pub fn to_string(&self) -> (r: String)
        ensures
            r@ == tool_error_text(self@),
    {
        match self {
            Error::InvalidParameter(m) => {
                let mut s = String::from_str("InvalidParameter ");
                s.append(m.as_str());
                s
            },
            Error::IoError(m) => {
                let mut s = String::from_str("IoError: ");
                s.append(m.as_str());
                s
            },
            Error::JsonError(m) => {
                let mut s = String::from_str("JsonError: ");
                s.append(m.as_str());
                s
            },
            Error::NonUTF8PathName => String::from_str("NonUTF8PathName"),
            Error::WhitelistViolation => String::from_str("Action denied (whitelist)"),
        }
    }
}

} // verus!
