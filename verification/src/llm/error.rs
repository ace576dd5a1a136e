//! How a request to the language model can fail.

use crate::text::{debug_quote, debug_string_literal};
use vstd::prelude::*;
use vstd::string::StringExecFns;

verus! {

/// A transport failure, held as the two texts the library reads from it:
/// what `Display` and what `Debug` make of the HTTP client's error.
#[derive(Debug)]
pub struct RequestFailure {
    pub display: String,
    pub debug: String,
}

/// The ways a request to the language model fails.
#[derive(Debug)]
pub enum Error {
    RequestError(RequestFailure),
    InvalidChoiceCount,
    LLMError(String),
}

pub enum ErrorView {
    RequestError { display: Seq<char>, debug: Seq<char> },
    InvalidChoiceCount,
    LLMError(Seq<char>),
}

impl View for Error {
    type V = ErrorView;

    open spec fn view(&self) -> ErrorView {
        match self {
            Error::RequestError(f) => ErrorView::RequestError {
                display: f.display@,
                debug: f.debug@,
            },
            Error::InvalidChoiceCount => ErrorView::InvalidChoiceCount,
            Error::LLMError(s) => ErrorView::LLMError(s@),
        }
    }
}

/// The text `Display` gives an error.
pub open spec fn error_display(e: ErrorView) -> Seq<char> {
    match e {
        ErrorView::RequestError { display, .. } => "RequestError: "@ + display,
        ErrorView::InvalidChoiceCount => "LLM responded with an invalid choice count"@,
        ErrorView::LLMError(response) => "LLM has returned an unexpected response: "@ + response,
    }
}

/// The text `Debug` gives an error, as `derive(Debug)` writes it.
pub open spec fn error_debug(e: ErrorView) -> Seq<char> {
    match e {
        ErrorView::RequestError { debug, .. } => "RequestError("@ + debug + ")"@,
        ErrorView::InvalidChoiceCount => "InvalidChoiceCount"@,
        ErrorView::LLMError(response) => "LLMError("@ + debug_string_literal(response) + ")"@,
    }
}

impl Error {
    /// The error's `Display` text.
    pub fn to_string(&self) -> (r: String)
        ensures
            r@ == error_display(self@),
    {
        match self {
            Error::RequestError(f) => {
                let mut s = String::from_str("RequestError: ");
                s.append(f.display.as_str());
                s
            },
            Error::InvalidChoiceCount => String::from_str(
                "LLM responded with an invalid choice count",
            ),
            Error::LLMError(response) => {
                let mut s = String::from_str("LLM has returned an unexpected response: ");
                s.append(response.as_str());
                s
            },
        }
    }

    /// The error's `Debug` text.
    pub fn to_debug_string(&self) -> (r: String)
        ensures
            r@ == error_debug(self@),
    {
        match self {
            Error::RequestError(f) => {
                let mut s = String::from_str("RequestError(");
                s.append(f.debug.as_str());
                s.append(")");
                s
            },
            Error::InvalidChoiceCount => String::from_str("InvalidChoiceCount"),
            Error::LLMError(response) => {
                let mut s = String::from_str("LLMError(");
                s.append(debug_quote(response.as_str()).as_str());
                s.append(")");
                s
            },
        }
    }
}

} // verus!
