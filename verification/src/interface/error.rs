//! How an interface fails.

use vstd::prelude::*;
use vstd::string::StringExecFns;

verus! {

/// The failures of an interface: a message that could not be handed to the
/// session, or a terminal input/output error (held as its `Display` text).
#[derive(Debug)]
pub enum Error {
    SendError,
    StdIoError(String),
}

pub open spec fn interface_error_text(e: &Error) -> Seq<char> {
    match e {
        Error::SendError => "SendError"@,
        Error::StdIoError(m) => "IoError: "@ + m@,
    }
}

impl Error {
    /// The error's `Display` text.
    pub fn to_string(&self) -> (r: String)
        ensures
            r@ == interface_error_text(self),
    {
        match self {
            Error::SendError => String::from_str("SendError"),
            Error::StdIoError(m) => {
                let mut s = String::from_str("IoError: ");
                s.append(m.as_str());
                s
            },
        }
    }
}

} // verus!
