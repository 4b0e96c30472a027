//! The errors of the library's calls.
use vstd::prelude::*;

use crate::responses::BError;

verus! {

/// What went wrong in a call. Failures of the transport, of the file system and of
/// JSON parsing carry the message of the failure that caused them.
#[derive(Debug)]
pub enum ErrorKind {
    /// A plain message.
    Msg(String),
    /// Formatting a value failed.
    Fmt,
    /// Reading or writing a file, or starting a process, failed.
    Io(String),
    /// Sending a request or reading its answer failed.
    Network(String),
    /// A text was not the JSON that was expected.
    Parse(String),
    /// The daemon could not be started.
    StartUpError(String),
    /// butlerd answered with an error.
    ButlerError(BError),
    /// butlerd's answer lacked the field that was asked for.
    MissingField(String),
}

/// The message shown for an error.
pub open spec fn error_message(e: ErrorKind) -> Seq<char> {
    match e {
        ErrorKind::Msg(s) => s@,
        ErrorKind::Fmt => "an error occurred when formatting an argument"@,
        ErrorKind::Io(s) => s@,
        ErrorKind::Network(s) => s@,
        ErrorKind::Parse(s) => s@,
        ErrorKind::StartUpError(reason) => "couldn't start butler: '"@ + reason@ + "'"@,
        ErrorKind::ButlerError(berror) => "error message: "@ + berror.message@,
        ErrorKind::MissingField(field) => "missing field "@ + field@ + " in response"@,
    }
}

/// The short description of an error's kind.
pub open spec fn error_description(e: ErrorKind) -> Seq<char> {
    match e {
        ErrorKind::Msg(s) => s@,
        ErrorKind::Fmt => "an error occurred when formatting an argument"@,
        ErrorKind::Io(s) => s@,
        ErrorKind::Network(s) => s@,
        ErrorKind::Parse(s) => s@,
        ErrorKind::StartUpError(_) => "error starting butler"@,
        ErrorKind::ButlerError(_) => "butler encountered an error"@,
        ErrorKind::MissingField(_) => "missing field in response"@,
    }
}

impl ErrorKind {
    /// The message shown for this error.
    pub fn message(&self) -> (r: String)
        ensures
            r@ == error_message(*self),
    {
        match self {
            ErrorKind::Msg(s) => s.clone(),
            ErrorKind::Fmt => String::from_str("an error occurred when formatting an argument"),
            ErrorKind::Io(s) => s.clone(),
            ErrorKind::Network(s) => s.clone(),
            ErrorKind::Parse(s) => s.clone(),
            ErrorKind::StartUpError(reason) => {
                let mut r = String::from_str("couldn't start butler: '");
                r.append(reason.as_str());
                r.append("'");
                r
            },
            ErrorKind::ButlerError(berror) => {
                let mut r = String::from_str("error message: ");
                r.append(berror.message.as_str());
                r
            },
            ErrorKind::MissingField(field) => {
                let mut r = String::from_str("missing field ");
                r.append(field.as_str());
                r.append(" in response");
                r
            },
        }
    }

    /// The short description of this error's kind.
    pub fn description(&self) -> (r: String)
        ensures
            r@ == error_description(*self),
    {
        match self {
            ErrorKind::Msg(s) => s.clone(),
            ErrorKind::Fmt => String::from_str("an error occurred when formatting an argument"),
            ErrorKind::Io(s) => s.clone(),
            ErrorKind::Network(s) => s.clone(),
            ErrorKind::Parse(s) => s.clone(),
            ErrorKind::StartUpError(_) => String::from_str("error starting butler"),
            ErrorKind::ButlerError(_) => String::from_str("butler encountered an error"),
            ErrorKind::MissingField(_) => String::from_str("missing field in response"),
        }
    }
}

} // verus!
