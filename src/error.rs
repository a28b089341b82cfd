//! The uniform error value carried in an action's error list.
use vstd::prelude::*;

verus! {

/// Declares `serde_json::Error` so that conversions can name it.
#[verifier::external_type_specification]
#[verifier::external_body]
pub struct ExJsonError(serde_json::Error);

/// Relies on `String::push_str`, documented to append the slice to the end of the string.
pub assume_specification[ String::push_str ](s: &mut String, t: &str)
    ensures
        final(s)@ == old(s)@ + t@,
;

/// A failure report: a coarse machine-readable `code` and a readable `message`.
#[derive(Debug, Clone)]
pub struct ActionError {
    pub code: String,
    pub message: String,
}

impl ActionError {
    /// Builds an error from its code and message, both copied.
    pub fn new(code: &str, message: &str) -> (r: ActionError)
        ensures
            r.code@ == code@,
            r.message@ == message@,
    {
        ActionError { code: code.to_owned(), message: message.to_owned() }
    }

    /// The readable message.
    pub fn description(&self) -> (r: &str)
        ensures
            r@ == self.message@,
    {
        self.message.as_str()
    }

    /// The one-line text form: `ActionError. Code: <code>  Message: <message>`.
    pub fn describe(&self) -> (r: String)
        ensures
            r@ == "ActionError. Code: "@ + self.code@ + "  Message: "@ + self.message@,
    {
        let mut s = "ActionError. Code: ".to_owned();
        s.push_str(self.code.as_str());
        s.push_str("  Message: ");
        s.push_str(self.message.as_str());
        s
    }
}

/// Declares `std::io::Error` so that conversions can name it.
#[verifier::external_type_specification]
#[verifier::external_body]
pub struct ExIoError(std::io::Error);

/// Conversion of a handler-local error into the uniform error value.
pub trait ToActionError {
    fn to_action_error(&self) -> ActionError;
}

impl ToActionError for ActionError {
    fn to_action_error(&self) -> ActionError {
        self.clone()
    }
}

impl ToActionError for serde_json::Error {
    fn to_action_error(&self) -> ActionError {
        json_error(self)
    }
}

/// The error for a failed (de)serialization: code `JsonError`, the error's text as message.
pub fn json_error(e: &serde_json::Error) -> (r: ActionError)
    ensures
        r.code@ == "JsonError"@,
        vstd::string::to_string_from_display_ensures::<serde_json::Error>(e, r.message),
{
    ActionError { code: "JsonError".to_owned(), message: e.to_string() }
}

/// The error for a failed I/O operation: code `io::Error`, the error's text as message.
pub fn io_error(e: &std::io::Error) -> (r: ActionError)
    ensures
        r.code@ == "io::Error"@,
        vstd::string::to_string_from_display_ensures::<std::io::Error>(e, r.message),
{
    ActionError { code: "io::Error".to_owned(), message: e.to_string() }
}

impl ToActionError for std::io::Error {
    fn to_action_error(&self) -> ActionError {
        io_error(self)
    }
}

impl From<(String, String)> for ActionError {
    fn from(p: (String, String)) -> (r: ActionError) {
        ActionError { code: p.0, message: p.1 }
    }
}

impl vstd::std_specs::convert::FromSpecImpl<(String, String)> for ActionError {
    open spec fn obeys_from_spec() -> bool {
        true
    }

    open spec fn from_spec(p: (String, String)) -> ActionError {
        ActionError { code: p.0, message: p.1 }
    }
}

} // verus!
