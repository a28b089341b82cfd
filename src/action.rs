//! The action envelope, its mutators, and the reply projection built from it.
use std::collections::HashMap;
use vstd::prelude::*;

use crate::error::ActionError;

verus! {

/// Declares `serde_json::Value`, the structured value carried in payloads and results.
#[verifier::external_type_specification]
#[verifier::external_body]
pub struct ExValue(serde_json::Value);

/// One request envelope, filled in place with a result or errors.
#[derive(Debug, Clone)]
pub struct Action {
    /// Selects the handler.
    pub name: String,
    /// Caller-chosen correlation id.
    pub id: u64,
    /// Opaque credential, never inspected here.
    pub token: Option<String>,
    /// Opaque out-of-band binary payload.
    pub base64: Option<String>,
    /// Handler-specific input.
    pub payload: HashMap<String, serde_json::Value>,
    /// What the handler produced.
    pub result: Option<serde_json::Value>,
    /// Failures reported so far; absent or empty means success.
    pub errors: Option<Vec<ActionError>>,
}

/// The wire-facing projection of a resolved action.
#[derive(Debug)]
pub struct ActionReply {
    pub id: u64,
    pub name: String,
    pub payload: HashMap<String, serde_json::Value>,
    pub result: Option<serde_json::Value>,
    pub errors: Vec<ActionError>,
}

/// The errors of an envelope as a sequence, an absent list being empty.
pub open spec fn errors_of(errors: Option<Vec<ActionError>>) -> Seq<ActionError> {
    match errors {
        Some(v) => v@,
        None => Seq::empty(),
    }
}

impl Action {
    /// The errors recorded on this envelope.
    pub open spec fn error_list(&self) -> Seq<ActionError> {
        errors_of(self.errors)
    }

    /// Everything but `result` and `errors` is the same in `self` and `other`.
    pub open spec fn same_request(&self, other: Action) -> bool {
        &&& self.name == other.name
        &&& self.id == other.id
        &&& self.token == other.token
        &&& self.base64 == other.base64
        &&& self.payload == other.payload
    }

    /// `next` is `self` with its result set to `v`.
    pub open spec fn result_set(&self, next: Action, v: serde_json::Value) -> bool {
        &&& next.same_request(*self)
        &&& next.errors == self.errors
        &&& next.result == Some(v)
    }

    /// `next` is `self` with `e` appended to its errors.
    pub open spec fn error_added(&self, next: Action, e: ActionError) -> bool {
        &&& next.same_request(*self)
        &&& next.result == self.result
        &&& next.errors is Some
        &&& next.error_list() == self.error_list().push(e)
    }

    /// `next` is `self` with a handler's outcome folded in.
    pub open spec fn outcome_applied(
        &self,
        next: Action,
        out: Result<serde_json::Value, ActionError>,
    ) -> bool {
        match out {
            Ok(v) => self.result_set(next, v),
            Err(e) => self.error_added(next, e),
        }
    }

    /// An envelope that reports a failure that happened before any handler ran.
    pub open spec fn is_server_error(&self) -> bool {
        &&& self.name@ == "server-error"@
        &&& self.id == 0
        &&& self.token is None
        &&& self.base64 is None
        &&& self.payload@ == Map::<String, serde_json::Value>::empty()
        &&& self.result is None
    }

    /// Sets the result, keeping everything else.
    pub fn set_result(&mut self, res: serde_json::Value)
        ensures
            old(self).result_set(*final(self), res),
    {
        self.result = Some(res);
    }

    /// Appends an error, creating the list if there was none.
    pub fn set_error(&mut self, value: ActionError)
        ensures
            old(self).error_added(*final(self), value),
    {
        match &mut self.errors {
            Some(v) => v.push(value),
            None => {
                let mut v = Vec::new();
                v.push(value);
                self.errors = Some(v);
            },
        }
    }

    /// An envelope that carries `err` alone, for failures before dispatch.
    pub fn server_err(err: ActionError) -> (r: Action)
        ensures
            r.is_server_error(),
            r.errors is Some,
            r.error_list() == seq![err],
    {
        let mut v = Vec::new();
        v.push(err);
        Action {
            id: 0,
            token: None,
            name: "server-error".to_owned(),
            base64: None,
            payload: HashMap::new(),
            errors: Some(v),
            result: None,
        }
    }

    /// A blank server-error envelope with no errors recorded.
    pub fn into(&self) -> (r: Action)
        ensures
            r.is_server_error(),
            r.errors is None,
    {
        Action {
            id: 0,
            token: None,
            name: "server-error".to_owned(),
            base64: None,
            payload: HashMap::new(),
            errors: None,
            result: None,
        }
    }

    /// Consumes the envelope into its reply; an absent error list becomes empty.
    pub fn into_reply(self) -> (r: ActionReply)
        ensures
            r.id == self.id,
            r.name == self.name,
            r.payload == self.payload,
            r.result == self.result,
            r.errors@ == self.error_list(),
    {
        let errors = match self.errors {
            Some(e) => e,
            None => Vec::new(),
        };
        ActionReply {
            id: self.id,
            name: self.name,
            payload: self.payload,
            result: self.result,
            errors,
        }
    }
}

/// Relies on `serde_json::Map::insert` and `serde_json::Value::Object` to build the
/// one-entry object that maps `key` to the boolean `flag`.
#[verifier::external_body]
fn flag_object(key: &str, flag: bool) -> (r: serde_json::Value) {
    let mut m = serde_json::Map::new();
    m.insert(key.to_owned(), serde_json::Value::Bool(flag));
    serde_json::Value::Object(m)
}

/// The plain success outcome `{"success": true}`.
pub fn action_ok() -> (r: Result<serde_json::Value, ActionError>)
    ensures
        r is Ok,
{
    Ok(flag_object("success", true))
}

/// A failed outcome whose code is `name` and whose message is the error's text.
pub fn value_err<E: std::error::Error>(name: &str, e: E) -> (r: Result<
    serde_json::Value,
    ActionError,
>)
    ensures
        r is Err,
        r->Err_0.code@ == name@,
        vstd::string::to_string_from_display_ensures::<E>(&e, r->Err_0.message),
{
    Err(ActionError { code: name.to_owned(), message: e.to_string() })
}

} // verus!
