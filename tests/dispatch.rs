use std::cell::Cell;
use std::collections::HashMap;

use action_dispatch::action::{action_ok, value_err, Action};
use action_dispatch::error::{io_error, json_error, ActionError, ToActionError};
use action_dispatch::manager::{HandlerTable, Manager, ManagerFut};
use serde_json::Value;

type Handler = fn(&u32, &Action) -> Result<Value, ActionError>;
type Gen = fn() -> u32;

fn envelope(name: &str, id: u64) -> Action {
    Action {
        name: name.to_owned(),
        id,
        token: None,
        base64: None,
        payload: HashMap::new(),
        result: None,
        errors: None,
    }
}

fn alice() -> Value {
    let mut m = serde_json::Map::new();
    m.insert("name".to_owned(), Value::String("alice".to_owned()));
    Value::Object(m)
}

fn get_alice(_r: &u32, _a: &Action) -> Result<Value, ActionError> {
    Ok(alice())
}

fn get_bob(_r: &u32, _a: &Action) -> Result<Value, ActionError> {
    Ok(Value::String("bob".to_owned()))
}

fn echo_resource(r: &u32, _a: &Action) -> Result<Value, ActionError> {
    Ok(Value::from(*r))
}

fn always_fails(_r: &u32, a: &Action) -> Result<Value, ActionError> {
    Err(ActionError::new("Denied", &a.name))
}

fn users() -> Manager<u32, Gen, Handler> {
    let mut m: Manager<u32, Gen, Handler> = Manager::new("users", 0);
    m.on("get", get_alice);
    m
}

#[test]
fn registered_handler_sets_result() {
    let m = users();
    let mut a = envelope("get", 7);
    m.do_action(&mut a);
    assert_eq!(a.result, Some(alice()));
    let reply = a.into_reply();
    assert_eq!(reply.id, 7);
    assert!(reply.errors.is_empty());
}

#[test]
fn unregistered_name_reports_do_action_error() {
    let m = users();
    let mut a = envelope("delete", 8);
    m.do_action(&mut a);
    assert!(a.result.is_none());
    let errors = a.errors.clone().unwrap();
    assert_eq!(errors.len(), 1);
    assert_eq!(errors[0].code, "users - DoAction");
    assert_eq!(errors[0].message, "Action does NOT exist, make sure it is valid");
}

#[test]
fn dispatch_if_present_ignores_unknown_name() {
    let m = users();
    let mut a = envelope("delete", 8);
    a.token = Some("t".to_owned());
    m.do_action_if_exists(&mut a);
    assert_eq!(a.name, "delete");
    assert_eq!(a.id, 8);
    assert_eq!(a.token, Some("t".to_owned()));
    assert!(a.result.is_none());
    assert!(a.errors.is_none());
}

#[test]
fn dispatch_if_present_runs_known_name() {
    let m = users();
    let mut a = envelope("get", 3);
    m.do_action_if_exists(&mut a);
    assert_eq!(a.result, Some(alice()));
    assert!(a.errors.is_none());
}

#[test]
fn second_registration_keeps_first_handler() {
    let mut m = users();
    m.on("get", get_bob);
    m.action("get", get_bob);
    let mut a = envelope("get", 1);
    m.do_action(&mut a);
    assert_eq!(a.result, Some(alice()));
}

#[test]
fn handler_error_is_appended() {
    let mut m = users();
    m.on("deny", always_fails);
    let mut a = envelope("deny", 2);
    a.set_error(ActionError::new("Earlier", "first"));
    m.do_action(&mut a);
    let errors = a.errors.unwrap();
    assert_eq!(errors.len(), 2);
    assert_eq!(errors[0].code, "Earlier");
    assert_eq!(errors[1].code, "Denied");
    assert_eq!(errors[1].message, "deny");
    assert!(a.result.is_none());
}

#[test]
fn shared_resource_is_lent_to_handlers() {
    let mut m: Manager<u32, Gen, Handler> = Manager::new("counter", 41);
    m.on("echo", echo_resource);
    let mut a = envelope("echo", 1);
    m.do_action(&mut a);
    assert_eq!(a.result, Some(Value::from(41u32)));
}

#[test]
fn factory_resource_generated_per_call() {
    let mut m: Manager<u32, Gen, Handler> = Manager::with("gen", || 9);
    m.on("echo", echo_resource);
    let mut a = envelope("echo", 1);
    m.do_action(&mut a);
    assert_eq!(a.result, Some(Value::from(9u32)));
    m.for_each(|| 5);
    let mut b = envelope("echo", 2);
    m.do_action(&mut b);
    assert_eq!(b.result, Some(Value::from(5u32)));
}

type CellHandler = fn(&Cell<u32>, &Action) -> Result<Value, ActionError>;

fn bump(r: &Cell<u32>, _a: &Action) -> Result<Value, ActionError> {
    r.set(r.get() + 1);
    Ok(Value::from(r.get()))
}

#[test]
fn factory_calls_do_not_share_state() {
    let mut m: Manager<Cell<u32>, fn() -> Cell<u32>, CellHandler> =
        Manager::with("fresh", || Cell::new(0));
    m.on("bump", bump);
    let mut a = envelope("bump", 1);
    let mut b = envelope("bump", 2);
    m.do_action(&mut a);
    m.do_action(&mut b);
    assert_eq!(a.result, Some(Value::from(1u32)));
    assert_eq!(b.result, Some(Value::from(1u32)));
}

#[test]
fn shared_calls_share_state() {
    let mut m: Manager<Cell<u32>, fn() -> Cell<u32>, CellHandler> =
        Manager::new("kept", Cell::new(0));
    m.on("bump", bump);
    let mut a = envelope("bump", 1);
    let mut b = envelope("bump", 2);
    m.do_action(&mut a);
    m.do_action(&mut b);
    assert_eq!(b.result, Some(Value::from(2u32)));
}

fn check_positive(r: &u32) -> Result<(), ActionError> {
    if *r > 0 {
        Ok(())
    } else {
        Err(ActionError::new("Init", "zero"))
    }
}

#[test]
fn init_passes_outcome_on() {
    let ok: Manager<u32, Gen, Handler> = Manager::new("a", 1);
    assert!(ok.init(check_positive).is_ok());
    let bad: Manager<u32, Gen, Handler> = Manager::with("b", || 0);
    let e = bad.init(check_positive).unwrap_err();
    assert_eq!(e.code, "Init");
}

#[test]
fn into_reply_defaults_errors_to_empty() {
    let mut a = envelope("get", 11);
    a.payload.insert("k".to_owned(), Value::from(3u32));
    a.set_result(Value::Bool(true));
    let reply = a.into_reply();
    assert_eq!(reply.id, 11);
    assert_eq!(reply.name, "get");
    assert_eq!(reply.payload.get("k"), Some(&Value::from(3u32)));
    assert_eq!(reply.result, Some(Value::Bool(true)));
    assert!(reply.errors.is_empty());
}

#[test]
fn into_reply_keeps_errors() {
    let mut a = envelope("x", 1);
    a.set_error(ActionError::new("A", "a"));
    let reply = a.into_reply();
    assert_eq!(reply.errors.len(), 1);
    assert_eq!(reply.errors[0].code, "A");
}

#[test]
fn server_err_carries_one_error() {
    let a = Action::server_err(ActionError::new("Decode", "bad input"));
    assert_eq!(a.name, "server-error");
    assert_eq!(a.id, 0);
    assert!(a.payload.is_empty());
    assert!(a.result.is_none());
    let errors = a.errors.unwrap();
    assert_eq!(errors.len(), 1);
    assert_eq!(errors[0].message, "bad input");
}

#[test]
fn into_gives_blank_server_error() {
    let a = Action::into(&envelope("get", 5));
    assert_eq!(a.name, "server-error");
    assert_eq!(a.id, 0);
    assert!(a.errors.is_none());
}

#[test]
fn set_result_replaces_result() {
    let mut a = envelope("x", 1);
    a.set_result(Value::from(1u32));
    a.set_result(Value::from(2u32));
    assert_eq!(a.result, Some(Value::from(2u32)));
}

#[test]
fn error_constructors() {
    let e = ActionError::new("c", "m");
    assert_eq!((e.code.as_str(), e.message.as_str()), ("c", "m"));
    let f = ActionError::from(("x".to_owned(), "y".to_owned()));
    assert_eq!((f.code.as_str(), f.message.as_str()), ("x", "y"));
    assert_eq!(f.to_action_error().code, "x");
}

#[test]
fn json_and_io_errors_convert() {
    let je = serde_json::from_str::<Value>("{").unwrap_err();
    let text = je.to_string();
    let a = json_error(&je);
    assert_eq!(a.code, "JsonError");
    assert_eq!(a.message, text);
    assert_eq!(je.to_action_error().code, "JsonError");
    let ie = std::io::Error::new(std::io::ErrorKind::Other, "disk gone");
    let b = io_error(&ie);
    assert_eq!(b.code, "io::Error");
    assert_eq!(b.message, "disk gone");
}

#[test]
fn value_err_and_action_ok() {
    let ie = std::io::Error::new(std::io::ErrorKind::Other, "boom");
    let e = value_err("Store", ie).unwrap_err();
    assert_eq!(e.code, "Store");
    assert_eq!(e.message, "boom");
    let mut m = serde_json::Map::new();
    m.insert("success".to_owned(), Value::Bool(true));
    assert_eq!(action_ok().unwrap(), Value::Object(m));
}

type FutHandler = fn(&u32, &Action) -> Result<(), ActionError>;

fn noop(_r: &u32, _a: &Action) -> Result<(), ActionError> {
    Ok(())
}

#[test]
fn manager_fut_registers() {
    let mut m: ManagerFut<u32, FutHandler> = ManagerFut::new("fut", 1);
    m.on("a", noop);
    m.on("a", noop);
}

#[test]
fn handler_table_binds_once() {
    let mut t: HandlerTable<u32> = HandlerTable::new();
    assert!(t.insert("a", 1));
    assert!(!t.insert("a", 2));
    assert!(t.contains("a"));
    assert!(!t.contains("b"));
    assert_eq!(t.get(&"a".to_owned()), Some(&1));
}

#[test]
fn error_text_forms() {
    let e = ActionError::new("users - DoAction", "missing");
    assert_eq!(e.describe(), "ActionError. Code: users - DoAction  Message: missing");
    assert_eq!(e.description(), "missing");
}
