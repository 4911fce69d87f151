use std::collections::HashMap;
use std::sync::{Arc, Mutex};

use rocketman::event::{Commit, Event, Identity, Kind, Operation};
use rocketman::handler::{
    advance_cursor, extract_nsid, handle_message, Dispatch, Frame, HandlerError, NsidError,
};
use serde_json::Value;

type Ingest = Box<dyn Fn(&Event<Value>) -> Result<(), String>>;

fn record() -> Value {
    serde_json::from_str("{\"foo\":\"bar\"}").unwrap()
}

fn commit_event(time_us: u64, collection: &str) -> Event<Value> {
    Event {
        did: "did:example:123".to_string(),
        time_us: Some(time_us),
        kind: Kind::Commit,
        commit: Some(Commit {
            rev: "1".to_string(),
            operation: Operation::Create,
            collection: collection.to_string(),
            rkey: "rkey1".to_string(),
            record: Some(record()),
            cid: Some("cid123".to_string()),
        }),
        identity: None,
        account: None,
    }
}

/// Runs what the dispatch asks for against the registered ingestors, as the
/// message loop does; an ingestor's failure is only logged.
fn run_dispatch(dispatch: Dispatch<Value>, ingestors: &HashMap<String, Ingest>) {
    if let Dispatch::Ingest(nsid, event) = dispatch {
        if let Some(ingest) = ingestors.get(&nsid) {
            let _ = ingest(&event);
        }
    }
}

#[test]
fn test_valid_commit_success() {
    let called = Arc::new(Mutex::new(false));
    let flag = called.clone();
    let mut ingestors: HashMap<String, Ingest> = HashMap::new();
    ingestors.insert(
        "ns1".to_string(),
        Box::new(move |_e: &Event<Value>| {
            *flag.lock().unwrap() = true;
            Ok(())
        }),
    );
    let h = handle_message(Frame::Text(Ok(commit_event(200, "ns1"))), Some(100));
    assert!(h.result.is_ok());
    run_dispatch(h.dispatch, &ingestors);
    assert!(*called.lock().unwrap());
    assert_eq!(h.cursor, Some(200));
}

#[test]
fn test_commit_ingest_failure() {
    let mut ingestors: HashMap<String, Ingest> = HashMap::new();
    ingestors.insert(
        "ns_error".to_string(),
        Box::new(|_e: &Event<Value>| Err("Ingest error".to_string())),
    );
    let h = handle_message(Frame::Text(Ok(commit_event(300, "ns_error"))), Some(100));
    assert!(h.result.is_ok());
    run_dispatch(h.dispatch, &ingestors);
    assert_eq!(h.cursor, Some(300));
}

#[test]
fn test_identity_message() {
    let event: Event<Value> = Event {
        did: "did:example:123".to_string(),
        time_us: Some(150),
        kind: Kind::Identity,
        commit: None,
        identity: Some(Identity {
            did: "did:example:123".to_string(),
            handle: Some("user".to_string()),
            seq: 1,
            time: "2025-01-01T00:00:00Z".to_string(),
        }),
        account: None,
    };
    let h = handle_message(Frame::Text(Ok(event)), None);
    assert!(h.result.is_ok());
    assert!(matches!(h.dispatch, Dispatch::Identity));
    assert_eq!(h.cursor, Some(150));
}

#[test]
fn test_binary_message() {
    let h = handle_message::<Value>(Frame::Binary, None);
    assert!(h.result.is_ok());
}

#[test]
fn test_close_message() {
    let h = handle_message::<Value>(Frame::Close, None);
    assert!(h.result.is_err());
    assert!(matches!(h.result, Err(HandlerError::ConnectionClosed)));
    assert!(matches!(h.dispatch, Dispatch::Reconnect));
}

#[test]
fn test_invalid_json() {
    let text = "this is not json";
    let read: Result<Event<Value>, String> = match serde_json::from_str::<Value>(text) {
        Ok(_) => panic!("text should not be JSON"),
        Err(e) => Err(format!("Failed to parse message: {} with json string {}", e, text)),
    };
    let h = handle_message(Frame::Text(read), None);
    assert!(h.result.is_err());
    assert!(matches!(h.result, Err(HandlerError::Parse(_))));
}

#[test]
fn test_cursor_not_updated_if_lower() {
    let h = handle_message(Frame::Text(Ok(commit_event(200, "ns1"))), Some(300));
    assert!(h.result.is_ok());
    assert_eq!(h.cursor, Some(300));
}

#[test]
fn unset_cursor_starts_at_event_time() {
    let h = handle_message(Frame::Text(Ok(commit_event(200, "ns1"))), None);
    assert_eq!(h.cursor, Some(200));
    assert!(matches!(h.dispatch, Dispatch::Ingest(ref n, _) if n == "ns1"));
}

#[test]
fn commit_without_body_is_logged_not_ingested() {
    let mut event = commit_event(10, "ns1");
    event.commit = None;
    assert_eq!(extract_nsid(&event), Err(NsidError::NotACommit));
    let h = handle_message(Frame::Text(Ok(event)), Some(5));
    assert!(h.result.is_ok());
    assert!(matches!(h.dispatch, Dispatch::MissingCommit));
    assert_eq!(h.cursor, Some(10));
}

#[test]
fn extract_nsid_of_commit_and_of_other_kinds() {
    let event = commit_event(10, "fm.teal.alpha.feed.play");
    assert_eq!(extract_nsid(&event), Ok("fm.teal.alpha.feed.play".to_string()));
    let mut other = commit_event(10, "ns1");
    other.kind = Kind::Account;
    assert_eq!(extract_nsid(&other), Err(NsidError::NotACommit));
}

#[test]
fn unknown_and_account_kinds_are_counted() {
    let mut e = commit_event(10, "ns1");
    e.kind = Kind::Unknown("sync".to_string());
    let h = handle_message(Frame::Text(Ok(e)), None);
    assert!(matches!(h.dispatch, Dispatch::Unknown(ref k) if k == "sync"));
    let mut a = commit_event(10, "ns1");
    a.kind = Kind::Account;
    let h = handle_message(Frame::Text(Ok(a)), None);
    assert!(matches!(h.dispatch, Dispatch::Account));
}

#[test]
fn other_frames_are_ignored() {
    let h = handle_message::<Value>(Frame::Other, Some(7));
    assert_eq!(handle_message::<Value>(Frame::Binary, None).cursor, None);
    assert!(h.result.is_ok());
    assert!(matches!(h.dispatch, Dispatch::Nothing));
    assert_eq!(h.cursor, Some(7));
}

#[test]
fn cursor_holds_latest_time_over_a_run() {
    let mut cursor = Some(100);
    for t in [Some(150), Some(120), None, Some(400), Some(399)] {
        let next = advance_cursor(cursor, t);
        assert!(next >= cursor);
        cursor = next;
    }
    assert_eq!(cursor, Some(400));
    assert_eq!(advance_cursor(None, Some(5)), Some(5));
    assert_eq!(advance_cursor(None, None), None);
    assert_eq!(advance_cursor(Some(9), None), Some(9));
}
