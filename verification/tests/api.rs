use rocketman::api::{actor_identity, actor_response, get_meta_info, GetProfileQuery};
use rocketman::ingestion::{CustomLexiconIngestor, DefaultLexiconIngestor};
use rocketman::raw_handler::{after_ingest, handle_message, start_ingest, IngestProgress, RawError, RawFrame, RawStep};

#[test]
fn meta_info_reports_unknown_for_unread_values() {
    let info = get_meta_info(Some("Linux".to_string()), None, Some("host".to_string()), "v1-3-gabc", "2025-01-01", "2025-01-02T00:00:00Z", "1.80.0");
    assert_eq!(info.os.os_type, "Linux");
    assert_eq!(info.os.release, "Unknown");
    assert_eq!(info.os.hostname, "host");
    assert_eq!(info.app.git_hash, "v1-3-gabc");
    assert_eq!(info.app.git_date, "2025-01-01");
    assert_eq!(info.app.build_time, "2025-01-02T00:00:00Z");
    assert_eq!(info.app.rustc_ver, "1.80.0");
}

#[test]
fn profile_request_needs_an_identity() {
    let e = actor_identity(&GetProfileQuery { identity: None }).unwrap_err();
    assert_eq!(e.status, 400);
    assert_eq!(e.message, "identity is required");
    let id = actor_identity(&GetProfileQuery { identity: Some("did:plc:abc".to_string()) }).unwrap();
    assert_eq!(id, "did:plc:abc");
}

#[test]
fn profile_responses() {
    assert_eq!(actor_response::<u32>(Ok(Some(7))).unwrap(), 7);
    let nf = actor_response::<u32>(Ok(None)).unwrap_err();
    assert_eq!(nf.status, 404);
    assert_eq!(nf.message, "Profile not found");
    let err = actor_response::<u32>(Err("db down".to_string())).unwrap_err();
    assert_eq!(err.status, 500);
    assert_eq!(err.message, "db down");
}

#[test]
fn raw_frames() {
    assert!(matches!(handle_message::<String>(RawFrame::Text("hi".to_string())), RawStep::Ingest(ref t) if t == "hi"));
    assert!(matches!(handle_message::<String>(RawFrame::Binary), RawStep::Done(Ok(()))));
    assert!(matches!(handle_message::<String>(RawFrame::Other), RawStep::Done(Ok(()))));
    assert!(matches!(handle_message::<String>(RawFrame::Close), RawStep::Done(Err(RawError::ConnectionClosed))));
    assert!(matches!(handle_message(RawFrame::Failed("io".to_string())), RawStep::Done(Err(RawError::Transport(ref e))) if e == "io"));
}

#[test]
fn ingestor_markers_exist() {
    let _d = DefaultLexiconIngestor;
    let _c = CustomLexiconIngestor;
}

fn run_ingest(outcomes: &[Result<(), String>]) -> (Vec<usize>, Result<(), String>) {
    let mut calls = vec![];
    let mut progress = start_ingest::<String>(outcomes.len());
    loop {
        match progress {
            IngestProgress::Call(i) => {
                calls.push(i);
                progress = after_ingest(i, outcomes.len(), outcomes[i].clone());
            }
            IngestProgress::Finished(r) => return (calls, r),
        }
    }
}

#[test]
fn text_goes_to_ingestors_in_order_until_one_fails() {
    assert_eq!(run_ingest(&[]), (vec![], Ok(())));
    assert_eq!(run_ingest(&[Ok(()), Ok(()), Ok(())]), (vec![0, 1, 2], Ok(())));
    assert_eq!(
        run_ingest(&[Ok(()), Err("e1".to_string()), Err("e2".to_string())]),
        (vec![0, 1], Err("e1".to_string()))
    );
    assert_eq!(run_ingest(&[Err("first".to_string()), Ok(())]), (vec![0], Err("first".to_string())));
}
