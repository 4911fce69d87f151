use vstd::prelude::*;
use crate::event::{Event, Kind};

verus! {

/// One websocket message, with the text of a text message already read as an
/// event (or the reason it could not be).
pub enum Frame<R> {
    Text(Result<Event<R>, String>),
    Binary,
    Close,
    Other,
}

/// Why a message could not be handled.
#[derive(Debug)]
pub enum HandlerError {
    /// The text of a message is not an event; the reason.
    Parse(String),
    /// The server closed the connection.
    ConnectionClosed,
}

/// Why an event carries no collection.
#[derive(Debug, Clone, Copy, PartialEq, Eq, Structural)]
pub enum NsidError {
    /// The event is not a commit, or its commit body is missing.
    NotACommit,
}

/// What is to be done with a message once it is read.
pub enum Dispatch<R> {
    /// Hand the event to the ingestor registered for this collection, if any.
    Ingest(String, Event<R>),
    /// A commit event without its commit body: log it.
    MissingCommit,
    /// An identity event: count it.
    Identity,
    /// An account event: count it.
    Account,
    /// An event of an unknown kind: count it under that kind.
    Unknown(String),
    /// Ask for a reconnection.
    Reconnect,
    /// Nothing.
    Nothing,
}

/// The outcome of handling one message: the cursor afterwards, what to do,
/// and what to report.
pub struct Handled<R> {
    pub cursor: Option<u64>,
    pub dispatch: Dispatch<R>,
    pub result: Result<(), HandlerError>,
}

/// The cursor after an event with the given time: an unset cursor starts at
/// the event's time, a set one moves forward to a later time and never back,
/// and an event without a time leaves it alone.
pub open spec fn advanced_cursor(cursor: Option<u64>, time_us: Option<u64>) -> Option<u64> {
    match (cursor, time_us) {
        (Some(c), Some(t)) => if t > c { Some(t) } else { Some(c) },
        (None, Some(t)) => Some(t),
        (_, None) => cursor,
    }
}

/// The cursor after an event with the given time.
pub fn advance_cursor(cursor: Option<u64>, time_us: Option<u64>) -> (r: Option<u64>)
    ensures
        r == advanced_cursor(cursor, time_us),
{
    match (cursor, time_us) {
        (Some(c), Some(t)) => if t > c { Some(t) } else { Some(c) },
        (None, Some(t)) => Some(t),
        (_, None) => cursor,
    }
}

/// The collection (NSID) of the record that a commit event is about; an error
/// for any other kind of event or a commit event without its body.
pub fn extract_nsid<R>(event: &Event<R>) -> (r: Result<String, NsidError>)
    ensures
        r is Ok <==> (event.kind is Commit && event.commit is Some),
        r matches Ok(nsid) ==> nsid == event.commit.unwrap().collection,
{
    match (&event.kind, &event.commit) {
        (Kind::Commit, Some(commit)) => Ok(commit.collection.clone()),
        _ => Err(NsidError::NotACommit),
    }
}

/// What an event that was read asks for: a commit goes to the ingestor of its
/// collection, the other kinds are counted.
pub open spec fn event_dispatch<R>(e: Event<R>, d: Dispatch<R>) -> bool {
    match e.kind {
        Kind::Commit => match e.commit {
            Some(c) => d == Dispatch::Ingest(c.collection, e),
            None => d is MissingCommit,
        },
        Kind::Identity => d is Identity,
        Kind::Account => d is Account,
        Kind::Unknown(k) => d == Dispatch::<R>::Unknown(k),
    }
}

/// Handles one message. A text message whose event was read moves the cursor
/// forward to the event's time, starting an unset cursor there (before any
/// ingestion), and is then dispatched
/// by kind; it succeeds whatever the ingestor later does. A text message that
/// is not an event fails and leaves the cursor alone. A close message asks
/// for a reconnection and fails. Binary and other messages are ignored.
pub fn handle_message<R>(frame: Frame<R>, cursor: Option<u64>) -> (h: Handled<R>)
    ensures
        match frame {
            Frame::Text(Ok(e)) => {
                &&& h.cursor == advanced_cursor(cursor, e.time_us)
                &&& h.result is Ok
                &&& event_dispatch(e, h.dispatch)
            },
            Frame::Text(Err(reason)) => {
                &&& h.cursor == cursor
                &&& h.result == Err::<(), HandlerError>(HandlerError::Parse(reason))
                &&& h.dispatch is Nothing
            },
            Frame::Close => {
                &&& h.cursor == cursor
                &&& h.result == Err::<(), HandlerError>(HandlerError::ConnectionClosed)
                &&& h.dispatch is Reconnect
            },
            Frame::Binary | Frame::Other => {
                &&& h.cursor == cursor
                &&& h.result is Ok
                &&& h.dispatch is Nothing
            },
        },
{
    match frame {
        Frame::Text(Ok(event)) => {
            let new_cursor = advance_cursor(cursor, event.time_us);
            let dispatch = match event.kind {
                Kind::Commit => match extract_nsid(&event) {
                    Ok(nsid) => Dispatch::Ingest(nsid, event),
                    Err(_) => Dispatch::MissingCommit,
                },
                Kind::Identity => Dispatch::Identity,
                Kind::Account => Dispatch::Account,
                Kind::Unknown(ref kind) => Dispatch::Unknown(kind.clone()),
            };
            Handled { cursor: new_cursor, dispatch, result: Ok(()) }
        },
        Frame::Text(Err(reason)) => Handled {
            cursor,
            dispatch: Dispatch::Nothing,
            result: Err(HandlerError::Parse(reason)),
        },
        Frame::Close => Handled {
            cursor,
            dispatch: Dispatch::Reconnect,
            result: Err(HandlerError::ConnectionClosed),
        },
        Frame::Binary | Frame::Other => Handled { cursor, dispatch: Dispatch::Nothing, result: Ok(()) },
    }
}


/// The cursor after events with the given times, handled in order.
pub open spec fn cursor_after(cursor: Option<u64>, times: Seq<Option<u64>>) -> Option<u64>
    decreases times.len(),
{
    if times.len() == 0 {
        cursor
    } else {
        advanced_cursor(cursor_after(cursor, times.drop_last()), times.last())
    }
}

/// The cursor never moves back: handling one event leaves a set cursor at
/// the later of its value and the event's time, starts an unset cursor at the
/// event's time, and leaves either alone for an event without a time; handling
/// the same event again changes nothing.
pub proof fn lemma_cursor_never_moves_back(cursor: Option<u64>, time_us: Option<u64>)
    ensures
        time_us is None ==> advanced_cursor(cursor, time_us) == cursor,
        cursor matches Some(c) ==> (advanced_cursor(cursor, time_us) matches Some(n) && n >= c),
        time_us matches Some(t) ==> (advanced_cursor(cursor, time_us) matches Some(n) && n >= t),
        (cursor is None && time_us is Some) ==> advanced_cursor(cursor, time_us) == time_us,
        advanced_cursor(advanced_cursor(cursor, time_us), time_us) == advanced_cursor(cursor, time_us),
{
}

/// After any run of events the cursor holds the latest of its first value (if
/// set) and all the events' times; it is unset only if it started unset and no
/// event had a time.
pub proof fn lemma_cursor_is_latest_time(cursor: Option<u64>, times: Seq<Option<u64>>)
    ensures
        forall|i: int| 0 <= i < times.len() ==> (#[trigger] times[i] matches Some(t) ==> (
            cursor_after(cursor, times) matches Some(n) && n >= t)),
        cursor matches Some(c) ==> (cursor_after(cursor, times) matches Some(n) && n >= c),
        cursor_after(cursor, times) matches Some(n) ==> (cursor == Some(n) || exists|i: int|
            0 <= i < times.len() && times[i] == Some(n)),
        cursor_after(cursor, times) is None ==> (cursor is None && forall|i: int|
            0 <= i < times.len() ==> #[trigger] times[i] is None),
    decreases times.len(),
{
    if times.len() > 0 {
        let prefix = times.drop_last();
        lemma_cursor_is_latest_time(cursor, prefix);
        let prev = cursor_after(cursor, prefix);
        let now = cursor_after(cursor, times);
        assert forall|i: int| 0 <= i < times.len() implies (#[trigger] times[i] matches Some(t) ==> (
            now matches Some(n) && n >= t)) by {
            if i < times.len() - 1 {
                assert(times[i] == prefix[i]);
            }
        }
        if let Some(n) = now {
            if cursor != Some(n) {
                if prev == Some(n) {
                    let i = choose|i: int| 0 <= i < prefix.len() && prefix[i] == Some(n);
                    assert(times[i] == Some(n));
                } else {
                    assert(times[times.len() - 1] == Some(n));
                }
            }
        } else {
            assert forall|i: int| 0 <= i < times.len() implies #[trigger] times[i] is None by {
                if i < times.len() - 1 {
                    assert(times[i] == prefix[i]);
                }
            }
        }
    }
}

/// A message's event reaches an ingestor exactly when its collection can be
/// extracted: it is a commit with its body, and the ingestor is the one
/// registered for that body's collection.
pub proof fn lemma_ingested_iff_nsid<R>(e: Event<R>, d: Dispatch<R>)
    requires
        event_dispatch(e, d),
    ensures
        d is Ingest <==> (e.kind is Commit && e.commit is Some),
        d matches Dispatch::Ingest(nsid, ev) ==> nsid == e.commit.unwrap().collection && ev == e,
{
}

} // verus!
