use vstd::prelude::*;

verus! {

/// What a jetstream event reports.
#[derive(Debug, Clone, PartialEq, Eq)]
pub enum Kind {
    Commit,
    Identity,
    Account,
    Unknown(String),
}

/// What a commit did to a record.
#[derive(Debug, Clone, Copy, PartialEq, Eq, Structural)]
pub enum Operation {
    Create,
    Update,
    Delete,
}

/// A change to one record of a repository; `R` is the record's type.
#[derive(Debug, Clone)]
pub struct Commit<R> {
    pub rev: String,
    pub operation: Operation,
    pub collection: String,
    pub rkey: String,
    pub record: Option<R>,
    pub cid: Option<String>,
}

/// A change of an account's identity (its handle, say).
#[derive(Debug, Clone)]
pub struct Identity {
    pub did: String,
    pub handle: Option<String>,
    pub seq: u64,
    pub time: String,
}

/// A change of an account's status.
#[derive(Debug, Clone)]
pub struct Account {
    pub did: String,
    pub handle: Option<String>,
    pub seq: u64,
    pub time: String,
    pub status: Option<String>,
}

/// One jetstream event: who it is about, when (in microseconds), what kind it
/// is, and the body that goes with that kind.
#[derive(Debug, Clone)]
pub struct Event<R> {
    pub did: String,
    pub time_us: Option<u64>,
    pub kind: Kind,
    pub commit: Option<Commit<R>>,
    pub identity: Option<Identity>,
    pub account: Option<Account>,
}

} // verus!
