use vstd::prelude::*;
use vstd::string::*;
use crate::event::Event;

verus! {

/// A `fm.teal.alpha.feed.play` record: one listen of one track.
#[derive(Debug, Clone)]
pub struct PlayRecord {
    pub track_name: String,
    pub recording_mb_id: Option<String>,
    pub duration: Option<i64>,
    pub artist_names: Vec<String>,
    pub artist_mb_ids: Option<Vec<String>>,
    pub release_name: Option<String>,
    pub release_mb_id: Option<String>,
    pub isrc: Option<String>,
    pub music_service_base_domain: Option<String>,
    pub submission_client_agent: Option<String>,
    pub played_time: Option<String>,
}

#[verifier::external_type_specification]
#[verifier::external_body]
pub struct ExUuidError(uuid::Error);

/// The 128-bit value of the UUID that `uuid::Uuid::parse_str` reads from a
/// text, or `None` where it reads none.
pub uninterp spec fn uuid_parse(text: Seq<char>) -> Option<u128>;

/// Reads a UUID with `uuid::Uuid::parse_str` and gives its 128-bit value, or
/// the crate's error.
#[verifier::external_body]
fn parse_uuid(text: &str) -> (r: Result<u128, uuid::Error>)
    ensures
        r is Ok <==> uuid_parse(text@) is Some,
        r matches Ok(v) ==> uuid_parse(text@) == Some(v),
{
    match uuid::Uuid::parse_str(text) {
        Ok(u) => Ok(u.as_u128()),
        Err(e) => Err(e),
    }
}

/// The AT URI of a record: `at://{did}/{collection}/{rkey}`.
pub open spec fn at_uri(did: Seq<char>, collection: Seq<char>, rkey: Seq<char>) -> Seq<char> {
    "at://"@ + did + "/"@ + collection + "/"@ + rkey
}

/// The AT URI of a record, from its repository, collection and key.
pub fn assemble_at_uri(did: &str, collection: &str, rkey: &str) -> (uri: String)
    ensures
        uri@ == at_uri(did@, collection@, rkey@),
{
    let mut uri = String::from_str("at://");
    uri.append(did);
    uri.append("/");
    uri.append(collection);
    uri.append("/");
    uri.append(rkey);
    uri
}

/// The pieces of a text between its `/` characters, in order, as
/// `str::split('/')` gives them (a text without `/` is one piece).
pub open spec fn split_slash(s: Seq<char>) -> Seq<Seq<char>>
    decreases s.len(),
{
    if s.len() == 0 {
        seq![Seq::<char>::empty()]
    } else {
        let rest = split_slash(s.drop_first());
        if s[0] == '/' {
            seq![Seq::<char>::empty()] + rest
        } else {
            rest.update(0, seq![s[0]] + rest[0])
        }
    }
}

/// A text holds no `/`.
pub open spec fn no_slash(s: Seq<char>) -> bool {
    forall|i: int| 0 <= i < s.len() ==> s[i] != '/'
}

proof fn lemma_split_slash_of_piece(s: Seq<char>)
    requires
        no_slash(s),
    ensures
        split_slash(s) == seq![s],
    decreases s.len(),
{
    if s.len() == 0 {
        assert(s =~= Seq::<char>::empty());
        assert(split_slash(s) =~= seq![s]);
    } else {
        lemma_split_slash_of_piece(s.drop_first());
        assert(seq![s[0]] + s.drop_first() =~= s);
        assert(split_slash(s) =~= seq![s]);
    }
}

proof fn lemma_split_slash_after_piece(a: Seq<char>, b: Seq<char>)
    requires
        no_slash(a),
    ensures
        split_slash(a + seq!['/'] + b) == seq![a] + split_slash(b),
    decreases a.len(),
{
    let s = a + seq!['/'] + b;
    if a.len() == 0 {
        assert(a =~= Seq::<char>::empty());
        assert(s.drop_first() =~= b);
        assert(s[0] == '/');
        assert(split_slash(s) =~= seq![a] + split_slash(b));
    } else {
        let a2 = a.drop_first();
        lemma_split_slash_after_piece(a2, b);
        assert(s.drop_first() =~= a2 + seq!['/'] + b);
        assert(s[0] == a[0]);
        assert(seq![a[0]] + a2 =~= a);
        assert(split_slash(s) =~= seq![a] + split_slash(b));
    }
}

/// Splitting an AT URI at `/` gives back its parts: `at:`, an empty piece,
/// then the repository, the collection and the key, where none of these
/// holds a `/`.
pub proof fn lemma_at_uri_splits_back(did: Seq<char>, collection: Seq<char>, rkey: Seq<char>)
    requires
        no_slash(did),
        no_slash(collection),
        no_slash(rkey),
    ensures
        split_slash(at_uri(did, collection, rkey)) == seq![seq!['a', 't', ':'], Seq::<char>::empty(), did, collection, rkey],
{
    reveal_strlit("at://");
    reveal_strlit("/");
    let scheme = seq!['a', 't', ':'];
    let empty = Seq::<char>::empty();
    let slash = seq!['/'];
    let tail3 = rkey;
    let tail2 = collection + slash + tail3;
    let tail1 = did + slash + tail2;
    let tail0 = empty + slash + tail1;
    let whole = scheme + slash + tail0;
    assert(whole =~= at_uri(did, collection, rkey));
    assert(no_slash(scheme));
    assert(no_slash(empty));
    lemma_split_slash_of_piece(tail3);
    lemma_split_slash_after_piece(collection, tail3);
    lemma_split_slash_after_piece(did, tail2);
    lemma_split_slash_after_piece(empty, tail1);
    lemma_split_slash_after_piece(scheme, tail0);
    assert(split_slash(whole) =~= seq![scheme, empty, did, collection, rkey]);
}

/// `j` is where a name first occurs in a list of names.
pub open spec fn first_occurrence(names: Seq<String>, name: Seq<char>, j: int) -> bool {
    &&& 0 <= j < names.len()
    &&& names[j]@ == name
    &&& forall|k: int| 0 <= k < j ==> names[k]@ != name
}

/// Where the artist's name first occurs in the list of names.
fn first_position(names: &Vec<String>, name: &String) -> (j: usize)
    requires
        exists|k: int| 0 <= k < names@.len() && names@[k]@ == name@,
    ensures
        first_occurrence(names@, name@, j as int),
{
    let n = names.len();
    let mut j: usize = 0;
    while j < n
        invariant
            n == names@.len(),
            j <= n,
            forall|k: int| 0 <= k < j ==> names@[k]@ != name@,
            exists|k: int| 0 <= k < names@.len() && names@[k]@ == name@,
        decreases n - j,
    {
        if names[j] == *name {
            return j;
        }
        j = j + 1;
    }
    j
}

/// What a play's artist at one position gives for the join table.
pub enum ArtistEntry {
    /// The record lists no MusicBrainz ids at all: the artist is skipped
    /// (with a warning).
    MissingMbids,
    /// There is no id at the position of the artist's name: skipped.
    NoMbid,
    /// The artist's id and name.
    Row(u128, String),
    /// The artist's id is not a UUID: the play fails.
    InvalidMbid(uuid::Error),
}

/// The artist at position `i` of a play record: its MusicBrainz id is the
/// one at the position where its name first occurs in the list of names.
pub fn artist_entry(record: &PlayRecord, i: usize) -> (r: ArtistEntry)
    requires
        i < record.artist_names@.len(),
    ensures
        match record.artist_mb_ids {
            None => r is MissingMbids,
            Some(ids) => {
                let name = record.artist_names@[i as int];
                exists|j: int| {
                    &&& #[trigger] first_occurrence(record.artist_names@, name@, j)
                    &&& if j < ids@.len() {
                        match uuid_parse(ids@[j]@) {
                            Some(v) => r == ArtistEntry::Row(v, name),
                            None => r is InvalidMbid,
                        }
                    } else {
                        r is NoMbid
                    }
                }
            },
        },
{
    match &record.artist_mb_ids {
        None => ArtistEntry::MissingMbids,
        Some(ids) => {
            let name = &record.artist_names[i];
            let j = first_position(&record.artist_names, name);
            if j < ids.len() {
                match parse_uuid(ids[j].as_str()) {
                    Ok(v) => ArtistEntry::Row(v, name.clone()),
                    Err(e) => ArtistEntry::InvalidMbid(e),
                }
            } else {
                ArtistEntry::NoMbid
            }
        },
    }
}

/// The 128-bit id of an optional MusicBrainz id (a release's or a
/// recording's): `Some(None)` where there is none, `Some(Some(v))` where it is
/// the UUID `v`, and `None` where it is given but is not a UUID.
pub fn checked_mbid_of(mbid: &Option<String>) -> (r: Option<Option<u128>>)
    ensures
        match mbid {
            Some(s) => match uuid_parse(s@) {
                Some(v) => r == Some(Some(v)),
                None => r is None,
            },
            None => r == Some(None::<u128>),
        },
{
    match mbid {
        Some(s) => match parse_uuid(s.as_str()) {
            Ok(v) => Some(Some(v)),
            Err(_) => None,
        },
        None => Some(None),
    }
}

/// The duration column: the record's duration cut to 32 bits.
pub fn duration_column(duration: Option<i64>) -> (r: Option<i32>)
    ensures
        match duration {
            Some(d) => r == Some(d as i32),
            None => r is None,
        },
{
    match duration {
        Some(d) => Some(#[verifier::truncate] (d as i32)),
        None => None,
    }
}

/// Why a commit event cannot be ingested.
#[derive(Debug, Clone, Copy, PartialEq, Eq, Structural)]
pub enum IngestError {
    /// The event has no commit body.
    NoCommit,
}

/// What a play commit asks of the database.
#[derive(Debug)]
pub enum PlayAction {
    /// Read the record from the commit and store it under `uri`.
    Store { uri: String, cid: String, did: String, rkey: String },
    /// Read the record from the commit (which must be a play), but store
    /// nothing: the commit has no CID.
    Check,
    /// The record is gone: remove the plays stored under `uri`, which is the
    /// event's DID.
    Remove { uri: String },
}

/// What a play commit event asks of the database: a commit with a record and
/// a CID is stored under its AT URI, a commit with a record but no CID only
/// has its record read, a commit without a record removes plays, and an
/// event without a commit is an error.
pub fn play_action<R>(event: &Event<R>) -> (r: Result<PlayAction, IngestError>)
    ensures
        match event.commit {
            None => r == Err::<PlayAction, IngestError>(IngestError::NoCommit),
            Some(c) => match c.record {
                Some(_) => match c.cid {
                    Some(commit_cid) => r matches Ok(PlayAction::Store { uri, cid, did, rkey }) && {
                        &&& uri@ == at_uri(event.did@, c.collection@, c.rkey@)
                        &&& cid == commit_cid
                        &&& did == event.did
                        &&& rkey == c.rkey
                    },
                    None => r matches Ok(PlayAction::Check),
                },
                None => r matches Ok(PlayAction::Remove { uri }) && uri == event.did,
            },
        },
{
    match &event.commit {
        None => Err(IngestError::NoCommit),
        Some(commit) => match &commit.record {
            Some(_) => match &commit.cid {
                Some(cid) => Ok(PlayAction::Store {
                    uri: assemble_at_uri(event.did.as_str(), commit.collection.as_str(), commit.rkey.as_str()),
                    cid: cid.clone(),
                    did: event.did.clone(),
                    rkey: commit.rkey.clone(),
                }),
                None => Ok(PlayAction::Check),
            },
            None => Ok(PlayAction::Remove { uri: event.did.clone() }),
        },
    }
}

} // verus!
