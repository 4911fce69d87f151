use vstd::prelude::*;
use vstd::string::*;
use vstd::utf8::encode_utf8;
use crate::event::Event;
use crate::play::IngestError;

verus! {

/// The version of a content identifier.
#[derive(Debug, Clone, Copy, PartialEq, Eq, Structural)]
pub enum CidVersion {
    V0,
    V1,
}

/// A content identifier, as its version and its binary form.
#[derive(Debug, Clone)]
pub struct CidLink {
    pub version: CidVersion,
    pub bytes: Vec<u8>,
}

/// A blob stored with a typed reference.
#[derive(Debug, Clone)]
pub struct Blob {
    pub cid: CidLink,
    pub mime_type: String,
    pub size: u64,
}

/// A blob stored with the older, untyped reference.
#[derive(Debug, Clone)]
pub struct UntypedBlob {
    pub cid: String,
    pub mime_type: String,
}

/// A reference to a blob (an avatar or a banner).
#[derive(Debug, Clone)]
pub enum BlobRef {
    Typed(Blob),
    Untyped(UntypedBlob),
}

/// Why a blob reference gives no link.
#[derive(Debug, Clone, Copy, PartialEq, Eq, Structural)]
pub enum BlobRefError {
    /// A version 0 identifier has no base32 form.
    CidV0,
    /// Untyped references are not supported.
    Untyped,
}

/// The text that `multibase::encode(Base::Base32Lower, bytes)` gives.
pub uninterp spec fn multibase_base32_lower(bytes: Seq<u8>) -> Seq<char>;

/// A character of the lower-case base32 alphabet, `a`-`z` and `2`-`7`.
pub open spec fn is_base32_lower_char(c: char) -> bool {
    ('a' <= c && c <= 'z') || ('2' <= c && c <= '7')
}

/// A lower-case base32 multibase text: the base's code `b`, then characters
/// of the lower-case base32 alphabet.
pub open spec fn is_base32_lower_multibase(t: Seq<char>) -> bool {
    &&& t.len() >= 1
    &&& t[0] == 'b'
    &&& forall|i: int| 1 <= i < t.len() ==> is_base32_lower_char(#[trigger] t[i])
}

/// Encodes bytes with `multibase::encode` in lower-case base32 without
/// padding: the base's code `b` followed by characters of the alphabet
/// `abcdefghijklmnopqrstuvwxyz234567`.
#[verifier::external_body]
fn encode_base32_lower(bytes: &Vec<u8>) -> (r: String)
    ensures
        r@ == multibase_base32_lower(bytes@),
        is_base32_lower_multibase(r@),
{
    multibase::encode(multibase::Base::Base32Lower, bytes.as_slice())
}

/// The link of a blob: the lower-case base32 multibase form of its content
/// identifier (`bafy...`), which only version 1 identifiers have; untyped
/// references give none.
pub fn get_blob_ref(blob_ref: &BlobRef) -> (r: Result<String, BlobRefError>)
    ensures
        match blob_ref {
            BlobRef::Typed(blob) => match blob.cid.version {
                CidVersion::V1 => r matches Ok(link) && link@ == multibase_base32_lower(blob.cid.bytes@)
                    && is_base32_lower_multibase(link@),
                CidVersion::V0 => r == Err::<String, BlobRefError>(BlobRefError::CidV0),
            },
            BlobRef::Untyped(_) => r == Err::<String, BlobRefError>(BlobRefError::Untyped),
        },
{
    match blob_ref {
        BlobRef::Typed(blob) => match blob.cid.version {
            CidVersion::V1 => Ok(encode_base32_lower(&blob.cid.bytes)),
            CidVersion::V0 => Err(BlobRefError::CidV0),
        },
        BlobRef::Untyped(_) => Err(BlobRefError::Untyped),
    }
}

/// The link of an optional blob, or `None` where there is no blob or it
/// gives no link.
pub fn optional_blob_link(blob_ref: &Option<BlobRef>) -> (r: Option<String>)
    ensures
        match blob_ref {
            Some(b) => match b {
                BlobRef::Typed(blob) => match blob.cid.version {
                    CidVersion::V1 => r matches Some(link) && link@ == multibase_base32_lower(blob.cid.bytes@)
                        && is_base32_lower_multibase(link@),
                    CidVersion::V0 => r is None,
                },
                BlobRef::Untyped(_) => r is None,
            },
            None => r is None,
        },
{
    match blob_ref {
        Some(b) => match get_blob_ref(b) {
            Ok(link) => Some(link),
            Err(_) => None,
        },
        None => None,
    }
}

/// An ASCII lower-case letter.
pub open spec fn is_lower_byte(b: u8) -> bool {
    97 <= b <= 122
}

/// An ASCII letter or digit.
pub open spec fn is_alnum_byte(b: u8) -> bool {
    ||| 48 <= b <= 57
    ||| 65 <= b <= 90
    ||| 97 <= b <= 122
}

/// A byte that may end a DID: a letter, a digit, `.`, `_` or `-`.
pub open spec fn is_did_end_byte(b: u8) -> bool {
    is_alnum_byte(b) || b == 46 || b == 95 || b == 45
}

/// A byte that may stand in a DID's identifier: those that may end it, `:`
/// and `%`.
pub open spec fn is_did_body_byte(b: u8) -> bool {
    is_did_end_byte(b) || b == 58 || b == 37
}

/// The DID syntax, `did:[a-z]+:[a-zA-Z0-9._:%-]*[a-zA-Z0-9._-]`, over the
/// whole of a text's bytes: `m` is where the method ends.
pub open spec fn did_syntax_at(b: Seq<u8>, m: int) -> bool {
    &&& 4 < m
    &&& m + 2 <= b.len()
    &&& b[0] == 100 && b[1] == 105 && b[2] == 100 && b[3] == 58
    &&& forall|k: int| 4 <= k < m ==> is_lower_byte(#[trigger] b[k])
    &&& b[m] == 58
    &&& forall|k: int| m < k < b.len() - 1 ==> is_did_body_byte(#[trigger] b[k])
    &&& is_did_end_byte(b[b.len() - 1])
}

/// A text's bytes follow the DID syntax.
pub open spec fn did_syntax(b: Seq<u8>) -> bool {
    exists|m: int| did_syntax_at(b, m)
}

/// Why a text is not a DID.
#[derive(Debug, Clone, Copy, PartialEq, Eq, Structural)]
pub enum DidError {
    /// Longer than 2048 bytes.
    TooLong,
    /// Not of the DID syntax.
    Invalid,
}

fn check_did_syntax(b: &[u8]) -> (ok: bool)
    ensures
        ok == did_syntax(b@),
{
    let n = b.len();
    if n < 7 || b[0] != 100 || b[1] != 105 || b[2] != 100 || b[3] != 58 {
        proof {
            if did_syntax(b@) {
                let m = choose|m: int| did_syntax_at(b@, m);
            }
        }
        return false;
    }
    let mut m: usize = 4;
    while m < n && 97 <= b[m] && b[m] <= 122
        invariant
            4 <= m <= n,
            n == b@.len(),
            forall|k: int| 4 <= k < m ==> is_lower_byte(#[trigger] b@[k]),
        decreases n - m,
    {
        m = m + 1;
    }
    if m == 4 || m >= n - 1 || b[m] != 58 {
        proof {
            if did_syntax(b@) {
                let m2 = choose|m2: int| did_syntax_at(b@, m2);
                if m2 < m {
                    assert(is_lower_byte(b@[m2]));
                } else if m2 > m {
                    assert(is_lower_byte(b@[m as int]));
                }
            }
        }
        return false;
    }
    let mut k: usize = m + 1;
    while k < n - 1
        invariant
            m + 1 <= k <= n - 1,
            m + 2 <= n,
            n == b@.len(),
            forall|i: int| m < i < k ==> is_did_body_byte(#[trigger] b@[i]),
        decreases n - k,
    {
        let c = b[k];
        let ok = (48 <= c && c <= 57) || (65 <= c && c <= 90) || (97 <= c && c <= 122) || c == 46
            || c == 95 || c == 45 || c == 58 || c == 37;
        if !ok {
            proof {
                if did_syntax(b@) {
                    let m2 = choose|m2: int| did_syntax_at(b@, m2);
                    if m2 < m {
                        assert(is_lower_byte(b@[m2]));
                    } else if m2 > m {
                        assert(is_lower_byte(b@[m as int]));
                    }
                    assert(is_did_body_byte(b@[k as int]));
                }
            }
            return false;
        }
        k = k + 1;
    }
    let last = b[n - 1];
    let ok = (48 <= last && last <= 57) || (65 <= last && last <= 90) || (97 <= last && last <= 122)
        || last == 46 || last == 95 || last == 45;
    proof {
        if ok {
            assert(did_syntax_at(b@, m as int));
        } else if did_syntax(b@) {
            let m2 = choose|m2: int| did_syntax_at(b@, m2);
        }
    }
    ok
}

/// Reads a DID: at most 2048 bytes of the DID syntax.
pub fn validate_did(did: String) -> (r: Result<String, DidError>)
    ensures
        encode_utf8(did@).len() > 2048 ==> r == Err::<String, DidError>(DidError::TooLong),
        encode_utf8(did@).len() <= 2048 && !did_syntax(encode_utf8(did@)) ==> r == Err::<String, DidError>(DidError::Invalid),
        encode_utf8(did@).len() <= 2048 && did_syntax(encode_utf8(did@)) ==> r == Ok::<String, DidError>(did),
{
    let bytes = did.as_str().as_bytes();
    if bytes.len() > 2048 {
        return Err(DidError::TooLong);
    }
    if check_did_syntax(bytes) {
        Ok(did)
    } else {
        Err(DidError::Invalid)
    }
}

/// What a profile commit asks of the database.
#[derive(Debug)]
pub enum ProfileAction {
    /// Read the profile record from the commit and store it for the DID; the
    /// DID as read (storing fails where it is not a DID).
    Store { did: Result<String, DidError> },
    /// Read the profile record from the commit, but store nothing: the commit
    /// has no CID.
    Check,
    /// The record is gone: remove the profile of the DID; the DID as read
    /// (removing fails where it is not a DID).
    Remove { did: Result<String, DidError> },
}

/// What a profile commit event asks of the database: a commit with a record
/// and a CID stores the profile, one with a record but no CID only has its
/// record read, one without a record removes the profile, and an event
/// without a commit is an error.
pub fn profile_action<R>(event: &Event<R>) -> (r: Result<ProfileAction, IngestError>)
    ensures
        match event.commit {
            None => r == Err::<ProfileAction, IngestError>(IngestError::NoCommit),
            Some(c) => match c.record {
                Some(_) => match c.cid {
                    Some(_) => r matches Ok(ProfileAction::Store { did }) && did == validated_did(
                        event.did,
                    ),
                    None => r matches Ok(ProfileAction::Check),
                },
                None => r matches Ok(ProfileAction::Remove { did }) && did == validated_did(
                    event.did,
                ),
            },
        },
{
    match &event.commit {
        None => Err(IngestError::NoCommit),
        Some(commit) => match &commit.record {
            Some(_) => match &commit.cid {
                Some(_) => Ok(ProfileAction::Store { did: validate_did(event.did.clone()) }),
                None => Ok(ProfileAction::Check),
            },
            None => Ok(ProfileAction::Remove { did: validate_did(event.did.clone()) }),
        },
    }
}

/// What `validate_did` gives for a text.
pub open spec fn validated_did(did: String) -> Result<String, DidError> {
    let b = encode_utf8(did@);
    if b.len() > 2048 {
        Err(DidError::TooLong)
    } else if !did_syntax(b) {
        Err(DidError::Invalid)
    } else {
        Ok(did)
    }
}

} // verus!
