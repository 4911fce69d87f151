use vstd::prelude::*;

verus! {

/// The instant (Unix time in nanoseconds) and UTC offset (in seconds) that
/// `time::OffsetDateTime::parse` reads from an RFC 3339 text, or `None` where
/// it reads none.
pub uninterp spec fn rfc3339_parse(text: Seq<char>) -> Option<(i128, i32)>;

/// Reads an RFC 3339 date and time with `time::OffsetDateTime::parse` and
/// gives its Unix time in nanoseconds and its offset in seconds.
#[verifier::external_body]
fn parse_rfc3339(text: &str) -> (r: Option<(i128, i32)>)
    ensures
        r == rfc3339_parse(text@),
{
    match time::OffsetDateTime::parse(text, &time::format_description::well_known::Rfc3339) {
        Ok(t) => Some((t.unix_timestamp_nanos(), t.offset().whole_seconds())),
        Err(_) => None,
    }
}

/// The time a record gives (a play's played time, a profile's creation
/// time): `Some(None)` where it gives none (the current time is used),
/// `Some(Some(v))` where its text reads as `v`, and `None` where its text is
/// not an RFC 3339 date and time.
pub fn record_time(text: &Option<String>) -> (r: Option<Option<(i128, i32)>>)
    ensures
        match text {
            None => r == Some(None::<(i128, i32)>),
            Some(t) => match rfc3339_parse(t@) {
                Some(v) => r == Some(Some(v)),
                None => r is None,
            },
        },
{
    match text {
        None => Some(None),
        Some(t) => match parse_rfc3339(t.as_str()) {
            Some(v) => Some(Some(v)),
            None => None,
        },
    }
}

} // verus!
