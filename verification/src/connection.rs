use vstd::prelude::*;
use vstd::string::*;
use crate::endpoints::endpoint_url;
use crate::options::JetstreamOptions;

verus! {

/// The serialization that `url::Url::parse` gives for a text, or `None` where
/// the text is not an absolute URL.
pub uninterp spec fn url_parse(text: Seq<char>) -> Option<Seq<char>>;

/// The serialization of the URL that `url::Url::parse(url)` gives after
/// `query_pairs_mut().append_pair(key, value)`, or `None` where `url` does
/// not parse.
pub uninterp spec fn url_append_query_pair(url: Seq<char>, key: Seq<char>, value: Seq<char>) -> Option<Seq<char>>;

/// The text of an optional string.
pub open spec fn opt_text(o: Option<String>) -> Option<Seq<char>> {
    match o {
        Some(s) => Some(s@),
        None => None,
    }
}

/// The texts of a list of strings.
pub open spec fn texts(v: Seq<String>) -> Seq<Seq<char>> {
    v.map_values(|s: String| s@)
}

/// Appends `key=value` for each value in turn to a URL, failing where any
/// step fails.
pub open spec fn append_values(url: Option<Seq<char>>, key: Seq<char>, values: Seq<Seq<char>>) -> Option<Seq<char>>
    decreases values.len(),
{
    if values.len() == 0 {
        url
    } else {
        match append_values(url, key, values.drop_last()) {
            Some(u) => url_append_query_pair(u, key, values.last()),
            None => None,
        }
    }
}

/// Appends `key=value` for each value of an optional list.
pub open spec fn append_optional_values(url: Option<Seq<char>>, key: Seq<char>, values: Option<Vec<String>>) -> Option<Seq<char>> {
    match values {
        Some(v) => append_values(url, key, texts(v@)),
        None => url,
    }
}

/// The subscription URL for a set of options: the endpoint's URL with one
/// `wantedCollections` pair per wanted collection, then one `wantedDids` pair
/// per wanted DID, then a `cursor` pair if a cursor is set, in that order.
pub open spec fn subscribe_url_text(o: JetstreamOptions) -> Option<Seq<char>> {
    let base = url_parse(endpoint_url(o.ws_url));
    let with_collections = append_optional_values(base, "wantedCollections"@, o.wanted_collections);
    let with_dids = append_optional_values(with_collections, "wantedDids"@, o.wanted_dids);
    match o.cursor {
        Some(c) => append_values(with_dids, "cursor"@, seq![c@]),
        None => with_dids,
    }
}

/// Parses a URL with `url::Url::parse` and gives back its serialization;
/// `None` where parsing fails.
#[verifier::external_body]
fn parse_url(text: &str) -> (r: Option<String>)
    ensures
        opt_text(r) == url_parse(text@),
{
    match url::Url::parse(text) {
        Ok(u) => Some(u.into()),
        Err(_) => None,
    }
}

/// Parses a URL with `url::Url::parse`, appends `key=value` to its query with
/// `query_pairs_mut().append_pair` (form-urlencoded), and gives back the
/// serialization; `None` where parsing fails.
#[verifier::external_body]
fn append_query_pair(url: &str, key: &str, value: &str) -> (r: Option<String>)
    ensures
        opt_text(r) == url_append_query_pair(url@, key@, value@),
{
    match url::Url::parse(url) {
        Ok(mut u) => {
            u.query_pairs_mut().append_pair(key, value);
            Some(u.into())
        },
        Err(_) => None,
    }
}

/// Appends `key=value` to the URL once for each value, in order.
fn append_all(url: Option<String>, key: &str, values: &Vec<String>) -> (r: Option<String>)
    ensures
        opt_text(r) == append_values(opt_text(url), key@, texts(values@)),
{
    let mut cur = url;
    let n = values.len();
    assert(texts(values@).take(0) =~= Seq::<Seq<char>>::empty());
    for i in 0..n
        invariant
            n == values@.len(),
            opt_text(cur) == append_values(opt_text(url), key@, texts(values@).take(i as int)),
    {
        let ghost prefix = texts(values@).take(i as int);
        assert(texts(values@).take(i + 1).drop_last() =~= prefix);
        assert(texts(values@).take(i + 1).last() == values@[i as int]@);
        cur = match cur {
            Some(u) => append_query_pair(u.as_str(), key, values[i].as_str()),
            None => None,
        };
    }
    assert(texts(values@).take(n as int) =~= texts(values@));
    cur
}

/// The least of two numbers.
pub open spec fn min_u64(a: u64, b: u64) -> u64 {
    if a <= b { a } else { b }
}

/// How long to wait before the next connection attempt: the current retry
/// interval plus a random part below it, capped at the maximum.
pub open spec fn backoff_delay(max_retry_interval: u64, interval: u64, random: u64) -> u64
    recommends
        1 <= interval <= 0x8000_0000_0000_0000,
{
    min_u64(max_retry_interval, (interval + random % interval) as u64)
}

/// The largest retry interval: the interval doubles after every failed
/// attempt and stays here once it would grow past it.
pub const MAX_RETRY_INTERVAL: u64 = 0x8000_0000_0000_0000;

/// The exponential backoff between connection attempts.
pub struct ReconnectBackoff {
    retry_interval: u64,
}

impl ReconnectBackoff {
    #[verifier::type_invariant]
    spec fn in_range(self) -> bool {
        1 <= self.retry_interval <= MAX_RETRY_INTERVAL
    }

    /// The current retry interval, in seconds.
    pub closed spec fn interval(self) -> u64 {
        self.retry_interval
    }

    /// A backoff at its start: a retry interval of one second.
    pub fn new() -> (b: Self)
        ensures
            b.interval() == 1,
    {
        ReconnectBackoff { retry_interval: 1 }
    }

    /// The current retry interval, in seconds; always at least 1.
    pub fn retry_interval(&self) -> (r: u64)
        ensures
            r == self.interval(),
            1 <= r <= MAX_RETRY_INTERVAL,
    {
        proof {
            use_type_invariant(self);
        }
        self.retry_interval
    }

    /// Back to a retry interval of one second, after a successful connection.
    pub fn reset(&mut self)
        ensures
            final(self).interval() == 1,
    {
        self.retry_interval = 1;
    }

    /// The wait before the next attempt, given a random number.
    pub fn delay(&self, max_retry_interval: u64, random: u64) -> (d: u64)
        ensures
            1 <= self.interval() <= MAX_RETRY_INTERVAL,
            d == backoff_delay(max_retry_interval, self.interval(), random),
    {
        proof {
            use_type_invariant(self);
        }
        let r = self.retry_interval;
        let jittered = r + random % r;
        if max_retry_interval <= jittered {
            max_retry_interval
        } else {
            jittered
        }
    }

    /// Doubles the retry interval, after a wait, holding it at
    /// `MAX_RETRY_INTERVAL` once doubling would pass it, so that reconnection
    /// goes on indefinitely (the wait itself is capped by the options).
    pub fn grow(&mut self)
        ensures
            final(self).interval() == (if old(self).interval() <= MAX_RETRY_INTERVAL / 2 {
                2 * old(self).interval()
            } else {
                MAX_RETRY_INTERVAL as int
            }),
    {
        proof {
            use_type_invariant(&*self);
        }
        if self.retry_interval <= MAX_RETRY_INTERVAL / 2 {
            self.retry_interval = self.retry_interval * 2;
        } else {
            self.retry_interval = MAX_RETRY_INTERVAL;
        }
    }
}

/// A random `u64` from `rand::random`; nothing is known of its value.
#[verifier::external_body]
fn random_u64() -> u64 {
    rand::random::<u64>()
}

/// A connection to jetstream with its options.
pub struct JetstreamConnection {
    pub opts: JetstreamOptions,
}

impl JetstreamConnection {
    /// A connection that will use the given options.
    pub fn new(opts: JetstreamOptions) -> (c: Self)
        ensures
            c.opts == opts,
    {
        JetstreamConnection { opts }
    }

    /// The URL to subscribe to: the endpoint with the wanted collections, the
    /// wanted DIDs and the cursor as query pairs; `None` where the endpoint is
    /// not a valid URL.
    pub fn subscribe_url(&self) -> (r: Option<String>)
        ensures
            opt_text(r) == subscribe_url_text(self.opts),
    {
        let base_text = self.opts.ws_url.to_string();
        let base = parse_url(base_text.as_str());
        let with_collections = match &self.opts.wanted_collections {
            Some(cols) => append_all(base, "wantedCollections", cols),
            None => base,
        };
        let with_dids = match &self.opts.wanted_dids {
            Some(dids) => append_all(with_collections, "wantedDids", dids),
            None => with_collections,
        };
        match &self.opts.cursor {
            Some(cursor) => {
                let r = match with_dids {
                    Some(u) => append_query_pair(u.as_str(), "cursor", cursor.as_str()),
                    None => None,
                };
                proof {
                    let vals = seq![cursor@];
                    reveal_with_fuel(append_values, 2);
                    assert(vals.drop_last() =~= Seq::<Seq<char>>::empty());
                }
                r
            },
            None => with_dids,
        }
    }

    /// The wait before the next connection attempt: a random point between
    /// the retry interval and twice it, capped at the maximum retry interval.
    pub fn next_delay(&self, backoff: &ReconnectBackoff) -> (d: u64)
        ensures
            d <= self.opts.max_retry_interval_seconds,
            d >= min_u64(self.opts.max_retry_interval_seconds, backoff.interval()),
            d < 2 * backoff.interval(),
    {
        let random = random_u64();
        let d = backoff.delay(self.opts.max_retry_interval_seconds, random);
        proof {
            lemma_backoff_delay_bounds(self.opts.max_retry_interval_seconds, backoff.interval(), random);
        }
        d
    }
}

/// Every wait lies between the retry interval (or the maximum, if smaller)
/// and just under twice the retry interval, and never exceeds the maximum.
pub proof fn lemma_backoff_delay_bounds(max_retry_interval: u64, interval: u64, random: u64)
    requires
        1 <= interval <= MAX_RETRY_INTERVAL,
    ensures
        backoff_delay(max_retry_interval, interval, random) <= max_retry_interval,
        backoff_delay(max_retry_interval, interval, random) >= min_u64(max_retry_interval, interval),
        backoff_delay(max_retry_interval, interval, random) < 2 * interval,
{
    assert(random % interval < interval);
}


/// Appending a list of pairs appends nothing for an empty list, and for a
/// list with one more value appends that value's pair after the others: one
/// pair per value, in order, each a real `append_pair`.
pub proof fn lemma_append_values_one_pair_per_value(
    url: Option<Seq<char>>,
    key: Seq<char>,
    values: Seq<Seq<char>>,
    value: Seq<char>,
)
    ensures
        append_values(url, key, Seq::<Seq<char>>::empty()) == url,
        append_values(url, key, values.push(value)) == (match append_values(url, key, values) {
            Some(u) => url_append_query_pair(u, key, value),
            None => None::<Seq<char>>,
        }),
        append_values(url, key, seq![value]) == (match url {
            Some(u) => url_append_query_pair(u, key, value),
            None => None::<Seq<char>>,
        }),
{
    assert(values.push(value).drop_last() =~= values);
    assert(seq![value].drop_last() =~= Seq::<Seq<char>>::empty());
}

/// With no filters and no cursor, the subscription URL is the endpoint's URL
/// as `url` parses it.
pub proof fn lemma_subscribe_url_bare(o: JetstreamOptions)
    requires
        o.wanted_collections is None,
        o.wanted_dids is None,
        o.cursor is None,
    ensures
        subscribe_url_text(o) == url_parse(endpoint_url(o.ws_url)),
{
}

/// The wanted collections are sent whatever else is set: without wanted DIDs
/// and a cursor, the URL is the one without collections followed by one
/// `wantedCollections` pair per collection, in order.
pub proof fn lemma_subscribe_url_collections(o: JetstreamOptions, cols: Vec<String>)
    requires
        o.wanted_collections == Some(cols),
        o.wanted_dids is None,
        o.cursor is None,
    ensures
        subscribe_url_text(o) == append_values(
            subscribe_url_text(JetstreamOptions { wanted_collections: None, ..o }),
            "wantedCollections"@,
            texts(cols@),
        ),
        subscribe_url_text(JetstreamOptions { wanted_collections: None, ..o }) == url_parse(
            endpoint_url(o.ws_url),
        ),
{
}

/// The wanted DIDs are sent whether or not collections are set: without a
/// cursor, the URL is the one without DIDs (with the same collections)
/// followed by one `wantedDids` pair per DID, in order.
pub proof fn lemma_subscribe_url_dids(o: JetstreamOptions, dids: Vec<String>)
    requires
        o.wanted_dids == Some(dids),
        o.cursor is None,
    ensures
        subscribe_url_text(o) == append_values(
            subscribe_url_text(JetstreamOptions { wanted_dids: None, ..o }),
            "wantedDids"@,
            texts(dids@),
        ),
{
}

/// A cursor is sent whatever filters are set: the URL is the one built for
/// the same options without a cursor, with the one pair `cursor=c` appended.
pub proof fn lemma_subscribe_url_cursor(o: JetstreamOptions, c: String)
    requires
        o.cursor == Some(c),
    ensures
        subscribe_url_text(o) == (match subscribe_url_text(JetstreamOptions { cursor: None, ..o }) {
            Some(u) => url_append_query_pair(u, "cursor"@, c@),
            None => None::<Seq<char>>,
        }),
{
    lemma_append_values_one_pair_per_value(
        subscribe_url_text(JetstreamOptions { cursor: None, ..o }),
        "cursor"@,
        Seq::<Seq<char>>::empty(),
        c@,
    );
}

} // verus!
