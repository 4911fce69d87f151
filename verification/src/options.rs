use vstd::prelude::*;
use crate::endpoints::{JetstreamEndpoints, JetstreamEndpointLocations};

verus! {

/// How to connect to jetstream and what to subscribe to.
#[derive(Debug, Clone)]
pub struct JetstreamOptions {
    pub ws_url: JetstreamEndpoints,
    pub max_retry_interval_seconds: u64,
    pub connection_success_time_seconds: u64,
    pub bound: usize,
    pub timeout_time_sec: usize,
    pub compress: bool,
    pub wanted_collections: Option<Vec<String>>,
    pub wanted_dids: Option<Vec<String>>,
    pub cursor: Option<String>,
}

/// The options every field of which holds its default.
pub open spec fn is_default_options(o: JetstreamOptions) -> bool {
    &&& o.ws_url == JetstreamEndpoints::Public(JetstreamEndpointLocations::UsEast, 1)
    &&& o.max_retry_interval_seconds == 120
    &&& o.connection_success_time_seconds == 60
    &&& o.bound == 65535
    &&& o.timeout_time_sec == 40
    &&& o.compress
    &&& o.wanted_collections is None
    &&& o.wanted_dids is None
    &&& o.cursor is None
}

impl Default for JetstreamOptions {
    /// The public us-east instance, retries backing off up to 120 s, a queue
    /// bound of 65535, a 40 s read timeout, compression on, no filters and
    /// no cursor.
    fn default() -> (o: Self)
        ensures
            is_default_options(o),
    {
        JetstreamOptions {
            ws_url: JetstreamEndpoints::default(),
            max_retry_interval_seconds: 120,
            connection_success_time_seconds: 60,
            bound: 65535,
            timeout_time_sec: 40,
            compress: true,
            wanted_collections: None,
            wanted_dids: None,
            cursor: None,
        }
    }
}

} // verus!
