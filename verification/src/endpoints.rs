use vstd::prelude::*;
use vstd::string::*;
use crate::text::{int_decimal, push_decimal_i8};

verus! {

/// The regions in which the public jetstream instances run.
#[derive(Debug, Clone, Copy, PartialEq, Eq, Hash, Structural)]
pub enum JetstreamEndpointLocations {
    UsEast,
    UsWest,
}

/// The host label of a region.
pub open spec fn location_label(loc: JetstreamEndpointLocations) -> Seq<char> {
    match loc {
        JetstreamEndpointLocations::UsEast => "us-east"@,
        JetstreamEndpointLocations::UsWest => "us-west"@,
    }
}

impl JetstreamEndpointLocations {
    /// The host label of the region: `us-east` or `us-west`.
    pub fn to_string(&self) -> (s: String)
        ensures
            s@ == location_label(*self),
    {
        match self {
            JetstreamEndpointLocations::UsEast => String::from_str("us-east"),
            JetstreamEndpointLocations::UsWest => String::from_str("us-west"),
        }
    }
}

/// A jetstream websocket endpoint: one of the public instances, given by
/// region and instance number, or a custom URL.
#[derive(Debug, Clone, PartialEq, Eq, Hash)]
pub enum JetstreamEndpoints {
    Public(JetstreamEndpointLocations, i8),
    Custom(String),
}

/// The URL of an endpoint, as text.
pub open spec fn endpoint_url(e: JetstreamEndpoints) -> Seq<char> {
    match e {
        JetstreamEndpoints::Public(loc, id) => "wss://jetstream"@ + int_decimal(id as int) + "."@
            + location_label(loc) + ".bsky.network/subscribe"@,
        JetstreamEndpoints::Custom(url) => url@,
    }
}

impl JetstreamEndpoints {
    /// The endpoint's URL: `wss://jetstream{id}.{region}.bsky.network/subscribe`
    /// for a public instance, the URL itself for a custom one.
    pub fn to_string(&self) -> (s: String)
        ensures
            s@ == endpoint_url(*self),
    {
        match self {
            JetstreamEndpoints::Public(location, id) => {
                let mut s = String::from_str("wss://jetstream");
                push_decimal_i8(&mut s, *id);
                s.append(".");
                let label = location.to_string();
                s.append(label.as_str());
                s.append(".bsky.network/subscribe");
                s
            },
            JetstreamEndpoints::Custom(url) => url.clone(),
        }
    }
}

impl Default for JetstreamEndpoints {
    /// The first public instance in us-east.
    fn default() -> (e: Self)
        ensures
            e == JetstreamEndpoints::Public(JetstreamEndpointLocations::UsEast, 1),
    {
        JetstreamEndpoints::Public(JetstreamEndpointLocations::UsEast, 1)
    }
}

} // verus!
