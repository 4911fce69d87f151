use rocketman::connection::{JetstreamConnection, ReconnectBackoff};
use rocketman::endpoints::{JetstreamEndpointLocations, JetstreamEndpoints};
use rocketman::options::JetstreamOptions;

#[test]
fn default_endpoint_url() {
    assert_eq!(
        JetstreamEndpoints::default().to_string(),
        "wss://jetstream1.us-east.bsky.network/subscribe"
    );
}

#[test]
fn public_endpoint_urls_render_the_instance_number() {
    let west = JetstreamEndpoints::Public(JetstreamEndpointLocations::UsWest, 2);
    assert_eq!(west.to_string(), "wss://jetstream2.us-west.bsky.network/subscribe");
    let big = JetstreamEndpoints::Public(JetstreamEndpointLocations::UsEast, 127);
    assert_eq!(big.to_string(), "wss://jetstream127.us-east.bsky.network/subscribe");
    let neg = JetstreamEndpoints::Public(JetstreamEndpointLocations::UsEast, -128);
    assert_eq!(neg.to_string(), "wss://jetstream-128.us-east.bsky.network/subscribe");
    let zero = JetstreamEndpoints::Public(JetstreamEndpointLocations::UsWest, 0);
    assert_eq!(zero.to_string(), "wss://jetstream0.us-west.bsky.network/subscribe");
    let ten = JetstreamEndpoints::Public(JetstreamEndpointLocations::UsWest, -10);
    assert_eq!(ten.to_string(), "wss://jetstream-10.us-west.bsky.network/subscribe");
}

#[test]
fn location_labels() {
    assert_eq!(JetstreamEndpointLocations::UsEast.to_string(), "us-east");
    assert_eq!(JetstreamEndpointLocations::UsWest.to_string(), "us-west");
}

#[test]
fn custom_endpoint_is_its_url() {
    let c = JetstreamEndpoints::Custom("ws://localhost:6008/subscribe".to_string());
    assert_eq!(c.to_string(), "ws://localhost:6008/subscribe");
}

#[test]
fn default_options() {
    let o = JetstreamOptions::default();
    assert_eq!(o.ws_url, JetstreamEndpoints::default());
    assert_eq!(o.max_retry_interval_seconds, 120);
    assert_eq!(o.connection_success_time_seconds, 60);
    assert_eq!(o.bound, 65535);
    assert_eq!(o.timeout_time_sec, 40);
    assert!(o.compress);
    assert!(o.wanted_collections.is_none());
    assert!(o.wanted_dids.is_none());
    assert!(o.cursor.is_none());
}

#[test]
fn subscribe_url_without_filters() {
    let conn = JetstreamConnection::new(JetstreamOptions::default());
    assert_eq!(
        conn.subscribe_url().as_deref(),
        Some("wss://jetstream1.us-east.bsky.network/subscribe")
    );
}

#[test]
fn subscribe_url_with_filters_in_order() {
    let mut opts = JetstreamOptions::default();
    opts.wanted_collections = Some(vec![
        "fm.teal.alpha.feed.play".to_string(),
        "fm.teal.alpha.actor.profile".to_string(),
    ]);
    opts.wanted_dids = Some(vec!["did:plc:abc".to_string()]);
    opts.cursor = Some("1725000000000000".to_string());
    let conn = JetstreamConnection::new(opts);
    assert_eq!(
        conn.subscribe_url().as_deref(),
        Some(
            "wss://jetstream1.us-east.bsky.network/subscribe?wantedCollections=fm.teal.alpha.feed.play&wantedCollections=fm.teal.alpha.actor.profile&wantedDids=did%3Aplc%3Aabc&cursor=1725000000000000"
        )
    );
}

#[test]
fn subscribe_url_of_an_invalid_endpoint() {
    let mut opts = JetstreamOptions::default();
    opts.ws_url = JetstreamEndpoints::Custom("not a url".to_string());
    let conn = JetstreamConnection::new(opts);
    assert_eq!(conn.subscribe_url(), None);
}

#[test]
fn backoff_starts_at_one_and_doubles() {
    let mut b = ReconnectBackoff::new();
    assert_eq!(b.retry_interval(), 1);
    b.grow();
    b.grow();
    b.grow();
    assert_eq!(b.retry_interval(), 8);
    b.reset();
    assert_eq!(b.retry_interval(), 1);
}

#[test]
fn backoff_delay_values() {
    let mut b = ReconnectBackoff::new();
    for _ in 0..3 {
        b.grow();
    }
    // interval 8: 8 + random % 8, capped
    assert_eq!(b.delay(120, 0), 8);
    assert_eq!(b.delay(120, 13), 13);
    assert_eq!(b.delay(120, 15), 15);
    assert_eq!(b.delay(10, 15), 10);
    assert_eq!(b.delay(5, 0), 5);
}

#[test]
fn next_delay_stays_in_bounds() {
    let conn = JetstreamConnection::new(JetstreamOptions::default());
    let mut b = ReconnectBackoff::new();
    for _ in 0..10 {
        let d = conn.next_delay(&b);
        let r = b.retry_interval();
        assert!(d <= 120);
        assert!(d >= r.min(120));
        assert!(d < 2 * r);
        b.grow();
    }
}

#[test]
fn backoff_saturates_and_keeps_reconnecting() {
    let conn = JetstreamConnection::new(JetstreamOptions::default());
    let mut b = ReconnectBackoff::new();
    for _ in 0..200 {
        b.grow();
        let d = conn.next_delay(&b);
        assert!(d <= 120);
    }
    assert_eq!(b.retry_interval(), rocketman::connection::MAX_RETRY_INTERVAL);
    assert_eq!(b.delay(120, 12345), 120);
}
