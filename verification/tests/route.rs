use control_plane_worker::http::Header;
use control_plane_worker::route::{
    build_ws_url, normalize_origin_base, origin_route_from_headers, same_route,
    set_origin_route_headers, url_encode, OriginRoute, RouteError, RouteHeaders,
};

fn route(base: &str, version: u64) -> OriginRoute {
    OriginRoute {
        origin_base_url: base.to_string(),
        node_id: "node".to_string(),
        stream_session_id: "session".to_string(),
        route_version: version,
    }
}

fn headers(version: &str) -> RouteHeaders {
    RouteHeaders {
        origin_base_url: Some("https://origin.example//".to_string()),
        node_id: Some("node".to_string()),
        stream_session_id: Some("session".to_string()),
        route_version: Some(version.to_string()),
    }
}

#[test]
fn base_addresses_are_normalized() {
    assert_eq!(normalize_origin_base("https://o.example///"), "https://o.example");
    assert_eq!(normalize_origin_base("https://o.example/a"), "https://o.example/a");
    assert_eq!(normalize_origin_base("//"), "");
    assert_eq!(normalize_origin_base(""), "");
}

#[test]
fn routes_are_read_from_headers() {
    assert_eq!(
        origin_route_from_headers(headers("7")),
        Ok(route("https://origin.example", 7))
    );
    assert_eq!(
        origin_route_from_headers(headers("18446744073709551615")),
        Ok(route("https://origin.example", u64::MAX))
    );
}

#[test]
fn the_first_missing_header_is_the_error() {
    let mut h = headers("7");
    h.route_version = None;
    assert_eq!(
        origin_route_from_headers(h),
        Err(RouteError::MissingRouteVersion)
    );
    let mut h = headers("x");
    h.stream_session_id = None;
    h.route_version = None;
    assert_eq!(
        origin_route_from_headers(h),
        Err(RouteError::MissingStreamSessionId)
    );
    let mut h = headers("x");
    h.node_id = None;
    h.stream_session_id = None;
    assert_eq!(origin_route_from_headers(h), Err(RouteError::MissingNodeId));
    let mut h = headers("x");
    h.origin_base_url = None;
    h.node_id = None;
    assert_eq!(origin_route_from_headers(h), Err(RouteError::MissingBaseUrl));
}

#[test]
fn a_version_is_a_number() {
    for v in ["", "x", "-1", "1.5", " 1", "18446744073709551616"] {
        assert_eq!(
            origin_route_from_headers(headers(v)),
            Err(RouteError::InvalidRouteVersion)
        );
    }
}

#[test]
fn headers_carry_a_route() {
    let r = route("https://origin.example", u64::MAX);
    let mut list: Vec<Header> = vec![Header {
        name: "X-Stream-Key".to_string(),
        value: "id".to_string(),
    }];
    set_origin_route_headers(&mut list, &r);
    let pairs: Vec<(&str, &str)> = list
        .iter()
        .map(|h| (h.name.as_str(), h.value.as_str()))
        .collect();
    assert_eq!(
        pairs,
        vec![
            ("X-Stream-Key", "id"),
            ("X-Origin-Base-Url", "https://origin.example"),
            ("X-Origin-Node-Id", "node"),
            ("X-Origin-Stream-Session-Id", "session"),
            ("X-Origin-Route-Version", "18446744073709551615"),
        ]
    );
    let read = origin_route_from_headers(RouteHeaders {
        origin_base_url: Some(list[1].value.clone()),
        node_id: Some(list[2].value.clone()),
        stream_session_id: Some(list[3].value.clone()),
        route_version: Some(list[4].value.clone()),
    });
    assert_eq!(read, Ok(r));
}

#[test]
fn routes_are_compared_in_every_field() {
    let r = route("https://o.example", 1);
    assert!(same_route(&r, &r.clone()));
    assert!(!same_route(&r, &route("https://o.example", 2)));
    assert!(!same_route(&r, &route("https://p.example", 1)));
    let mut other = r.clone();
    other.node_id = "n".to_string();
    assert!(!same_route(&r, &other));
    let mut other = r.clone();
    other.stream_session_id = "s".to_string();
    assert!(!same_route(&r, &other));
}

#[test]
fn keys_are_encoded_into_one_segment() {
    assert_eq!(url_encode("id:720p"), "id%3A720p");
    assert_eq!(url_encode("a/b:c/"), "a%2Fb%3Ac%2F");
    assert_eq!(url_encode("100% ?&"), "100% ?&");
    assert_eq!(url_encode(""), "");
}

#[test]
fn the_feed_has_an_address() {
    let secure = route("https://origin.example", 1);
    assert_eq!(
        build_ws_url("id", &secure, None).unwrap(),
        "wss://origin.example/internal/hls-ws/id"
    );
    assert_eq!(
        build_ws_url("id:720p", &secure, Some("")).unwrap(),
        "wss://origin.example/internal/hls-ws/id%3A720p"
    );
    assert_eq!(
        build_ws_url("id", &secure, Some("a/b:c")).unwrap(),
        "wss://origin.example/internal/hls-ws/id?origin_secret=a%2Fb%3Ac"
    );
    assert_eq!(
        build_ws_url("id", &route("http://10.0.0.1:8080", 1), None).unwrap(),
        "ws://10.0.0.1:8080/internal/hls-ws/id"
    );
    assert_eq!(
        build_ws_url("id", &route("ftp://x", 1), None).unwrap(),
        "ftp://x/internal/hls-ws/id"
    );
    assert_eq!(
        build_ws_url("id", &route("http://a/http://b", 1), None).unwrap(),
        "ws://a/ws://b/internal/hls-ws/id"
    );
}

#[test]
fn a_feed_needs_a_stream() {
    assert_eq!(
        build_ws_url("", &route("https://origin.example", 1), None),
        Err(RouteError::StreamKeyNotSet)
    );
}

#[test]
fn errors_have_their_wording() {
    for (e, text) in [
        (RouteError::MissingStreamKey, "missing X-Stream-Key"),
        (RouteError::MissingBaseUrl, "missing origin base url"),
        (RouteError::MissingNodeId, "missing origin node id"),
        (RouteError::MissingStreamSessionId, "missing origin stream session id"),
        (RouteError::MissingRouteVersion, "missing origin route version"),
        (RouteError::InvalidRouteVersion, "invalid origin route version"),
        (RouteError::Stale, "stale origin route"),
        (RouteError::Conflicting, "conflicting origin route"),
        (RouteError::RouteNotSet, "origin route not set"),
        (RouteError::StreamKeyNotSet, "stream_key not set"),
    ] {
        assert_eq!(e.message(), text);
    }
}
