use control_plane_worker::http::{
    copy_ws_headers, cors_header, ll_playlist_response, master_playlist_response,
    preflight_headers, shard_full, simple_playlist_response, Header, WsHandshake,
};

fn pairs(headers: &[Header]) -> Vec<(&str, &str)> {
    headers
        .iter()
        .map(|h| (h.name.as_str(), h.value.as_str()))
        .collect()
}

fn no_handshake() -> WsHandshake {
    WsHandshake {
        upgrade: None,
        connection: None,
        key: None,
        version: None,
        extensions: None,
        protocol: None,
    }
}

#[test]
fn cors_header_allows_any_origin() {
    let h = cors_header();
    assert_eq!(h.name, "Access-Control-Allow-Origin");
    assert_eq!(h.value, "*");
}

#[test]
fn preflight_allows_get_from_anywhere_for_a_day() {
    assert_eq!(
        pairs(&preflight_headers()),
        vec![
            ("Access-Control-Allow-Origin", "*"),
            ("Access-Control-Allow-Methods", "GET, OPTIONS"),
            ("Access-Control-Allow-Headers", "*"),
            ("Access-Control-Max-Age", "86400"),
        ]
    );
}

#[test]
fn low_latency_playlists_are_not_cached() {
    let r = ll_playlist_response("#EXTM3U\n", 17);
    assert_eq!(r.status, 200);
    assert_eq!(r.body, "#EXTM3U\n");
    assert_eq!(
        pairs(&r.headers),
        vec![
            ("Content-Type", "application/vnd.apple.mpegurl"),
            ("Cache-Control", "no-store"),
            ("Access-Control-Allow-Origin", "*"),
            ("X-Waiter-Count", "17"),
        ]
    );
}

#[test]
fn simple_playlists_are_cached_for_a_second() {
    let r = simple_playlist_response("#EXTM3U\n", 4_294_967_295);
    assert_eq!(r.status, 200);
    assert_eq!(r.body, "#EXTM3U\n");
    assert_eq!(
        pairs(&r.headers),
        vec![
            ("Content-Type", "application/vnd.apple.mpegurl"),
            ("Cache-Control", "public, max-age=1, stale-while-revalidate=1"),
            ("Access-Control-Allow-Origin", "*"),
            ("X-Viewer-Count", "4294967295"),
        ]
    );
}

#[test]
fn master_playlists_are_not_cached() {
    let r = master_playlist_response("#EXTM3U\n");
    assert_eq!(r.status, 200);
    assert_eq!(r.body, "#EXTM3U\n");
    assert_eq!(
        pairs(&r.headers),
        vec![
            ("Content-Type", "application/vnd.apple.mpegurl"),
            ("Cache-Control", "no-store"),
            ("Access-Control-Allow-Origin", "*"),
        ]
    );
}

#[test]
fn a_full_shard_says_so_without_headers() {
    let r = shard_full();
    assert_eq!((r.status, r.body.as_str()), (503, "Shard full"));
    assert!(r.headers.is_empty());
}

#[test]
fn handshake_fields_are_copied() {
    let h = WsHandshake {
        upgrade: Some("WebSocket".to_string()),
        connection: Some("keep-alive, Upgrade".to_string()),
        key: Some("dGhlIHNhbXBsZSBub25jZQ==".to_string()),
        version: Some("13".to_string()),
        extensions: Some("permessage-deflate".to_string()),
        protocol: Some("chat".to_string()),
    };
    assert_eq!(
        pairs(&copy_ws_headers(&h, "abc:720p", true)),
        vec![
            ("Upgrade", "WebSocket"),
            ("Connection", "keep-alive, Upgrade"),
            ("Sec-WebSocket-Key", "dGhlIHNhbXBsZSBub25jZQ=="),
            ("Sec-WebSocket-Version", "13"),
            ("Sec-WebSocket-Extensions", "permessage-deflate"),
            ("Sec-WebSocket-Protocol", "chat"),
            ("X-Stream-Key", "abc:720p"),
            ("X-Viewer-WS", "1"),
        ]
    );
}

#[test]
fn missing_handshake_fields_get_their_standard_values() {
    assert_eq!(
        pairs(&copy_ws_headers(&no_handshake(), "abc", false)),
        vec![
            ("Upgrade", "websocket"),
            ("Connection", "Upgrade"),
            ("X-Stream-Key", "abc"),
        ]
    );
    let mut h = no_handshake();
    h.connection = Some(String::new());
    h.version = Some("13".to_string());
    assert_eq!(
        pairs(&copy_ws_headers(&h, "abc", true)),
        vec![
            ("Connection", ""),
            ("Sec-WebSocket-Version", "13"),
            ("Upgrade", "websocket"),
            ("X-Stream-Key", "abc"),
            ("X-Viewer-WS", "1"),
        ]
    );
}

#[test]
fn every_playlist_is_open_to_all_sites() {
    for r in [
        ll_playlist_response("p", 1),
        simple_playlist_response("p", 1),
        master_playlist_response("p"),
    ] {
        assert!(pairs(&r.headers).contains(&("Access-Control-Allow-Origin", "*")));
    }
}
