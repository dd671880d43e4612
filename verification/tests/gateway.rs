use control_plane_worker::auth::{JwtAuthError, PlaybackClaims};
use control_plane_worker::fetch::{classify_fetch, Action, FetchKind};
use control_plane_worker::gateway::{
    authorize_route, open_path, plan_dispatch, Dispatch, Outcome, ShardReply, Target,
};
use control_plane_worker::http::{Header, WsHandshake};
use control_plane_worker::llhls::LlHlsInner;
use control_plane_worker::origin::OriginLink;
use control_plane_worker::path::{ParsedRequest, PlaylistType};
use control_plane_worker::protocol::HlsQuery;
use control_plane_worker::route::{OriginRoute, RouteHeaders};
use control_plane_worker::simple::{is_viewer_fetch, SimpleInner};

fn claims() -> PlaybackClaims {
    PlaybackClaims {
        stream_id: "id".to_string(),
        stream_session_id: "session".to_string(),
        node_id: "node".to_string(),
        origin_base_url: "https://origin.example/".to_string(),
        route_version: 3,
        scope: vec!["hls:playlist".to_string(), "hls:master".to_string()],
    }
}

fn route() -> OriginRoute {
    OriginRoute {
        origin_base_url: "https://origin.example".to_string(),
        node_id: "node".to_string(),
        stream_session_id: "session".to_string(),
        route_version: 3,
    }
}

fn handshake() -> WsHandshake {
    WsHandshake {
        upgrade: None,
        connection: None,
        key: Some("k".to_string()),
        version: None,
        extensions: None,
        protocol: None,
    }
}

fn parsed(file: &str) -> ParsedRequest {
    open_path(&format!("/hls/t/tok/live/id/720p/{file}")).unwrap()
}

fn dispatch(file: &str, max_shards: u32) -> Dispatch {
    let p = parsed(file);
    let r = authorize_route(&p, Ok(Some(claims()))).unwrap();
    plan_dispatch(
        p,
        r,
        Some("AMS".to_string()),
        Some("203.0.113.7".to_string()),
        max_shards,
    )
    .unwrap()
}

fn value(headers: &[Header], name: &str) -> Option<String> {
    headers
        .iter()
        .rev()
        .find(|h| h.name == name)
        .map(|h| h.value.clone())
}

fn route_headers(t: &Target) -> RouteHeaders {
    RouteHeaders {
        origin_base_url: value(&t.headers, "X-Origin-Base-Url"),
        node_id: value(&t.headers, "X-Origin-Node-Id"),
        stream_session_id: value(&t.headers, "X-Origin-Stream-Session-Id"),
        route_version: value(&t.headers, "X-Origin-Route-Version"),
    }
}

fn answered(outcome: Outcome) -> (u16, String) {
    match outcome {
        Outcome::Answer(reply) => {
            assert_eq!(reply.headers.len(), 1);
            assert_eq!(reply.headers[0].name, "Access-Control-Allow-Origin");
            (reply.status, reply.body)
        }
        other => panic!("{other:?}"),
    }
}

#[test]
fn unknown_paths_and_media_are_refused() {
    let e = open_path("/nothing").unwrap_err();
    assert_eq!((e.status, e.body.as_str()), (404, "Not found"));
    let e = open_path("/hls/t/tok/live/id").unwrap_err();
    assert_eq!(
        (e.status, e.body.as_str()),
        (404, "Media objects are served by CDN, not this Worker")
    );
    assert_eq!(e.headers.len(), 1);
    assert!(open_path("/hls/t/tok/live/id/master.m3u8").is_ok());
}

#[test]
fn a_permitted_request_gets_the_route_of_its_token() {
    assert_eq!(
        authorize_route(&parsed("playlist.m3u8"), Ok(Some(claims()))),
        Ok(route())
    );
}

#[test]
fn other_requests_are_refused() {
    let p = parsed("playlist.m3u8");
    let status = |c| authorize_route(&p, c).unwrap_err().status;
    assert_eq!(status(Err(JwtAuthError::MissingConfig)), 500);
    assert_eq!(status(Err(JwtAuthError::Unauthorized)), 401);
    assert_eq!(status(Err(JwtAuthError::Forbidden)), 403);
    assert_eq!(status(Ok(None)), 401);
    let mut c = claims();
    c.stream_id = "other".to_string();
    assert_eq!(status(Ok(Some(c))), 403);
    let mut c = claims();
    c.scope.remove(0);
    assert_eq!(status(Ok(Some(c))), 403);
}

#[test]
fn a_request_starts_at_the_shard_of_its_address() {
    let d = dispatch("playlist.m3u8", 250);
    assert_eq!((d.start_shard, d.attempt, d.max_shards), (182, 0, 250));
    assert_eq!(d.target(&handshake()).object, "id:720p:ll:AMS:182");
}

#[test]
fn an_unknown_place_and_address_have_stand_ins() {
    let d = plan_dispatch(parsed("simple.m3u8"), route(), None, None, 250).unwrap();
    assert_eq!(d.start_shard, 161);
    assert_eq!(d.target(&handshake()).object, "id:720p:simple:XX:161");
}

#[test]
fn media_requests_are_not_dispatched() {
    let p = ParsedRequest {
        token: String::new(),
        stream_id: "id".to_string(),
        stream_key: "id".to_string(),
        playlist_type: PlaylistType::Media,
    };
    let e = plan_dispatch(p, route(), None, None, 1).unwrap_err();
    assert_eq!((e.status, e.body.as_str()), (404, "Unknown playlist type"));
}

#[test]
fn targets_are_chosen_by_file() {
    for (file, binding, object) in [
        ("master.m3u8", "LL_HLS_DO", "id:720p:ll:AMS:182"),
        ("playlist.m3u8", "LL_HLS_DO", "id:720p:ll:AMS:182"),
        ("playlist-ws", "LL_HLS_DO", "id:720p:ll:AMS:182"),
        ("simple.m3u8", "SIMPLE_DO", "id:720p:simple:AMS:182"),
        ("simple-ws", "SIMPLE_DO", "id:720p:simple:AMS:182"),
    ] {
        let t = dispatch(file, 250).target(&handshake());
        assert_eq!((t.binding, t.object.as_str()), (binding, object));
    }
}

#[test]
fn forwarded_headers_depend_on_the_file() {
    let names = |file| -> Vec<String> {
        let t = dispatch(file, 250).target(&handshake());
        t.headers.into_iter().map(|h| h.name).collect()
    };
    let route_names = [
        "X-Origin-Base-Url",
        "X-Origin-Node-Id",
        "X-Origin-Stream-Session-Id",
        "X-Origin-Route-Version",
    ];
    for file in ["playlist.m3u8", "simple.m3u8"] {
        assert_eq!(names(file)[0], "X-Stream-Key");
        assert_eq!(names(file)[1..], route_names);
    }
    assert_eq!(names("master.m3u8")[..2], ["X-Stream-Key", "X-Playlist-Type"]);
    assert_eq!(names("master.m3u8")[2..], route_names);
    for file in ["playlist-ws", "simple-ws"] {
        assert_eq!(
            names(file)[..5],
            ["Sec-WebSocket-Key", "Upgrade", "Connection", "X-Stream-Key", "X-Viewer-WS"]
        );
        assert_eq!(names(file)[5..], route_names);
    }
}

#[test]
fn a_full_shard_passes_the_request_on_until_all_were_asked() {
    let mut d = dispatch("playlist.m3u8", 4);
    let mut asked: Vec<String> = Vec::new();
    loop {
        asked.push(d.target(&handshake()).object);
        match d.on_reply(ShardReply::Status(503)) {
            Outcome::Retry => {}
            outcome => {
                assert_eq!(answered(outcome), (503, "All LL-HLS shards full".to_string()));
                break;
            }
        }
    }
    assert_eq!(asked[0], "id:720p:ll:AMS:0");
    asked.sort();
    asked.dedup();
    assert_eq!(asked.len(), 4);
}

#[test]
fn each_kind_of_request_has_its_own_wording() {
    for (file, full, failed) in [
        ("playlist.m3u8", "All LL-HLS shards full", "LlHlsDO error: why"),
        ("simple.m3u8", "All Simple shards full", "SimpleDO error: why"),
        ("master.m3u8", "All shards full", "LlHlsDO master error: why"),
    ] {
        assert_eq!(
            answered(dispatch(file, 1).on_reply(ShardReply::Status(503))),
            (503, full.to_string())
        );
        assert_eq!(
            answered(dispatch(file, 9).on_reply(ShardReply::Failed("why".to_string()))),
            (502, failed.to_string())
        );
    }
}

#[test]
fn other_responses_are_relayed() {
    for status in [200, 404, 500, 502, 504] {
        let mut d = dispatch("playlist.m3u8", 4);
        assert_eq!(d.on_reply(ShardReply::Status(status)), Outcome::RelayWithCors);
        assert_eq!(d.attempt, 0);
    }
}

#[test]
fn viewers_stay_with_their_shard() {
    for file in ["playlist-ws", "simple-ws"] {
        for status in [101, 503] {
            let mut d = dispatch(file, 4);
            assert_eq!(d.on_reply(ShardReply::Status(status)), Outcome::Relay);
            assert_eq!(d.attempt, 0);
        }
        let mut d = dispatch(file, 4);
        assert_eq!(d.on_reply(ShardReply::Failed("x".to_string())), Outcome::Fail);
    }
}

#[test]
fn a_new_object_opens_the_feed_of_the_token() {
    for (file, kind) in [
        ("master.m3u8", FetchKind::Master),
        ("playlist.m3u8", FetchKind::Playlist),
        ("playlist-ws", FetchKind::Viewer),
    ] {
        let t = dispatch(file, 4).target(&handshake());
        let marked = classify_fetch(
            value(&t.headers, "X-Playlist-Type").as_deref(),
            value(&t.headers, "X-Viewer-WS").as_deref(),
        );
        assert_eq!(marked, kind);
        let mut object: LlHlsInner<u32, u32> = LlHlsInner::default();
        let action = object.fetch(
            kind,
            value(&t.headers, "X-Stream-Key"),
            route_headers(&t),
            true,
            &HlsQuery::default(),
            Some("s"),
        );
        assert_eq!(
            action,
            Action::Store {
                key: "id:720p".to_string(),
                answers: Vec::new(),
            }
        );
        assert_eq!(
            object.connect_origin(Some("s")),
            Ok(Some(OriginLink {
                url: "wss://origin.example/internal/hls-ws/id%3A720p?origin_secret=s".to_string(),
                route: route(),
            }))
        );
    }
}

#[test]
fn a_new_simple_object_opens_the_feed_of_the_token() {
    for (file, viewer) in [("simple.m3u8", false), ("simple-ws", true)] {
        let t = dispatch(file, 4).target(&handshake());
        let marked = is_viewer_fetch(value(&t.headers, "X-Viewer-WS").as_deref());
        assert_eq!(marked, viewer);
        let mut object: SimpleInner<u32, u32> = SimpleInner::default();
        let action = object.fetch(
            viewer,
            value(&t.headers, "X-Stream-Key"),
            route_headers(&t),
            None,
        );
        assert_eq!(
            action,
            Action::Store {
                key: "id:720p".to_string(),
                answers: Vec::new(),
            }
        );
        let link = object.connect_origin(None).unwrap().unwrap();
        assert_eq!(link.url, "wss://origin.example/internal/hls-ws/id%3A720p");
        assert_eq!(link.route, route());
    }
}

#[test]
fn requests_are_classified_by_their_marks() {
    assert_eq!(classify_fetch(Some("master"), Some("1")), FetchKind::Master);
    assert_eq!(classify_fetch(Some("other"), Some("1")), FetchKind::Viewer);
    assert_eq!(classify_fetch(None, Some("true")), FetchKind::Playlist);
    assert_eq!(classify_fetch(None, None), FetchKind::Playlist);
    assert!(is_viewer_fetch(Some("1")));
    assert!(!is_viewer_fetch(Some("0")));
    assert!(!is_viewer_fetch(None));
}
