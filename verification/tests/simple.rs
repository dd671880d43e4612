use control_plane_worker::fetch::Action;
use control_plane_worker::http::{shard_full, simple_playlist_response, Reply};
use control_plane_worker::origin::{OriginEvent, OriginLink, Step};
use control_plane_worker::protocol::{
    encode_do_msg, encode_viewer_msg, DoMsg, OriginMsg, ViewerMsg,
};
use control_plane_worker::route::{OriginRoute, RouteError, RouteHeaders};
use control_plane_worker::simple::SimpleInner;
use control_plane_worker::waiting::{Greeting, PlaylistStep};

type Object = SimpleInner<u32, char>;

const END: &str = "{\"type\":\"end\"}";

fn route(version: u64) -> OriginRoute {
    OriginRoute {
        origin_base_url: "http://origin.example".to_string(),
        node_id: "node".to_string(),
        stream_session_id: "session".to_string(),
        route_version: version,
    }
}

fn headers(version: u64) -> RouteHeaders {
    RouteHeaders {
        origin_base_url: Some("http://origin.example".to_string()),
        node_id: Some("node".to_string()),
        stream_session_id: Some("session".to_string()),
        route_version: Some(version.to_string()),
    }
}

fn key() -> Option<String> {
    Some("id".to_string())
}

fn link(version: u64) -> OriginLink {
    OriginLink {
        url: "ws://origin.example/internal/hls-ws/id?origin_secret=s".to_string(),
        route: route(version),
    }
}

/// An object that knows the route of version 3.
fn object() -> Object {
    let mut o: Object = SimpleInner::default();
    o.restore(None, None);
    o.configure_origin_route(key(), headers(3)).unwrap();
    o
}

fn simple(o: &mut Object, seq: u64, playlist: &str) -> Step<u32, char> {
    let playlist = playlist.to_string();
    o.on_origin_event(
        &route(3),
        OriginEvent::Message(OriginMsg::Simple { seq, playlist }),
    )
}

fn end(o: &mut Object) -> Step<u32, char> {
    o.on_origin_event(&route(3), OriginEvent::Message(OriginMsg::End))
}

fn fetch(o: &mut Object, is_viewer: bool) -> Action<u32> {
    o.fetch(is_viewer, key(), headers(3), Some("s"))
}

fn not_started(reply: &Reply) -> bool {
    reply.status == 404
        && reply.body == "Stream not started yet"
        && reply.headers.len() == 1
        && reply.headers[0].name == "Access-Control-Allow-Origin"
}

fn seen(o: &Object) -> String {
    format!("{o:?}")
}

#[test]
fn a_new_simple_object_is_empty() {
    let o: Object = SimpleInner::default();
    assert!(o.needs_restore());
    assert_eq!((o.simple_seq, o.simple_playlist.as_str()), (0, ""));
    assert_eq!(o.stream_key, "");
    assert_eq!(o.origin_route, None);
    assert_eq!(o.total_viewers(), 0);
    assert!(!o.origin_connected && !o.should_clear);
}

#[test]
fn a_simple_object_takes_over_what_was_stored() {
    let mut o: Object = SimpleInner::default();
    o.restore(Some("p".to_string()), Some(9));
    assert!(!o.needs_restore());
    assert_eq!((o.simple_seq, o.simple_playlist.as_str()), (9, "p"));
    o.restore(None, None);
    assert_eq!((o.simple_seq, o.simple_playlist.as_str()), (0, ""));
}

#[test]
fn a_simple_request_waits_for_the_first_playlist() {
    let mut o: Object = SimpleInner::default();
    assert_eq!(
        fetch(&mut o, false),
        Action::Store {
            key: "id".to_string(),
            answers: Vec::new(),
        }
    );
    assert_eq!(
        o.fetch_routed(false, Some("s")),
        Action::Enlist {
            feed: Ok(Some(link(3))),
            alarm_ms: 5000,
        }
    );
    o.wait_for_playlist(1);
    o.wait_for_playlist(2);
    match simple(&mut o, 4, "p") {
        Step::Updated { answers, .. } => {
            assert_eq!(answers, vec![(1, "p".to_string()), (2, "p".to_string())])
        }
        other => panic!("{other:?}"),
    }
    assert!(o.http_waiters.is_empty());
    assert_eq!(
        fetch(&mut o, false),
        Action::Reply(simple_playlist_response("p", 0))
    );
}

#[test]
fn a_simple_playlist_is_pushed_and_reported() {
    let mut o = object();
    o.add_viewer('a');
    o.wait_for_playlist(1);
    let push = encode_viewer_msg(&ViewerMsg::Simple { seq: 4294967298, playlist: "p" });
    let report = encode_do_msg(&DoMsg::Viewers { count: 2, msn: 0, part: 2 });
    assert_eq!(
        simple(&mut o, 4294967298, "p"),
        Step::Updated {
            answers: vec![(1, "p".to_string())],
            push: push.clone(),
            report,
        }
    );
    assert_eq!(o.greet_viewer(), Greeting::Welcome(Some(push)));
    assert_eq!(
        o.answer_playlist(),
        PlaylistStep::Now(simple_playlist_response("p", 1))
    );
}

#[test]
fn older_playlists_are_ignored() {
    let mut o = object();
    simple(&mut o, 5, "five");
    o.wait_for_playlist(1);
    let before = seen(&o);
    assert_eq!(simple(&mut o, 4, "four"), Step::Ignored);
    assert_eq!(seen(&o), before);
    assert!(matches!(simple(&mut o, 5, "again"), Step::Updated { .. }));
    assert_eq!((o.simple_seq, o.simple_playlist.as_str()), (5, "again"));
}

#[test]
fn a_newer_route_starts_the_simple_object_over() {
    let mut o = object();
    o.connect_origin(None).unwrap();
    simple(&mut o, 5, "p");
    o.wait_for_playlist(1);
    o.add_viewer('v');
    let c = o.configure_origin_route(key(), headers(4)).unwrap();
    assert_eq!(c.store_key, key());
    assert_eq!(c.answers, vec![(1, String::new())]);
    assert_eq!((o.simple_seq, o.simple_playlist.as_str()), (0, ""));
    assert!(!o.origin_connected);
    assert_eq!(o.viewer_ws, vec!['v']);
    assert_eq!(simple(&mut o, 9, "old"), Step::Detached);
    assert_eq!(o.simple_playlist, "");
}

#[test]
fn refused_routes_leave_the_simple_object_as_it_was() {
    let mut o = object();
    let before = seen(&o);
    for viewer in [false, true] {
        assert_eq!(
            o.fetch(viewer, None, headers(3), None),
            Action::Fail(RouteError::MissingStreamKey)
        );
        assert_eq!(
            o.fetch(viewer, key(), headers(2), None),
            Action::Fail(RouteError::Stale)
        );
        assert_eq!(
            o.fetch(viewer, Some("other".to_string()), headers(3), None),
            Action::Fail(RouteError::Conflicting)
        );
        let mut h = headers(4);
        h.stream_session_id = None;
        assert_eq!(
            o.fetch(viewer, key(), h, None),
            Action::Fail(RouteError::MissingStreamSessionId)
        );
    }
    assert_eq!(seen(&o), before);
}

#[test]
fn a_full_simple_shard_turns_requests_away() {
    let mut o = object();
    for i in 0..500 {
        assert_eq!(o.refuse_playlist(), None);
        o.wait_for_playlist(i);
    }
    assert_eq!(o.refuse_playlist(), Some(shard_full()));
    assert_eq!(
        o.fetch(false, None, headers(3), None),
        Action::Reply(shard_full())
    );
    assert_eq!(
        fetch(&mut o, true),
        Action::Upgrade {
            feed: Ok(Some(link(3)))
        }
    );
}

#[test]
fn simple_requests_are_settled() {
    let mut o = object();
    o.add_viewer('a');
    assert_eq!(
        o.settle_playlist(Some("x".to_string())),
        simple_playlist_response("x", 1)
    );
    assert_eq!(
        o.settle_playlist(Some(String::new())),
        simple_playlist_response("", 1)
    );
    assert!(not_started(&o.settle_playlist(None)));
    simple(&mut o, 1, "p");
    assert_eq!(o.settle_playlist(None), simple_playlist_response("p", 1));
}

#[test]
fn the_end_of_a_simple_stream_answers_everybody() {
    let mut o = object();
    simple(&mut o, 1, "last");
    o.wait_for_playlist(1);
    o.add_viewer('a');
    let step = end(&mut o);
    assert!(step.stops());
    assert_eq!(
        step,
        Step::Ended {
            answers: vec![(1, "last".to_string())],
            farewell: END.to_string(),
            viewers: vec!['a'],
        }
    );
    assert!(o.alarm_clears());
    assert_eq!(o.greet_viewer(), Greeting::Goodbye(END.to_string()));
    assert_eq!(
        fetch(&mut o, false),
        Action::Clear {
            alarm_ms: 1,
            playlist: "last".to_string(),
        }
    );
    assert_eq!(o.settle_cleared("last"), simple_playlist_response("last", 0));
    o.add_viewer('b');
    assert_eq!(o.settle_cleared("last"), simple_playlist_response("last", 1));
    o.clear_ended();
    assert!(!o.alarm_clears());
    assert_eq!((o.simple_seq, o.simple_playlist.as_str()), (1, ""));
}

#[test]
fn a_stream_that_ends_before_it_starts_is_not_found() {
    let mut o = object();
    end(&mut o);
    match o.answer_playlist() {
        PlaylistStep::Clear(playlist) => assert!(not_started(&o.settle_cleared(&playlist))),
        other => panic!("{other:?}"),
    }
}

#[test]
fn a_simple_timeout_answers_with_what_there_is() {
    let mut o = object();
    o.wait_for_playlist(1);
    o.wait_for_playlist(2);
    assert!(!o.alarm_clears());
    assert_eq!(
        o.drain_on_timeout(),
        vec![(1, String::new()), (2, String::new())]
    );
    simple(&mut o, 1, "p");
    o.wait_for_playlist(3);
    assert_eq!(o.drain_on_timeout(), vec![(3, "p".to_string())]);
    assert!(o.http_waiters.is_empty());
}

#[test]
fn unreachable_simple_viewers_are_dropped() {
    let mut o = object();
    o.add_viewer('a');
    o.add_viewer('b');
    o.fan_out_ws(&vec![false, true]);
    assert_eq!(o.viewer_ws, vec!['b']);
    assert_eq!(o.close_all_viewer_ws(), (END.to_string(), vec!['b']));
    assert_eq!(o.total_viewers(), 0);
}

#[test]
fn a_simple_feed_is_opened_once() {
    let mut o: Object = SimpleInner::default();
    assert_eq!(o.connect_origin(None), Err(RouteError::RouteNotSet));
    let mut o = object();
    assert_eq!(o.connect_origin(Some("s")), Ok(Some(link(3))));
    assert_eq!(o.connect_origin(Some("s")), Ok(None));
    assert_eq!(o.on_origin_event(&route(9), OriginEvent::Lost), Step::Lost);
    assert!(!o.origin_connected);
}

#[test]
fn a_simple_object_ignores_what_is_not_for_it() {
    let mut o = object();
    o.wait_for_playlist(1);
    let before = seen(&o);
    for version in [3, 9] {
        for event in [
            OriginEvent::Unreadable,
            OriginEvent::Message(OriginMsg::Part {
                msn: 1,
                part: 1,
                playlist: "x".to_string(),
            }),
            OriginEvent::Message(OriginMsg::Master {
                playlist: "x".to_string(),
            }),
        ] {
            assert_eq!(o.on_origin_event(&route(version), event), Step::Ignored);
        }
    }
    assert_eq!(seen(&o), before);
    for msg in [
        OriginMsg::Simple {
            seq: 7,
            playlist: "x".to_string(),
        },
        OriginMsg::End,
    ] {
        assert_eq!(
            o.on_origin_event(&route(9), OriginEvent::Message(msg)),
            Step::Detached
        );
    }
    assert_eq!(seen(&o), before);
}

#[test]
fn a_cleared_simple_stream_can_be_played_again() {
    let mut o = object();
    simple(&mut o, 5, "last");
    end(&mut o);
    o.clear_ended();
    assert_eq!(
        fetch(&mut o, false),
        Action::Enlist {
            feed: Ok(Some(link(3))),
            alarm_ms: 5000,
        }
    );
    assert!(o.origin_connected);
}
