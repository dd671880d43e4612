use control_plane_worker::fetch::{Action, FetchKind};
use control_plane_worker::http::{
    ll_playlist_response, master_playlist_response, shard_full, Reply,
};
use control_plane_worker::llhls::{AlarmPlan, LlHlsInner};
use control_plane_worker::origin::{OriginEvent, OriginLink, Step};
use control_plane_worker::protocol::{
    encode_do_msg, encode_viewer_msg, DoMsg, HlsQuery, OriginMsg, ViewerMsg,
};
use control_plane_worker::route::{OriginRoute, RouteError, RouteHeaders};
use control_plane_worker::waiting::{Greeting, PlaylistStep};

type Object = LlHlsInner<u32, char>;

const END: &str = "{\"type\":\"end\"}";

fn route(version: u64) -> OriginRoute {
    OriginRoute {
        origin_base_url: "https://origin.example".to_string(),
        node_id: "node".to_string(),
        stream_session_id: "session".to_string(),
        route_version: version,
    }
}

fn headers(version: u64) -> RouteHeaders {
    RouteHeaders {
        origin_base_url: Some("https://origin.example/".to_string()),
        node_id: Some("node".to_string()),
        stream_session_id: Some("session".to_string()),
        route_version: Some(version.to_string()),
    }
}

fn key() -> Option<String> {
    Some("id".to_string())
}

fn link(version: u64) -> OriginLink {
    OriginLink {
        url: "wss://origin.example/internal/hls-ws/id".to_string(),
        route: route(version),
    }
}

fn at(msn: u64, part: u32) -> HlsQuery {
    HlsQuery { msn, part }
}

/// An object that knows the route of version 3.
fn object() -> Object {
    let mut o: Object = LlHlsInner::default();
    o.restore(None, None, None);
    o.configure_origin_route(key(), headers(3)).unwrap();
    o
}

fn part(o: &mut Object, msn: u64, part: u32, playlist: &str) -> Step<u32, char> {
    let playlist = playlist.to_string();
    o.on_origin_event(
        &route(3),
        OriginEvent::Message(OriginMsg::Part { msn, part, playlist }),
    )
}

fn master(o: &mut Object, playlist: &str) -> Step<u32, char> {
    let playlist = playlist.to_string();
    o.on_origin_event(
        &route(3),
        OriginEvent::Message(OriginMsg::Master { playlist }),
    )
}

fn end(o: &mut Object) -> Step<u32, char> {
    o.on_origin_event(&route(3), OriginEvent::Message(OriginMsg::End))
}

fn fetch(o: &mut Object, kind: FetchKind, is_initial: bool, query: HlsQuery) -> Action<u32> {
    o.fetch(kind, key(), headers(3), is_initial, &query, None)
}

fn error(reply: &Reply) -> (u16, &str) {
    assert_eq!(reply.headers.len(), 1);
    assert_eq!(reply.headers[0].name, "Access-Control-Allow-Origin");
    assert_eq!(reply.headers[0].value, "*");
    (reply.status, &reply.body)
}

fn seen(o: &Object) -> String {
    format!("{o:?}")
}

#[test]
fn a_new_ll_object_is_empty() {
    let o: Object = LlHlsInner::default();
    assert!(o.needs_restore());
    assert_eq!((o.current_msn, o.current_part), (0, 0));
    assert_eq!((o.playlist.as_str(), o.stream_key.as_str()), ("", ""));
    assert_eq!(o.origin_route, None);
    assert_eq!(o.total_viewers(), 0);
    assert!(!o.origin_connected && !o.should_clear && !o.initialized);
    assert!(o.master_playlist.is_empty() && o.master_waiters.is_empty());
}

#[test]
fn an_ll_object_takes_over_what_was_stored() {
    let mut o: Object = LlHlsInner::default();
    o.restore(Some(7), Some(2), Some("p".to_string()));
    assert!(!o.needs_restore());
    assert_eq!((o.current_msn, o.current_part, o.playlist.as_str()), (7, 2, "p"));
    o.restore(None, None, None);
    assert_eq!((o.current_msn, o.current_part, o.playlist.as_str()), (0, 0, ""));
}

#[test]
fn the_first_route_is_taken_and_stored() {
    let mut o: Object = LlHlsInner::default();
    let c = o.configure_origin_route(key(), headers(3)).unwrap();
    assert_eq!(c.store_key, key());
    assert!(c.answers.is_empty());
    assert_eq!(o.origin_route, Some(route(3)));
    assert_eq!(o.stream_key, "id");
    let c = o.configure_origin_route(key(), headers(3)).unwrap();
    assert_eq!(c.store_key, None);
}

#[test]
fn refused_routes_change_nothing() {
    let mut o = object();
    o.wait_for_playlist(&at(1, 0), 1);
    let before = seen(&o);
    let mut configure = |k: Option<&str>, h| {
        o.configure_origin_route(k.map(|k| k.to_string()), h)
            .unwrap_err()
    };
    assert_eq!(configure(None, headers(4)), RouteError::MissingStreamKey);
    assert_eq!(configure(Some(""), headers(4)), RouteError::MissingStreamKey);
    assert_eq!(configure(Some("id"), headers(2)), RouteError::Stale);
    assert_eq!(configure(Some("other"), headers(3)), RouteError::Conflicting);
    let mut h = headers(3);
    h.node_id = Some("elsewhere".to_string());
    assert_eq!(configure(Some("id"), h), RouteError::Conflicting);
    let mut h = headers(4);
    h.node_id = None;
    assert_eq!(configure(Some("id"), h), RouteError::MissingNodeId);
    let mut h = headers(4);
    h.route_version = Some("new".to_string());
    assert_eq!(configure(Some("id"), h), RouteError::InvalidRouteVersion);
    assert_eq!(seen(&o), before);
}

#[test]
fn a_newer_route_starts_over() {
    let mut o = object();
    o.connect_origin(None).unwrap();
    part(&mut o, 5, 1, "p");
    o.wait_for_playlist(&at(6, 0), 1);
    o.wait_for_playlist(&at(7, 0), 2);
    o.wait_for_master(3);
    o.add_viewer('v');
    let c = o.configure_origin_route(key(), headers(4)).unwrap();
    assert_eq!(c.store_key, key());
    let nothing = String::new();
    assert_eq!(
        c.answers,
        vec![(1, nothing.clone()), (2, nothing.clone()), (3, nothing)]
    );
    assert_eq!((o.current_msn, o.current_part, o.playlist.as_str()), (0, 0, ""));
    assert!(!o.origin_connected && !o.should_clear);
    assert_eq!(o.viewer_ws, vec!['v']);
    assert_eq!(o.origin_route, Some(route(4)));
    assert_eq!(part(&mut o, 9, 9, "old"), Step::Detached);
    assert_eq!(o.playlist, "");
}

#[test]
fn a_blocked_request_waits_until_the_stream_reaches_it() {
    let mut o = object();
    part(&mut o, 5, 1, "five");
    let action = fetch(&mut o, FetchKind::Playlist, false, at(6, 1));
    assert_eq!(
        action,
        Action::Enlist {
            feed: Ok(Some(link(3))),
            alarm_ms: 5000,
        }
    );
    assert!(o.origin_connected);
    o.wait_for_playlist(&at(6, 1), 1);
    o.wait_for_playlist(&at(7, 0), 2);
    o.wait_for_playlist(&at(6, 0), 3);
    match part(&mut o, 6, 0, "six") {
        Step::Updated { answers, .. } => assert_eq!(answers, vec![(3, "six".to_string())]),
        other => panic!("{other:?}"),
    }
    assert_eq!(o.http_waiters, vec![(6, 1, 1), (7, 0, 2)]);
    match part(&mut o, 8, 0, "eight") {
        Step::Updated { answers, .. } => {
            assert_eq!(answers, vec![(1, "eight".to_string()), (2, "eight".to_string())])
        }
        other => panic!("{other:?}"),
    }
    assert!(o.http_waiters.is_empty());
}

#[test]
fn a_part_is_pushed_and_reported() {
    let mut o = object();
    o.add_viewer('a');
    o.add_viewer('b');
    o.wait_for_playlist(&at(0, 0), 1);
    o.wait_for_playlist(&at(9, 0), 2);
    o.wait_for_master(3);
    let step = part(&mut o, 5, 1, "p");
    let push = encode_viewer_msg(&ViewerMsg::Part { msn: 5, part: 1, playlist: "p" });
    let report = encode_do_msg(&DoMsg::Viewers { count: 4, msn: 5, part: 1 });
    assert_eq!(
        step,
        Step::Updated {
            answers: vec![(1, "p".to_string())],
            push: push.clone(),
            report,
        }
    );
    assert!(!step.stops());
    assert_eq!(o.greet_viewer(), Greeting::Welcome(Some(push)));
}

#[test]
fn a_served_part_needs_no_waiting() {
    let mut o = object();
    part(&mut o, 5, 1, "p");
    let now = Action::Reply(ll_playlist_response("p", 0));
    assert_eq!(fetch(&mut o, FetchKind::Playlist, true, at(0, 0)), now);
    assert_eq!(fetch(&mut o, FetchKind::Playlist, false, at(5, 1)), now);
    assert_eq!(fetch(&mut o, FetchKind::Playlist, false, at(4, 9)), now);
    assert_eq!(
        o.answer_playlist(false, &at(5, 2)),
        PlaylistStep::Wait
    );
    assert!(!o.origin_connected);
}

#[test]
fn an_initial_request_waits_for_the_first_playlist() {
    let mut o = object();
    assert_eq!(o.answer_playlist(true, &at(0, 0)), PlaylistStep::Wait);
    assert_eq!(o.answer_playlist(false, &at(0, 0)), PlaylistStep::Wait);
}

#[test]
fn a_request_with_a_new_route_goes_on_after_storing() {
    let mut o: Object = LlHlsInner::default();
    let q = at(0, 0);
    assert_eq!(
        o.fetch(FetchKind::Playlist, key(), headers(3), true, &q, None),
        Action::Store {
            key: "id".to_string(),
            answers: Vec::new(),
        }
    );
    assert_eq!(
        o.fetch_routed(FetchKind::Playlist, true, &q, None),
        Action::Enlist {
            feed: Ok(Some(link(3))),
            alarm_ms: 5000,
        }
    );
    assert_eq!(
        o.fetch_routed(FetchKind::Master, true, &q, None),
        Action::Enlist {
            feed: Ok(None),
            alarm_ms: 5000,
        }
    );
    assert_eq!(
        o.fetch_routed(FetchKind::Viewer, true, &q, None),
        Action::Upgrade { feed: Ok(None) }
    );
}

#[test]
fn a_refused_request_leaves_the_ll_object_as_it_was() {
    let mut o = object();
    let before = seen(&o);
    for kind in [FetchKind::Master, FetchKind::Viewer, FetchKind::Playlist] {
        assert_eq!(
            o.fetch(kind, None, headers(3), true, &at(0, 0), None),
            Action::Fail(RouteError::MissingStreamKey)
        );
        assert_eq!(
            o.fetch(kind, key(), headers(2), true, &at(0, 0), None),
            Action::Fail(RouteError::Stale)
        );
    }
    assert_eq!(seen(&o), before);
}

#[test]
fn a_full_ll_shard_turns_requests_away() {
    let mut o = object();
    for i in 0..499 {
        o.wait_for_playlist(&at(1, 0), i);
    }
    assert_eq!(o.refuse_playlist(), None);
    o.wait_for_playlist(&at(1, 0), 499);
    assert_eq!(o.refuse_playlist(), Some(shard_full()));
    let full = Action::Reply(shard_full());
    assert_eq!(fetch(&mut o, FetchKind::Playlist, true, at(0, 0)), full);
    assert_eq!(
        o.fetch(FetchKind::Playlist, None, headers(1), true, &at(0, 0), None),
        full
    );
    assert_eq!(
        fetch(&mut o, FetchKind::Viewer, true, at(0, 0)),
        Action::Upgrade {
            feed: Ok(Some(link(3)))
        }
    );
    for i in 0..500 {
        assert_eq!(o.answer_master(), None);
        o.wait_for_master(i);
    }
    assert_eq!(o.answer_master(), Some(shard_full()));
    assert_eq!(o.total_viewers(), 500);
}

#[test]
fn a_master_playlist_is_served_from_then_on() {
    let mut o = object();
    assert_eq!(
        fetch(&mut o, FetchKind::Master, true, at(0, 0)),
        Action::Enlist {
            feed: Ok(Some(link(3))),
            alarm_ms: 5000,
        }
    );
    o.wait_for_master(1);
    o.wait_for_master(2);
    o.wait_for_playlist(&at(1, 0), 3);
    assert_eq!(
        master(&mut o, "m"),
        Step::Woken {
            answers: vec![(1, "m".to_string()), (2, "m".to_string())],
        }
    );
    assert_eq!(o.http_waiters.len(), 1);
    assert_eq!(
        o.fetch(FetchKind::Master, None, headers(1), true, &at(0, 0), None),
        Action::Reply(master_playlist_response("m"))
    );
}

#[test]
fn waiting_requests_are_settled() {
    let mut o = object();
    assert_eq!(o.settle_playlist(Some("x".to_string())), ll_playlist_response("x", 0));
    assert_eq!(o.settle_playlist(Some(String::new())), ll_playlist_response("", 0));
    assert_eq!(o.settle_playlist(None), ll_playlist_response("", 0));
    part(&mut o, 1, 0, "p");
    assert_eq!(o.settle_playlist(None), ll_playlist_response("p", 0));
    assert_eq!(o.settle_master(Some("m".to_string())), master_playlist_response("m"));
    let missing = o.settle_master(None);
    assert_eq!(error(&missing), (404, "Master not available"));
    master(&mut o, "m2");
    assert_eq!(o.settle_master(None), master_playlist_response("m2"));
    let empty = o.settle_master(Some(String::new()));
    assert_eq!(error(&empty), (404, "Master not available"));
}

#[test]
fn the_end_answers_everybody() {
    let mut o = object();
    o.connect_origin(None).unwrap();
    part(&mut o, 5, 0, "last");
    o.wait_for_playlist(&at(6, 0), 1);
    o.wait_for_master(2);
    o.add_viewer('a');
    o.add_viewer('b');
    let step = end(&mut o);
    assert!(step.stops());
    assert_eq!(
        step,
        Step::Ended {
            answers: vec![(1, "last".to_string()), (2, String::new())],
            farewell: END.to_string(),
            viewers: vec!['a', 'b'],
        }
    );
    assert!(o.should_clear && !o.origin_connected);
    assert_eq!(o.total_viewers(), 0);
    assert_eq!(o.greet_viewer(), Greeting::Goodbye(END.to_string()));
    assert_eq!(
        fetch(&mut o, FetchKind::Playlist, false, at(99, 0)),
        Action::Clear {
            alarm_ms: 1,
            playlist: "last".to_string(),
        }
    );
    assert_eq!(
        o.settle_playlist(Some("last".to_string())),
        ll_playlist_response("last", 0)
    );
    match fetch(&mut o, FetchKind::Master, true, at(0, 0)) {
        Action::Reply(reply) => assert_eq!(error(&reply), (404, "Stream ended")),
        other => panic!("{other:?}"),
    }
}

#[test]
fn an_ended_stream_is_cleared_by_the_alarm() {
    let mut o = object();
    part(&mut o, 5, 0, "last");
    master(&mut o, "m");
    end(&mut o);
    o.wait_for_master(7);
    assert_eq!(
        o.plan_alarm(),
        AlarmPlan::Clear {
            master: "m".to_string()
        }
    );
    assert_eq!(o.clear_ended("m".to_string()), vec![(7, "m".to_string())]);
    assert!(!o.should_clear);
    assert_eq!((o.playlist.as_str(), o.master_playlist.as_str()), ("", "m"));
    assert_eq!(o.plan_alarm(), AlarmPlan::Timeout);
}

#[test]
fn a_timeout_answers_with_what_there_is() {
    let mut o = object();
    part(&mut o, 5, 0, "p");
    o.wait_for_playlist(&at(6, 0), 1);
    o.wait_for_playlist(&at(7, 0), 2);
    o.wait_for_master(3);
    assert_eq!(o.plan_alarm(), AlarmPlan::Timeout);
    assert_eq!(
        o.drain_on_timeout(),
        vec![(1, "p".to_string()), (2, "p".to_string()), (3, String::new())]
    );
    assert!(o.http_waiters.is_empty() && o.master_waiters.is_empty());
    master(&mut o, "m");
    o.wait_for_master(4);
    assert_eq!(o.drain_on_timeout(), vec![(4, "m".to_string())]);
}

#[test]
fn unreachable_viewers_are_dropped() {
    let mut o = object();
    for v in ['a', 'b', 'c', 'd'] {
        o.add_viewer(v);
    }
    o.fan_out_ws(&vec![true, false, true, false]);
    assert_eq!(o.viewer_ws, vec!['a', 'c']);
    o.fan_out_ws(&vec![true, true]);
    assert_eq!(o.viewer_ws, vec!['a', 'c']);
    o.fan_out_ws(&vec![false, false]);
    assert!(o.viewer_ws.is_empty());
    o.fan_out_ws(&Vec::new());
    assert!(o.viewer_ws.is_empty());
}

#[test]
fn viewers_are_disconnected_with_a_last_message() {
    let mut o = object();
    o.add_viewer('a');
    assert_eq!(o.close_all_viewer_ws(), (END.to_string(), vec!['a']));
    assert!(o.viewer_ws.is_empty());
}

#[test]
fn a_new_viewer_waits_for_the_first_part() {
    let mut o = object();
    assert_eq!(o.greet_viewer(), Greeting::Welcome(None));
    assert_eq!(
        fetch(&mut o, FetchKind::Viewer, true, at(0, 0)),
        Action::Upgrade {
            feed: Ok(Some(link(3)))
        }
    );
}

#[test]
fn a_feed_is_opened_once() {
    let mut o: Object = LlHlsInner::default();
    assert_eq!(o.connect_origin(None), Err(RouteError::RouteNotSet));
    assert!(!o.origin_connected);
    let mut o = object();
    assert_eq!(o.connect_origin(None), Ok(Some(link(3))));
    assert_eq!(o.connect_origin(None), Ok(None));
    assert_eq!(o.on_origin_event(&route(3), OriginEvent::Lost), Step::Lost);
    assert_eq!(o.connect_origin(None), Ok(Some(link(3))));
    o.origin_connected = false;
    o.stream_key.clear();
    assert_eq!(o.connect_origin(None), Err(RouteError::StreamKeyNotSet));
    assert!(!o.origin_connected);
}

#[test]
fn an_ll_object_ignores_what_is_not_for_it() {
    let mut o = object();
    o.wait_for_playlist(&at(0, 0), 1);
    let before = seen(&o);
    let simple = OriginMsg::Simple {
        seq: 1,
        playlist: "s".to_string(),
    };
    assert_eq!(
        o.on_origin_event(&route(3), OriginEvent::Message(simple)),
        Step::Ignored
    );
    assert_eq!(o.on_origin_event(&route(3), OriginEvent::Unreadable), Step::Ignored);
    let simple = OriginMsg::Simple {
        seq: 1,
        playlist: "s".to_string(),
    };
    assert_eq!(
        o.on_origin_event(&route(9), OriginEvent::Message(simple)),
        Step::Ignored
    );
    assert_eq!(seen(&o), before);
}

#[test]
fn feeds_of_other_routes_are_detached() {
    let mut o = object();
    o.wait_for_playlist(&at(0, 0), 1);
    o.wait_for_master(2);
    o.add_viewer('a');
    o.connect_origin(None).unwrap();
    for msg in [
        OriginMsg::Part {
            msn: 1,
            part: 1,
            playlist: "x".to_string(),
        },
        OriginMsg::Master {
            playlist: "x".to_string(),
        },
        OriginMsg::End,
    ] {
        let step = o.on_origin_event(&route(2), OriginEvent::Message(msg));
        assert!(step.stops());
        assert_eq!(step, Step::Detached);
        assert_eq!((o.playlist.as_str(), o.master_playlist.as_str()), ("", ""));
        assert_eq!((o.http_waiters.len(), o.master_waiters.len()), (1, 1));
        assert_eq!(o.viewer_ws, vec!['a']);
        assert!(!o.should_clear && !o.origin_connected);
    }
}

#[test]
fn no_request_is_lost() {
    let mut o = object();
    let mut answered: Vec<u32> = Vec::new();
    for i in 0..30 {
        o.wait_for_playlist(&at((i % 7) as u64, i % 3), i);
    }
    for i in 30..35 {
        o.wait_for_master(i);
    }
    for step in [part(&mut o, 2, 1, "a"), master(&mut o, "m"), part(&mut o, 4, 0, "b"), end(&mut o)] {
        match step {
            Step::Updated { answers, .. } | Step::Woken { answers } | Step::Ended { answers, .. } => {
                answered.extend(answers.into_iter().map(|a| a.0))
            }
            _ => {}
        }
    }
    answered.sort();
    assert_eq!(answered, (0..35).collect::<Vec<u32>>());
}

#[test]
fn a_cleared_stream_can_be_played_again() {
    let mut o = object();
    part(&mut o, 5, 0, "last");
    end(&mut o);
    o.clear_ended(String::new());
    assert_eq!(
        fetch(&mut o, FetchKind::Playlist, true, at(0, 0)),
        Action::Enlist {
            feed: Ok(Some(link(3))),
            alarm_ms: 5000,
        }
    );
    assert!(o.origin_connected);
}
