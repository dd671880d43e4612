//! What the worker does with a request: it is parsed, authorized, and sent to a shard; a shard
//! that is full passes it on to the next.

use crate::auth;
use crate::auth::{JwtAuthError, PlaybackClaims};
use crate::fetch;
use crate::fetch::{ActionView, FetchKind};
use crate::http;
use crate::http::{Header, Reply, WsHandshake};
use crate::llhls::LlView;
use crate::path;
use crate::path::{ParsedRequest, PlaylistType};
use crate::protocol::HlsQuery;
use crate::route;
use crate::route::OriginRoute;
use crate::shard;
use crate::simple;
use crate::simple::SimpleView;
use crate::text;
use vstd::prelude::*;

verus! {

/// A request on its way through the shards.
#[derive(Debug, PartialEq, Eq)]
pub struct Dispatch {
    pub playlist_type: PlaylistType,
    pub stream_key: String,
    pub colo: String,
    pub route: OriginRoute,
    pub start_shard: u32,
    pub max_shards: u32,
    pub attempt: u32,
}

/// Where a request stands.
#[verifier::ext_equal]
pub struct DispatchView {
    pub playlist_type: PlaylistType,
    pub stream_key: Seq<char>,
    pub colo: Seq<char>,
    pub route: route::RouteView,
    pub start_shard: u32,
    pub max_shards: u32,
    pub attempt: u32,
}

impl View for Dispatch {
    type V = DispatchView;

    open spec fn view(&self) -> DispatchView {
        DispatchView {
            playlist_type: self.playlist_type,
            stream_key: self.stream_key@,
            colo: self.colo@,
            route: self.route@,
            start_shard: self.start_shard,
            max_shards: self.max_shards,
            attempt: self.attempt,
        }
    }
}

/// The object that a request is sent to, and the headers it is sent with.
#[derive(Debug, PartialEq, Eq)]
pub struct Target {
    /// The name under which the worker finds the objects of this kind.
    pub binding: &'static str,
    /// The name of the object.
    pub object: String,
    pub headers: Vec<Header>,
}

/// What came back from an object.
#[derive(Debug, PartialEq, Eq)]
pub enum ShardReply {
    /// A response with this status.
    Status(u16),
    /// No response; the text says why.
    Failed(String),
}

/// What the worker does with what came back.
#[derive(Debug, PartialEq, Eq)]
pub enum Outcome {
    /// Ask the next shard.
    Retry,
    /// Pass the response on with a CORS header.
    RelayWithCors,
    /// Pass the response on as it is.
    Relay,
    /// Give this reply instead.
    Answer(Reply),
    /// Fail with the error that came back.
    Fail,
}

/// An outcome with its reply as a view.
pub enum OutcomeView {
    Retry,
    RelayWithCors,
    Relay,
    Answer(http::ReplyView),
    Fail,
}

impl View for Outcome {
    type V = OutcomeView;

    open spec fn view(&self) -> OutcomeView {
        match *self {
            Outcome::Retry => OutcomeView::Retry,
            Outcome::RelayWithCors => OutcomeView::RelayWithCors,
            Outcome::Relay => OutcomeView::Relay,
            Outcome::Answer(reply) => OutcomeView::Answer(reply@),
            Outcome::Fail => OutcomeView::Fail,
        }
    }
}

/// The text that stands for a missing value.
pub open spec fn text_or(o: Option<String>, default: Seq<char>) -> Seq<char> {
    match o {
        Some(s) => s@,
        None => default,
    }
}

/// The request behind a path, or the reply to one that the worker does not serve.
pub open spec fn opened_path(path: Seq<char>) -> Result<path::ParsedView, http::ReplyView> {
    match path::parsed_path(path) {
        None => Err(http::cors_error_view("Not found"@, 404)),
        Some(p) => if p.playlist_type == PlaylistType::Media {
            Err(http::cors_error_view("Media objects are served by CDN, not this Worker"@, 404))
        } else {
            Ok(p)
        },
    }
}

/// The route that a token names.
pub open spec fn route_of_claims(c: auth::ClaimsView) -> route::RouteView {
    route::RouteView {
        origin_base_url: route::normalized(c.origin_base_url),
        node_id: c.node_id,
        stream_session_id: c.stream_session_id,
        route_version: c.route_version,
    }
}

/// The route of a request whose token permits it, or the refusal. `claims` is what the token
/// check gave; claims that cannot be read are none.
pub open spec fn authorized_route(
    p: path::ParsedView,
    claims: Result<Option<PlaybackClaims>, JwtAuthError>,
) -> Result<route::RouteView, http::ReplyView> {
    match claims {
        Err(e) => Err(auth::refusal_view(e)),
        Ok(None) => Err(auth::refusal_view(JwtAuthError::Unauthorized)),
        Ok(Some(c)) => if auth::permits(c@, p.stream_id, p.playlist_type) {
            Ok(route_of_claims(c@))
        } else {
            Err(auth::refusal_view(JwtAuthError::Forbidden))
        },
    }
}

/// Whether a playlist of this type comes from the objects for simple playlists.
pub open spec fn is_simple(t: PlaylistType) -> bool {
    t == PlaylistType::Simple || t == PlaylistType::SimpleWs
}

/// The binding of the objects that serve a playlist type.
pub open spec fn binding_of(t: PlaylistType) -> Seq<char> {
    if is_simple(t) {
        "SIMPLE_DO"@
    } else {
        "LL_HLS_DO"@
    }
}

/// The name of the object that serves a stream in one place on one shard.
pub open spec fn object_name(
    t: PlaylistType,
    stream_key: Seq<char>,
    colo: Seq<char>,
    shard: nat,
) -> Seq<char> {
    stream_key + (if is_simple(t) {
        ":simple:"@
    } else {
        ":ll:"@
    }) + colo + ":"@ + text::decimal(shard)
}

/// The headers that a request is forwarded with.
pub open spec fn forwarded(d: DispatchView, h: WsHandshake) -> Seq<(Seq<char>, Seq<char>)> {
    (match d.playlist_type {
        PlaylistType::LlHlsWs | PlaylistType::SimpleWs => http::ws_headers_view(
            h,
            d.stream_key,
            true,
        ),
        PlaylistType::Master => seq![
            ("X-Stream-Key"@, d.stream_key),
            ("X-Playlist-Type"@, "master"@),
        ],
        _ => seq![("X-Stream-Key"@, d.stream_key)],
    }) + route::route_fields(d.route)
}

/// The reply when no shard has room.
pub open spec fn all_full(t: PlaylistType) -> http::ReplyView {
    http::cors_error_view(
        match t {
            PlaylistType::Simple => "All Simple shards full"@,
            PlaylistType::Master => "All shards full"@,
            _ => "All LL-HLS shards full"@,
        },
        503,
    )
}

/// The reply when a shard gives no response.
pub open spec fn shard_failed(t: PlaylistType, why: Seq<char>) -> http::ReplyView {
    http::cors_error_view(
        (match t {
            PlaylistType::Simple => "SimpleDO error: "@,
            PlaylistType::Master => "LlHlsDO master error: "@,
            _ => "LlHlsDO error: "@,
        }) + why,
        502,
    )
}

/// What is done with what came back. A viewer's WebSocket stays with its shard. A blocking
/// request goes from a full shard to the next until every shard was asked.
pub open spec fn outcome_of(d: DispatchView, reply: ShardReply) -> OutcomeView {
    if !path::is_http_playlist(d.playlist_type) {
        match reply {
            ShardReply::Status(_) => OutcomeView::Relay,
            ShardReply::Failed(_) => OutcomeView::Fail,
        }
    } else {
        match reply {
            ShardReply::Status(503) => if d.attempt + 1 < d.max_shards {
                OutcomeView::Retry
            } else {
                OutcomeView::Answer(all_full(d.playlist_type))
            },
            ShardReply::Status(_) => OutcomeView::RelayWithCors,
            ShardReply::Failed(why) => OutcomeView::Answer(shard_failed(d.playlist_type, why@)),
        }
    }
}

/// The four values that carry a route in a list of headers.
pub open spec fn carried_route(fields: Seq<(Seq<char>, Seq<char>)>) -> Result<
    route::RouteView,
    route::RouteError,
> {
    route::route_from(
        http::value_of(fields, route::H_ORIGIN_BASE_URL@),
        http::value_of(fields, route::H_ORIGIN_NODE_ID@),
        http::value_of(fields, route::H_ORIGIN_STREAM_SESSION_ID@),
        http::value_of(fields, route::H_ORIGIN_ROUTE_VERSION@),
    )
}

proof fn lemma_header_names_differ()
    ensures
        "X-Stream-Key"@ != "Upgrade"@,
        "X-Stream-Key"@ != "Connection"@,
        "X-Stream-Key"@ != "Sec-WebSocket-Key"@,
        "X-Stream-Key"@ != "Sec-WebSocket-Version"@,
        "X-Stream-Key"@ != "Sec-WebSocket-Extensions"@,
        "X-Stream-Key"@ != "Sec-WebSocket-Protocol"@,
        "X-Stream-Key"@ != "X-Viewer-WS"@,
        "X-Stream-Key"@ != "X-Playlist-Type"@,
        "X-Stream-Key"@ != "X-Origin-Base-Url"@,
        "X-Stream-Key"@ != "X-Origin-Node-Id"@,
        "X-Stream-Key"@ != "X-Origin-Stream-Session-Id"@,
        "X-Stream-Key"@ != "X-Origin-Route-Version"@,
        "X-Viewer-WS"@ != "Upgrade"@,
        "X-Viewer-WS"@ != "Connection"@,
        "X-Viewer-WS"@ != "Sec-WebSocket-Key"@,
        "X-Viewer-WS"@ != "Sec-WebSocket-Version"@,
        "X-Viewer-WS"@ != "Sec-WebSocket-Extensions"@,
        "X-Viewer-WS"@ != "Sec-WebSocket-Protocol"@,
        "X-Viewer-WS"@ != "X-Playlist-Type"@,
        "X-Viewer-WS"@ != "X-Origin-Base-Url"@,
        "X-Viewer-WS"@ != "X-Origin-Node-Id"@,
        "X-Viewer-WS"@ != "X-Origin-Stream-Session-Id"@,
        "X-Viewer-WS"@ != "X-Origin-Route-Version"@,
        "X-Playlist-Type"@ != "Upgrade"@,
        "X-Playlist-Type"@ != "Connection"@,
        "X-Playlist-Type"@ != "Sec-WebSocket-Key"@,
        "X-Playlist-Type"@ != "Sec-WebSocket-Version"@,
        "X-Playlist-Type"@ != "Sec-WebSocket-Extensions"@,
        "X-Playlist-Type"@ != "Sec-WebSocket-Protocol"@,
        "X-Playlist-Type"@ != "X-Origin-Base-Url"@,
        "X-Playlist-Type"@ != "X-Origin-Node-Id"@,
        "X-Playlist-Type"@ != "X-Origin-Stream-Session-Id"@,
        "X-Playlist-Type"@ != "X-Origin-Route-Version"@,
        "X-Origin-Base-Url"@ != "X-Origin-Node-Id"@,
        "X-Origin-Base-Url"@ != "X-Origin-Stream-Session-Id"@,
        "X-Origin-Base-Url"@ != "X-Origin-Route-Version"@,
        "X-Origin-Node-Id"@ != "X-Origin-Stream-Session-Id"@,
        "X-Origin-Node-Id"@ != "X-Origin-Route-Version"@,
        "X-Origin-Stream-Session-Id"@ != "X-Origin-Route-Version"@,
{
    reveal_strlit("Upgrade");
    reveal_strlit("Connection");
    reveal_strlit("Sec-WebSocket-Key");
    reveal_strlit("Sec-WebSocket-Version");
    reveal_strlit("Sec-WebSocket-Extensions");
    reveal_strlit("Sec-WebSocket-Protocol");
    reveal_strlit("X-Stream-Key");
    reveal_strlit("X-Viewer-WS");
    reveal_strlit("X-Playlist-Type");
    reveal_strlit("X-Origin-Base-Url");
    reveal_strlit("X-Origin-Node-Id");
    reveal_strlit("X-Origin-Stream-Session-Id");
    reveal_strlit("X-Origin-Route-Version");
    assert("Upgrade"@.len() == 7);
    assert("Connection"@.len() == 10);
    assert("Sec-WebSocket-Key"@.len() == 17);
    assert("Sec-WebSocket-Version"@.len() == 21);
    assert("Sec-WebSocket-Extensions"@.len() == 24);
    assert("Sec-WebSocket-Protocol"@.len() == 22);
    assert("X-Stream-Key"@.len() == 12);
    assert("X-Viewer-WS"@.len() == 11);
    assert("X-Playlist-Type"@.len() == 15);
    assert("X-Origin-Base-Url"@.len() == 17);
    assert("X-Origin-Node-Id"@.len() == 16);
    assert("X-Origin-Stream-Session-Id"@.len() == 26);
    assert("X-Origin-Route-Version"@.len() == 22);
}

proof fn lemma_route_fields(r: route::RouteView)
    ensures
        ({
            let f = route::route_fields(r);
            &&& http::value_of(f, route::H_ORIGIN_BASE_URL@) == Some(r.origin_base_url)
            &&& http::value_of(f, route::H_ORIGIN_NODE_ID@) == Some(r.node_id)
            &&& http::value_of(f, route::H_ORIGIN_STREAM_SESSION_ID@) == Some(r.stream_session_id)
            &&& http::value_of(f, route::H_ORIGIN_ROUTE_VERSION@) == Some(
                text::decimal(r.route_version as nat),
            )
            &&& http::value_of(f, "X-Stream-Key"@) is None
            &&& http::value_of(f, "X-Viewer-WS"@) is None
            &&& http::value_of(f, "X-Playlist-Type"@) is None
        }),
{
    lemma_header_names_differ();
    reveal_with_fuel(http::value_of, 5);
    let f = route::route_fields(r);
    assert(f.drop_last().drop_last().drop_last().drop_last() =~= Seq::empty());
}

proof fn lemma_ws_fields(h: WsHandshake, stream_key: Seq<char>)
    ensures
        ({
            let f = http::ws_headers_view(h, stream_key, true);
            &&& http::value_of(f, "X-Stream-Key"@) == Some(stream_key)
            &&& http::value_of(f, "X-Viewer-WS"@) == Some("1"@)
            &&& http::value_of(f, "X-Playlist-Type"@) is None
        }),
{
    lemma_header_names_differ();
    let f = http::ws_headers_view(h, stream_key, true);
    assert(f.last() == ("X-Viewer-WS"@, "1"@));
    let g = f.drop_last();
    assert(g.last() == ("X-Stream-Key"@, stream_key));
    assert(http::value_of(g, "X-Stream-Key"@) == Some(stream_key));
    assert forall|i: int| 0 <= i < f.len() implies (#[trigger] f[i]).0 != "X-Playlist-Type"@ by {
        assert(f[i].0 == "Upgrade"@ || f[i].0 == "Connection"@ || f[i].0 == "Sec-WebSocket-Key"@
            || f[i].0 == "Sec-WebSocket-Version"@ || f[i].0 == "Sec-WebSocket-Extensions"@
            || f[i].0 == "Sec-WebSocket-Protocol"@ || f[i].0 == "X-Stream-Key"@ || f[i].0
            == "X-Viewer-WS"@);
    }
    http::lemma_value_of_absent(f, "X-Playlist-Type"@);
}

/// An object reads from a forwarded request what the worker put into it: the stream, the kind
/// of request, and the route, which arrives unchanged where its base address has no slash at
/// its end.
pub proof fn law_forwarded_request_is_understood(d: DispatchView, h: WsHandshake)
    requires
        d.playlist_type != PlaylistType::Media,
    ensures
        http::value_of(forwarded(d, h), "X-Stream-Key"@) == Some(d.stream_key),
        http::value_of(forwarded(d, h), "X-Playlist-Type"@) == (if d.playlist_type
            == PlaylistType::Master {
            Some("master"@)
        } else {
            None
        }),
        http::value_of(forwarded(d, h), "X-Viewer-WS"@) == (if path::is_http_playlist(
            d.playlist_type,
        ) {
            None
        } else {
            Some("1"@)
        }),
        carried_route(forwarded(d, h)) == Ok::<route::RouteView, route::RouteError>(
            (route::RouteView {
                origin_base_url: route::normalized(d.route.origin_base_url),
                ..d.route
            }),
        ),
{
    lemma_header_names_differ();
    reveal_with_fuel(http::value_of, 3);
    let tail = route::route_fields(d.route);
    let front = forwarded(d, h).take(forwarded(d, h).len() - tail.len());
    assert(forwarded(d, h) =~= front + tail);
    lemma_route_fields(d.route);
    route::law_route_headers_carry_the_route(d.route);
    http::lemma_value_of_concat(front, tail, "X-Stream-Key"@);
    http::lemma_value_of_concat(front, tail, "X-Playlist-Type"@);
    http::lemma_value_of_concat(front, tail, "X-Viewer-WS"@);
    http::lemma_value_of_concat(front, tail, route::H_ORIGIN_BASE_URL@);
    http::lemma_value_of_concat(front, tail, route::H_ORIGIN_NODE_ID@);
    http::lemma_value_of_concat(front, tail, route::H_ORIGIN_STREAM_SESSION_ID@);
    http::lemma_value_of_concat(front, tail, route::H_ORIGIN_ROUTE_VERSION@);
    match d.playlist_type {
        PlaylistType::LlHlsWs | PlaylistType::SimpleWs => {
            assert(front =~= http::ws_headers_view(h, d.stream_key, true));
            lemma_ws_fields(h, d.stream_key);
        },
        PlaylistType::Master => {
            assert(front =~= seq![
                ("X-Stream-Key"@, d.stream_key),
                ("X-Playlist-Type"@, "master"@),
            ]);
            assert(front.drop_last() =~= seq![("X-Stream-Key"@, d.stream_key)]);
            assert(front.drop_last().drop_last() =~= Seq::empty());
        },
        _ => {
            assert(front =~= seq![("X-Stream-Key"@, d.stream_key)]);
            assert(front.drop_last() =~= Seq::empty());
        },
    }
}

/// A new object that gets a forwarded request takes its stream and its route, and opens the
/// feed of that stream at that origin.
pub proof fn law_new_object_opens_the_feed_of_the_token<S, W>(
    d: DispatchView,
    h: WsHandshake,
    is_initial: bool,
    query: HlsQuery,
    secret: Option<Seq<char>>,
)
    requires
        !is_simple(d.playlist_type),
        d.playlist_type != PlaylistType::Media,
        d.stream_key.len() > 0,
        route::normalized(d.route.origin_base_url) == d.route.origin_base_url,
    ensures
        ({
            let f = forwarded(d, h);
            let kind = fetch::fetch_kind(
                http::value_of(f, "X-Playlist-Type"@),
                http::value_of(f, "X-Viewer-WS"@),
            );
            let (taken, action) = LlView::<S, W>::fresh().fetched(
                kind,
                http::value_of(f, "X-Stream-Key"@),
                carried_route(f),
                is_initial,
                query,
                secret,
            );
            &&& kind == (match d.playlist_type {
                PlaylistType::Master => FetchKind::Master,
                PlaylistType::LlHlsWs => FetchKind::Viewer,
                _ => FetchKind::Playlist,
            })
            &&& action == (ActionView::Store {
                key: d.stream_key,
                answers: Seq::<(S, Seq<char>)>::empty(),
            })
            &&& taken.feed(secret) == Ok::<_, route::RouteError>(
                Some((route::feed_url(d.stream_key, d.route.origin_base_url, secret), d.route)),
            )
        }),
{
    law_forwarded_request_is_understood(d, h);
}

/// The same for simple playlists.
pub proof fn law_new_simple_object_opens_the_feed_of_the_token<S, W>(
    d: DispatchView,
    h: WsHandshake,
    secret: Option<Seq<char>>,
)
    requires
        is_simple(d.playlist_type),
        d.stream_key.len() > 0,
        route::normalized(d.route.origin_base_url) == d.route.origin_base_url,
    ensures
        ({
            let f = forwarded(d, h);
            let is_viewer = simple::is_viewer_request(http::value_of(f, "X-Viewer-WS"@));
            let (taken, action) = SimpleView::<S, W>::fresh().fetched(
                is_viewer,
                http::value_of(f, "X-Stream-Key"@),
                carried_route(f),
                secret,
            );
            &&& is_viewer <==> d.playlist_type == PlaylistType::SimpleWs
            &&& action == (ActionView::Store {
                key: d.stream_key,
                answers: Seq::<(S, Seq<char>)>::empty(),
            })
            &&& taken.feed(secret) == Ok::<_, route::RouteError>(
                Some((route::feed_url(d.stream_key, d.route.origin_base_url, secret), d.route)),
            )
        }),
{
    law_forwarded_request_is_understood(d, h);
}

/// A request reaches an object only with a token that permits it: the token was accepted, was
/// issued for the stream in the path, has the scope that the file needs, and names the route
/// that is used. The route is normalized, so it arrives at the object unchanged.
pub proof fn law_only_permitted_requests_are_dispatched(
    path: Seq<char>,
    claims: Result<Option<PlaybackClaims>, JwtAuthError>,
)
    ensures
        opened_path(path) matches Ok(p) ==> {
            &&& p.playlist_type != PlaylistType::Media
            &&& path::parsed_path(path) == Some(p)
            &&& authorized_route(p, claims) matches Ok(r) ==> {
                &&& claims matches Ok(Some(c)) && auth::permits(c@, p.stream_id, p.playlist_type)
                    && r == route_of_claims(c@)
                &&& route::normalized(r.origin_base_url) == r.origin_base_url
            }
        },
{
    if let Ok(Some(c)) = claims {
        text::law_drop_trailing_is_final(c.origin_base_url@, '/');
    }
}

/// A blocking request is answered that all shards are full only when the last of them was
/// asked, and by then every shard has been asked, each once.
pub proof fn law_full_means_every_shard_was_asked(d: DispatchView)
    requires
        path::is_http_playlist(d.playlist_type),
        d.attempt < d.max_shards,
    ensures
        outcome_of(d, ShardReply::Status(503)) == OutcomeView::Retry <==> d.attempt + 1
            < d.max_shards,
        outcome_of(d, ShardReply::Status(503)) == OutcomeView::Answer(all_full(d.playlist_type))
            <==> d.attempt + 1 == d.max_shards,
        forall|s: nat|
            s < d.max_shards ==> #[trigger] shard::is_asked(
                d.start_shard as nat,
                d.max_shards as nat,
                s,
            ),
        forall|a: nat, b: nat|
            a < d.max_shards && b < d.max_shards && #[trigger] shard::shard_at(
                d.start_shard as nat,
                a,
                d.max_shards as nat,
            ) == #[trigger] shard::shard_at(d.start_shard as nat, b, d.max_shards as nat) ==> a
                == b,
{
    shard::law_overflow_asks_every_shard_once(d.start_shard as nat, d.max_shards as nat);
}

/// Whatever the worker answers itself, scripts of any site may read. A blocking request is
/// never answered with the refusal of a single shard, nor without a CORS header.
pub proof fn law_answers_are_open_to_all(
    path: Seq<char>,
    p: path::ParsedView,
    claims: Result<Option<PlaybackClaims>, JwtAuthError>,
    d: DispatchView,
    reply: ShardReply,
)
    ensures
        opened_path(path) matches Err(r) ==> http::open_to_all(r),
        authorized_route(p, claims) matches Err(r) ==> http::open_to_all(r),
        outcome_of(d, reply) matches OutcomeView::Answer(r) ==> http::open_to_all(r),
        path::is_http_playlist(d.playlist_type) ==> {
            &&& outcome_of(d, reply) !is Relay
            &&& outcome_of(d, reply) !is Fail
            &&& outcome_of(d, reply) is RelayWithCors ==> reply != ShardReply::Status(503)
        },
{
    assert forall|msg: Seq<char>, status: u16| http::open_to_all(
        #[trigger] http::cors_error_view(msg, status),
    ) by {
        http::law_replies_are_open_to_all(msg, status, Seq::empty(), 0);
    }
}

/// The master playlist, the low-latency playlist and its WebSocket of a stream are served by
/// the same object, the simple playlist and its WebSocket by another.
pub proof fn law_objects_serve_whole_streams(
    stream_key: Seq<char>,
    colo: Seq<char>,
    shard: nat,
)
    ensures
        binding_of(PlaylistType::Master) == binding_of(PlaylistType::LlHls),
        binding_of(PlaylistType::LlHlsWs) == binding_of(PlaylistType::LlHls),
        binding_of(PlaylistType::SimpleWs) == binding_of(PlaylistType::Simple),
        binding_of(PlaylistType::Simple) != binding_of(PlaylistType::LlHls),
        object_name(PlaylistType::Master, stream_key, colo, shard) == object_name(
            PlaylistType::LlHls,
            stream_key,
            colo,
            shard,
        ),
        object_name(PlaylistType::LlHlsWs, stream_key, colo, shard) == object_name(
            PlaylistType::LlHls,
            stream_key,
            colo,
            shard,
        ),
        object_name(PlaylistType::SimpleWs, stream_key, colo, shard) == object_name(
            PlaylistType::Simple,
            stream_key,
            colo,
            shard,
        ),
{
    reveal_strlit("SIMPLE_DO");
    reveal_strlit("LL_HLS_DO");
    assert("SIMPLE_DO"@[0] != "LL_HLS_DO"@[0]);
}

/// Parses a path and refuses what the worker does not serve.
pub fn open_path(path: &str) -> (r: Result<ParsedRequest, Reply>)
    ensures
        match r {
            Ok(p) => opened_path(path@) == Ok::<path::ParsedView, http::ReplyView>(p@),
            Err(e) => opened_path(path@) == Err::<path::ParsedView, http::ReplyView>(e@),
        },
{
    match path::parse_playlist_path(path) {
        Some(parsed) => match parsed.playlist_type {
            PlaylistType::Media => Err(
                http::cors_error("Media objects are served by CDN, not this Worker", 404),
            ),
            _ => Ok(parsed),
        },
        None => Err(http::cors_error("Not found", 404)),
    }
}

/// Authorizes a request and gives the route that its token names.
pub fn authorize_route(
    parsed: &ParsedRequest,
    claims: Result<Option<PlaybackClaims>, JwtAuthError>,
) -> (r: Result<OriginRoute, Reply>)
    ensures
        match r {
            Ok(route) => authorized_route(parsed@, claims) == Ok::<_, http::ReplyView>(route@),
            Err(e) => authorized_route(parsed@, claims) == Err::<route::RouteView, _>(e@),
        },
{
    let claims = match claims {
        Ok(Some(claims)) => claims,
        Ok(None) => {
            return Err(auth::auth_refusal(JwtAuthError::Unauthorized));
        },
        Err(e) => {
            return Err(auth::auth_refusal(e));
        },
    };
    match auth::authorize_parsed_request(parsed, &claims) {
        Ok(_) => Ok(
            OriginRoute {
                origin_base_url: route::normalize_origin_base(claims.origin_base_url.as_str()),
                node_id: claims.node_id,
                stream_session_id: claims.stream_session_id,
                route_version: claims.route_version,
            },
        ),
        Err(e) => Err(auth::auth_refusal(e)),
    }
}

/// Sends an authorized request on its way: it starts at the shard that the hash of the client's
/// address points to.
pub fn plan_dispatch(
    parsed: ParsedRequest,
    route: OriginRoute,
    colo: Option<String>,
    ip: Option<String>,
    max_shards: u32,
) -> (r: Result<Dispatch, Reply>)
    requires
        max_shards > 0,
    ensures
        match r {
            Ok(d) => parsed.playlist_type != PlaylistType::Media && d@ == (DispatchView {
                playlist_type: parsed.playlist_type,
                stream_key: parsed.stream_key@,
                colo: text_or(colo, "XX"@),
                route: route@,
                start_shard: (shard::djb2(vstd::utf8::encode_utf8(text_or(ip, "0.0.0.0"@)))
                    % max_shards as nat) as u32,
                max_shards,
                attempt: 0,
            }),
            Err(e) => parsed.playlist_type == PlaylistType::Media && e@ == http::cors_error_view(
                "Unknown playlist type"@,
                404,
            ),
        },
{
    match parsed.playlist_type {
        PlaylistType::Media => Err(http::cors_error("Unknown playlist type", 404)),
        _ => {
            let colo = match colo {
                Some(colo) => colo,
                None => "XX".to_owned(),
            };
            let ip = match ip {
                Some(ip) => ip,
                None => "0.0.0.0".to_owned(),
            };
            Ok(
                Dispatch {
                    playlist_type: parsed.playlist_type,
                    stream_key: parsed.stream_key,
                    colo,
                    route,
                    start_shard: shard::djb2_hash(ip.as_str()) % max_shards,
                    max_shards,
                    attempt: 0,
                },
            )
        },
    }
}

impl Dispatch {
    /// Whether the request has shards to ask.
    pub open spec fn wf(&self) -> bool {
        self.attempt < self.max_shards
    }

    /// The object to ask, and the headers to ask it with. `handshake` is that of the client's
    /// request.
    pub fn target(&self, handshake: &WsHandshake) -> (t: Target)
        requires
            self.wf(),
        ensures
            t.binding@ == binding_of(self.playlist_type),
            t.object@ == object_name(
                self.playlist_type,
                self.stream_key@,
                self.colo@,
                shard::shard_at(
                    self.start_shard as nat,
                    self.attempt as nat,
                    self.max_shards as nat,
                ),
            ),
            http::fields(t.headers@) == forwarded(self@, *handshake),
    {
        let shard_id = shard::shard_for_attempt(self.start_shard, self.attempt, self.max_shards);
        let simple = match self.playlist_type {
            PlaylistType::Simple | PlaylistType::SimpleWs => true,
            _ => false,
        };
        let mut object = self.stream_key.clone();
        object.append(if simple {
            ":simple:"
        } else {
            ":ll:"
        });
        object.append(self.colo.as_str());
        object.append(":");
        object.append(text::to_decimal(shard_id as u64).as_str());
        let mut headers: Vec<Header> = match self.playlist_type {
            PlaylistType::LlHlsWs | PlaylistType::SimpleWs => http::copy_ws_headers(
                handshake,
                self.stream_key.as_str(),
                true,
            ),
            _ => {
                let mut headers: Vec<Header> = Vec::new();
                assert(http::fields(headers@) =~= Seq::empty());
                http::push_header(&mut headers, "X-Stream-Key", self.stream_key.as_str());
                headers
            },
        };
        match self.playlist_type {
            PlaylistType::Master => {
                http::push_header(&mut headers, "X-Playlist-Type", "master");
            },
            _ => {},
        }
        route::set_origin_route_headers(&mut headers, &self.route);
        Target {
            binding: if simple {
                "SIMPLE_DO"
            } else {
                "LL_HLS_DO"
            },
            object,
            headers,
        }
    }

    /// Takes what came back from the object and says what to do with it. On a retry the request
    /// has moved on to the next shard.
    pub fn on_reply(&mut self, reply: ShardReply) -> (outcome: Outcome)
        requires
            old(self).wf(),
        ensures
            final(self).wf(),
            outcome@ == outcome_of(old(self)@, reply),
            final(self)@ == (DispatchView {
                attempt: if outcome is Retry {
                    (old(self).attempt + 1) as u32
                } else {
                    old(self).attempt
                },
                ..old(self)@
            }),
    {
        match self.playlist_type {
            PlaylistType::Master | PlaylistType::LlHls | PlaylistType::Simple => match reply {
                ShardReply::Status(status) => if status != 503 {
                    Outcome::RelayWithCors
                } else if self.attempt + 1 < self.max_shards {
                    self.attempt = self.attempt + 1;
                    Outcome::Retry
                } else {
                    Outcome::Answer(
                        http::cors_error(
                            match self.playlist_type {
                                PlaylistType::Simple => "All Simple shards full",
                                PlaylistType::Master => "All shards full",
                                _ => "All LL-HLS shards full",
                            },
                            503,
                        ),
                    )
                },
                ShardReply::Failed(why) => {
                    let mut msg = (match self.playlist_type {
                        PlaylistType::Simple => "SimpleDO error: ",
                        PlaylistType::Master => "LlHlsDO master error: ",
                        _ => "LlHlsDO error: ",
                    }).to_owned();
                    msg.append(why.as_str());
                    Outcome::Answer(http::cors_error(msg.as_str(), 502))
                },
            },
            _ => match reply {
                ShardReply::Status(_) => Outcome::Relay,
                ShardReply::Failed(_) => Outcome::Fail,
            },
        }
    }
}

/// A path is opened if and only if it asks for a playlist. A media object is refused as one, and
/// anything else is not found.
pub proof fn law_only_playlists_are_opened(path: Seq<char>)
    ensures
        match path::parsed_path(path) {
            None => opened_path(path) matches Err(r) && r.status == 404 && r.body == "Not found"@,
            Some(p) => if p.playlist_type == PlaylistType::Media {
                opened_path(path) matches Err(r) && r.status == 404 && r.body
                    == "Media objects are served by CDN, not this Worker"@
            } else {
                opened_path(path) == Ok::<_, http::ReplyView>(p)
            },
        },
{
}

/// A request is authorized if and only if its token was accepted, could be read and permits it.
/// The route is then the one that the token names, node, session and version as they are, and the
/// base address without slashes at its end. Otherwise the refusal says which of these failed.
pub proof fn law_routes_come_from_the_token(
    p: path::ParsedView,
    claims: Result<Option<PlaybackClaims>, JwtAuthError>,
)
    ensures
        match claims {
            Err(JwtAuthError::MissingConfig) => authorized_route(p, claims) matches Err(r)
                && r.status == 500 && r.body == "JWT auth is not configured"@,
            Err(JwtAuthError::Forbidden) => authorized_route(p, claims) matches Err(r) && r.status
                == 403 && r.body == "Forbidden"@,
            Err(JwtAuthError::Unauthorized) | Ok(None) => authorized_route(p, claims) matches Err(r)
                && r.status == 401 && r.body == "Unauthorized"@,
            Ok(Some(c)) => if auth::permits(c@, p.stream_id, p.playlist_type) {
                &&& authorized_route(p, claims) matches Ok(r)
                &&& r.node_id == c.node_id@
                &&& r.stream_session_id == c.stream_session_id@
                &&& r.route_version == c.route_version
                &&& r.origin_base_url.len() <= c.origin_base_url@.len()
                &&& r.origin_base_url == c.origin_base_url@.take(r.origin_base_url.len() as int)
                &&& forall|i: int|
                    r.origin_base_url.len() <= i < c.origin_base_url@.len()
                        ==> c.origin_base_url@[i] == '/'
                &&& r.origin_base_url.len() > 0 ==> r.origin_base_url.last() != '/'
            } else {
                authorized_route(p, claims) matches Err(r) && r.status == 403 && r.body
                    == "Forbidden"@
            },
        },
{
    if let Ok(Some(c)) = claims {
        route::law_base_addresses_lose_only_slashes(c.origin_base_url@);
    }
}

/// A blocking request of any kind goes on to another shard if and only if this one is full and
/// there is one left to ask. When none is left it is answered that all are full. Any other
/// response is passed on, and a shard that gives none is answered for, with its reason. A viewer's
/// request is passed on or fails, and never goes on.
pub proof fn law_requests_go_on_only_from_full_shards(d: DispatchView, status: u16, why: String)
    ensures
        ({
            let blocking = d.playlist_type == PlaylistType::Master || d.playlist_type
                == PlaylistType::LlHls || d.playlist_type == PlaylistType::Simple;
            let after = outcome_of(d, ShardReply::Status(status));
            let failed = outcome_of(d, ShardReply::Failed(why));
            &&& blocking && status != 503 ==> after == OutcomeView::RelayWithCors
            &&& blocking && status == 503 && d.attempt + 1 < d.max_shards ==> after
                == OutcomeView::Retry
            &&& blocking && status == 503 && d.attempt + 1 >= d.max_shards ==> {
                &&& after matches OutcomeView::Answer(r)
                &&& r.status == 503
                &&& d.playlist_type == PlaylistType::Master ==> r.body == "All shards full"@
                &&& d.playlist_type == PlaylistType::LlHls ==> r.body == "All LL-HLS shards full"@
                &&& d.playlist_type == PlaylistType::Simple ==> r.body == "All Simple shards full"@
            }
            &&& blocking ==> {
                &&& failed matches OutcomeView::Answer(r)
                &&& r.status == 502
                &&& d.playlist_type == PlaylistType::Master ==> r.body
                    == "LlHlsDO master error: "@ + why@
                &&& d.playlist_type == PlaylistType::LlHls ==> r.body == "LlHlsDO error: "@ + why@
                &&& d.playlist_type == PlaylistType::Simple ==> r.body == "SimpleDO error: "@ + why@
            }
            &&& !blocking ==> after == OutcomeView::Relay && failed == OutcomeView::Fail
        }),
{
}

/// An object is named by its stream, its kind, its place and its shard. The objects of one stream
/// in one place have different names on different shards.
pub proof fn law_objects_are_named_by_stream_place_and_shard(
    t: PlaylistType,
    key: Seq<char>,
    colo: Seq<char>,
    a: nat,
    b: nat,
)
    ensures
        t == PlaylistType::Simple || t == PlaylistType::SimpleWs ==> object_name(t, key, colo, a)
            == key + ":simple:"@ + colo + ":"@ + text::decimal(a) && binding_of(t) == "SIMPLE_DO"@,
        t != PlaylistType::Simple && t != PlaylistType::SimpleWs ==> object_name(t, key, colo, a)
            == key + ":ll:"@ + colo + ":"@ + text::decimal(a) && binding_of(t) == "LL_HLS_DO"@,
        a != b ==> object_name(t, key, colo, a) != object_name(t, key, colo, b),
{
    if object_name(t, key, colo, a) == object_name(t, key, colo, b) {
        let kind = if is_simple(t) {
            ":simple:"@
        } else {
            ":ll:"@
        };
        let front = key + kind + colo + ":"@;
        let n = front.len() as int;
        assert(object_name(t, key, colo, a).skip(n) =~= text::decimal(a));
        assert(object_name(t, key, colo, b).skip(n) =~= text::decimal(b));
        text::law_decimal_is_read_back(a, a + b);
        text::law_decimal_is_read_back(b, a + b);
    }
}

/// A request is forwarded with its stream, what marks its kind, and its route, and a viewer's with
/// its handshake; nothing else is sent.
pub proof fn law_requests_are_forwarded_with_stream_and_route(d: DispatchView, h: WsHandshake)
    ensures
        ({
            let f = forwarded(d, h);
            let r = route::route_fields(d.route);
            &&& d.playlist_type == PlaylistType::Master ==> f == seq![
                ("X-Stream-Key"@, d.stream_key),
                ("X-Playlist-Type"@, "master"@),
            ] + r
            &&& d.playlist_type == PlaylistType::LlHls || d.playlist_type == PlaylistType::Simple
                ==> f == seq![("X-Stream-Key"@, d.stream_key)] + r
            &&& d.playlist_type == PlaylistType::LlHlsWs || d.playlist_type
                == PlaylistType::SimpleWs ==> f == http::ws_headers_view(h, d.stream_key, true) + r
        }),
{
}

/// Requests on their way, outcomes and stand-ins are taken as they are.
pub proof fn law_dispatches_are_taken_as_they_are(
    d: Dispatch,
    r: Reply,
    s: String,
    stand_in: Seq<char>,
)
    ensures
        d@.playlist_type == d.playlist_type,
        d@.stream_key == d.stream_key@,
        d@.colo == d.colo@,
        d@.route == d.route@,
        d@.start_shard == d.start_shard,
        d@.max_shards == d.max_shards,
        d@.attempt == d.attempt,
        d.wf() <==> d.attempt < d.max_shards,
        Outcome::Retry@ == OutcomeView::Retry,
        Outcome::RelayWithCors@ == OutcomeView::RelayWithCors,
        Outcome::Relay@ == OutcomeView::Relay,
        Outcome::Fail@ == OutcomeView::Fail,
        Outcome::Answer(r)@ == OutcomeView::Answer(r@),
        text_or(Some(s), stand_in) == s@,
        text_or(None, stand_in) == stand_in,
{
}

/// A planned request starts at the shard that the hash of the client's address points to, with all
/// shards still to ask. Its stream, its kind, its route and its place are those that it was planned
/// with, and only a place or an address that is missing has a stand-in.
pub proof fn law_requests_start_at_the_shard_of_the_client(
    parsed: ParsedRequest,
    route: OriginRoute,
    colo: Option<String>,
    ip: Option<String>,
    max_shards: u32,
    r: Result<Dispatch, Reply>,
)
    requires
        max_shards > 0,
        call_ensures(plan_dispatch, (parsed, route, colo, ip, max_shards), r),
    ensures
        r is Ok <==> parsed.playlist_type != PlaylistType::Media,
        r matches Err(e) ==> e.status == 404 && e.body@ == "Unknown playlist type"@,
        r matches Ok(d) ==> {
            &&& d.playlist_type == parsed.playlist_type
            &&& d.stream_key@ == parsed.stream_key@
            &&& d.route@ == route@
            &&& d.max_shards == max_shards
            &&& d.attempt == 0
            &&& d.start_shard < max_shards
            &&& colo matches Some(c) ==> d.colo@ == c@
            &&& colo is None ==> d.colo@ == "XX"@
            &&& ip matches Some(a) ==> d.start_shard == shard::djb2(
                vstd::utf8::encode_utf8(a@),
            ) % max_shards as nat
            &&& ip is None ==> d.start_shard == shard::djb2(
                vstd::utf8::encode_utf8("0.0.0.0"@),
            ) % max_shards as nat
        },
{
    if let Err(e) = r {
        assert(e@.body == e.body@);
    }
    if let Ok(d) = r {
        assert(d@.stream_key == d.stream_key@);
        assert(d@.colo == d.colo@);
        assert(d@.route == d.route@);
    }
}

/// When a shard has replied, the request has moved on by one shard if it is to be tried again, and
/// otherwise not at all. Nothing else of it changes. It goes on only after a 503.
pub proof fn law_replies_move_a_request_by_one_shard(
    d: &mut Dispatch,
    reply: ShardReply,
    outcome: Outcome,
)
    requires
        old(d).wf(),
        call_ensures(Dispatch::on_reply, (d, reply), outcome),
    ensures
        final(d).playlist_type == old(d).playlist_type,
        final(d).stream_key@ == old(d).stream_key@,
        final(d).colo@ == old(d).colo@,
        final(d).route@ == old(d).route@,
        final(d).start_shard == old(d).start_shard,
        final(d).max_shards == old(d).max_shards,
        outcome is Retry ==> final(d).attempt == old(d).attempt + 1,
        outcome is Retry ==> final(d).attempt < final(d).max_shards,
        outcome is Retry ==> reply == ShardReply::Status(503),
        outcome !is Retry ==> final(d).attempt == old(d).attempt,
        path::is_http_playlist(old(d).playlist_type) && (reply matches ShardReply::Status(s) && s
            != 503) ==> outcome is RelayWithCors,
{
    assert(final(d)@.stream_key == final(d).stream_key@);
    assert(final(d)@.colo == final(d).colo@);
    assert(final(d)@.route == final(d).route@);
}

/// The object that is asked is the one of the request's stream and place on the shard of this
/// attempt, and it is sent the request's stream and route.
pub proof fn law_targets_are_the_objects_of_the_stream(
    d: Dispatch,
    handshake: WsHandshake,
    t: Target,
)
    requires
        d.wf(),
        call_ensures(Dispatch::target, (&d, &handshake), t),
    ensures
        ({
            let shard = (d.start_shard + d.attempt) % d.max_shards as int;
            let simple = d.playlist_type == PlaylistType::Simple || d.playlist_type
                == PlaylistType::SimpleWs;
            &&& simple ==> t.binding@ == "SIMPLE_DO"@ && t.object@ == d.stream_key@ + ":simple:"@
                + d.colo@ + ":"@ + text::decimal(shard as nat)
            &&& !simple ==> t.binding@ == "LL_HLS_DO"@ && t.object@ == d.stream_key@ + ":ll:"@
                + d.colo@ + ":"@ + text::decimal(shard as nat)
            &&& http::fields(t.headers@) == forwarded(d@, handshake)
        }),
{
}

} // verus!
