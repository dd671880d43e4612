//! The origin that a stream is played from, and the address of its playlist feed.

use crate::http;
use crate::http::Header;
use crate::text;
use vstd::prelude::*;

verus! {

pub const H_ORIGIN_BASE_URL: &'static str = "X-Origin-Base-Url";

pub const H_ORIGIN_NODE_ID: &'static str = "X-Origin-Node-Id";

pub const H_ORIGIN_STREAM_SESSION_ID: &'static str = "X-Origin-Stream-Session-Id";

pub const H_ORIGIN_ROUTE_VERSION: &'static str = "X-Origin-Route-Version";

/// Where a stream comes from: a node, one of its sessions, and how new this knowledge is.
#[derive(Debug, PartialEq, Eq)]
pub struct OriginRoute {
    pub origin_base_url: String,
    pub node_id: String,
    pub stream_session_id: String,
    pub route_version: u64,
}

/// What a route says.
#[verifier::ext_equal]
pub struct RouteView {
    pub origin_base_url: Seq<char>,
    pub node_id: Seq<char>,
    pub stream_session_id: Seq<char>,
    pub route_version: u64,
}

impl View for OriginRoute {
    type V = RouteView;

    open spec fn view(&self) -> RouteView {
        RouteView {
            origin_base_url: self.origin_base_url@,
            node_id: self.node_id@,
            stream_session_id: self.stream_session_id@,
            route_version: self.route_version,
        }
    }
}

impl Clone for OriginRoute {
    fn clone(&self) -> (r: Self)
        ensures
            r == *self,
    {
        OriginRoute {
            origin_base_url: self.origin_base_url.clone(),
            node_id: self.node_id.clone(),
            stream_session_id: self.stream_session_id.clone(),
            route_version: self.route_version,
        }
    }
}

/// The route behind an optional one.
pub open spec fn opt_route(o: Option<OriginRoute>) -> Option<RouteView> {
    match o {
        Some(r) => Some(r@),
        None => None,
    }
}

/// Why an object cannot play a stream.
#[derive(Debug, Clone, Copy, PartialEq, Eq, Structural)]
pub enum RouteError {
    MissingStreamKey,
    MissingBaseUrl,
    MissingNodeId,
    MissingStreamSessionId,
    MissingRouteVersion,
    InvalidRouteVersion,
    /// The object knows a newer route.
    Stale,
    /// The object knows another route of the same version.
    Conflicting,
    RouteNotSet,
    StreamKeyNotSet,
}

/// The wording of an error.
pub open spec fn error_text(e: RouteError) -> Seq<char> {
    match e {
        RouteError::MissingStreamKey => "missing X-Stream-Key"@,
        RouteError::MissingBaseUrl => "missing origin base url"@,
        RouteError::MissingNodeId => "missing origin node id"@,
        RouteError::MissingStreamSessionId => "missing origin stream session id"@,
        RouteError::MissingRouteVersion => "missing origin route version"@,
        RouteError::InvalidRouteVersion => "invalid origin route version"@,
        RouteError::Stale => "stale origin route"@,
        RouteError::Conflicting => "conflicting origin route"@,
        RouteError::RouteNotSet => "origin route not set"@,
        RouteError::StreamKeyNotSet => "stream_key not set"@,
    }
}

impl RouteError {
    /// The wording of the error.
    pub fn message(&self) -> (s: &'static str)
        ensures
            s@ == error_text(*self),
    {
        match self {
            RouteError::MissingStreamKey => "missing X-Stream-Key",
            RouteError::MissingBaseUrl => "missing origin base url",
            RouteError::MissingNodeId => "missing origin node id",
            RouteError::MissingStreamSessionId => "missing origin stream session id",
            RouteError::MissingRouteVersion => "missing origin route version",
            RouteError::InvalidRouteVersion => "invalid origin route version",
            RouteError::Stale => "stale origin route",
            RouteError::Conflicting => "conflicting origin route",
            RouteError::RouteNotSet => "origin route not set",
            RouteError::StreamKeyNotSet => "stream_key not set",
        }
    }
}

/// The route headers of a request, where it has them.
#[derive(Debug, PartialEq, Eq)]
pub struct RouteHeaders {
    pub origin_base_url: Option<String>,
    pub node_id: Option<String>,
    pub stream_session_id: Option<String>,
    pub route_version: Option<String>,
}

/// A base address without slashes at its end.
pub open spec fn normalized(origin: Seq<char>) -> Seq<char> {
    text::drop_trailing(origin, '/')
}

/// The headers that carry a route.
pub open spec fn route_fields(r: RouteView) -> Seq<(Seq<char>, Seq<char>)> {
    seq![
        (H_ORIGIN_BASE_URL@, r.origin_base_url),
        (H_ORIGIN_NODE_ID@, r.node_id),
        (H_ORIGIN_STREAM_SESSION_ID@, r.stream_session_id),
        (H_ORIGIN_ROUTE_VERSION@, text::decimal(r.route_version as nat)),
    ]
}

/// The route that four header values carry. The first that is missing is the error; a version
/// has to be a number.
pub open spec fn route_from(
    origin_base_url: Option<Seq<char>>,
    node_id: Option<Seq<char>>,
    stream_session_id: Option<Seq<char>>,
    route_version: Option<Seq<char>>,
) -> Result<RouteView, RouteError> {
    match (origin_base_url, node_id, stream_session_id, route_version) {
        (None, _, _, _) => Err(RouteError::MissingBaseUrl),
        (_, None, _, _) => Err(RouteError::MissingNodeId),
        (_, _, None, _) => Err(RouteError::MissingStreamSessionId),
        (_, _, _, None) => Err(RouteError::MissingRouteVersion),
        (Some(base), Some(node_id), Some(stream_session_id), Some(version)) => {
            match text::unsigned_value(version, u64::MAX as nat) {
                None => Err(RouteError::InvalidRouteVersion),
                Some(v) => Ok(
                    RouteView {
                        origin_base_url: normalized(base),
                        node_id,
                        stream_session_id,
                        route_version: v as u64,
                    },
                ),
            }
        },
    }
}

/// The route that a request's headers carry.
pub open spec fn route_from_headers(h: RouteHeaders) -> Result<RouteView, RouteError> {
    route_from(
        text::opt_text(h.origin_base_url),
        text::opt_text(h.node_id),
        text::opt_text(h.stream_session_id),
        text::opt_text(h.route_version),
    )
}

/// The view of a route or of the error in its place.
pub open spec fn route_result(r: Result<OriginRoute, RouteError>) -> Result<RouteView, RouteError> {
    match r {
        Ok(route) => Ok(route@),
        Err(e) => Err(e),
    }
}

/// `s` with its colons and slashes written as percent escapes.
pub open spec fn url_encoded(s: Seq<char>) -> Seq<char> {
    text::replace_char(text::replace_char(s, ':', "%3A"@), '/', "%2F"@)
}

/// A base address with the WebSocket scheme in place of the HTTP scheme.
pub open spec fn ws_base(origin_base_url: Seq<char>) -> Seq<char> {
    text::replace_text(
        text::replace_text(origin_base_url, "https://"@, "wss://"@),
        "http://"@,
        "ws://"@,
    )
}

/// The address of the playlist feed of a stream. A secret that is there and not empty is sent
/// with it.
pub open spec fn feed_url(
    stream_key: Seq<char>,
    origin_base_url: Seq<char>,
    secret: Option<Seq<char>>,
) -> Seq<char> {
    ws_base(origin_base_url) + "/internal/hls-ws/"@ + url_encoded(stream_key) + match secret {
        Some(s) if s.len() > 0 => "?origin_secret="@ + url_encoded(s),
        _ => Seq::empty(),
    }
}

/// How a request's route stands to the one that an object knows.
#[derive(Debug, Clone, Copy, PartialEq, Eq, Structural)]
pub enum RouteChange {
    /// The same stream from the same origin.
    Same,
    /// The first route that the object sees.
    First,
    /// A newer route, in place of the one it knows.
    Newer,
}

/// How a request's stream and route stand to those that an object knows, or why they are
/// refused: a stream must be named, the route must be complete, and only a newer version may
/// change anything.
pub open spec fn route_change(
    known: Option<RouteView>,
    known_key: Seq<char>,
    stream_key: Option<Seq<char>>,
    route: Result<RouteView, RouteError>,
) -> Result<RouteChange, RouteError> {
    if stream_key is None || stream_key->0.len() == 0 {
        Err(RouteError::MissingStreamKey)
    } else {
        match (route, known) {
            (Err(e), _) => Err(e),
            (Ok(_), None) => Ok(RouteChange::First),
            (Ok(new), Some(old_route)) => if old_route == new && known_key == stream_key->0 {
                Ok(RouteChange::Same)
            } else if new.route_version < old_route.route_version {
                Err(RouteError::Stale)
            } else if new.route_version == old_route.route_version {
                Err(RouteError::Conflicting)
            } else {
                Ok(RouteChange::Newer)
            },
        }
    }
}

/// Compares a request's stream and route with those that an object knows.
pub(crate) fn compare_route(
    known: &Option<OriginRoute>,
    known_key: &String,
    stream_key: &Option<String>,
    route: &Result<OriginRoute, RouteError>,
) -> (r: Result<RouteChange, RouteError>)
    ensures
        r == route_change(
            opt_route(*known),
            known_key@,
            text::opt_text(*stream_key),
            route_result(*route),
        ),
{
    let key = match stream_key {
        Some(key) => key,
        None => {
            return Err(RouteError::MissingStreamKey);
        },
    };
    if key.as_str().is_empty() {
        return Err(RouteError::MissingStreamKey);
    }
    let new = match route {
        Ok(new) => new,
        Err(e) => {
            return Err(*e);
        },
    };
    match known {
        Some(current) => if same_route(current, new) && *known_key == *key {
            Ok(RouteChange::Same)
        } else if new.route_version < current.route_version {
            Err(RouteError::Stale)
        } else if new.route_version == current.route_version {
            Err(RouteError::Conflicting)
        } else {
            Ok(RouteChange::Newer)
        },
        None => Ok(RouteChange::First),
    }
}

/// The version of the route that an object knows never goes down, and at one version it never
/// takes another route or another stream.
pub proof fn law_routes_only_move_forward(
    known: RouteView,
    known_key: Seq<char>,
    stream_key: Option<Seq<char>>,
    route: RouteView,
)
    ensures
        match route_change(Some(known), known_key, stream_key, Ok(route)) {
            Ok(RouteChange::Same) => route == known && stream_key == Some(known_key),
            Ok(RouteChange::Newer) => route.route_version > known.route_version,
            Ok(RouteChange::First) => false,
            Err(RouteError::Stale) => route.route_version < known.route_version,
            Err(RouteError::Conflicting) => route.route_version == known.route_version && (route
                != known || stream_key != Some(known_key)),
            Err(e) => e == RouteError::MissingStreamKey,
        },
{
}

/// Whether two routes are the same in every field.
pub fn same_route(a: &OriginRoute, b: &OriginRoute) -> (same: bool)
    ensures
        same == (a@ == b@),
{
    a.route_version == b.route_version && a.origin_base_url == b.origin_base_url && a.node_id
        == b.node_id && a.stream_session_id == b.stream_session_id
}

/// `origin` without slashes at its end.
pub fn normalize_origin_base(origin: &str) -> (s: String)
    ensures
        s@ == normalized(origin@),
{
    text::trim_end(origin, '/')
}

/// Adds the headers that carry `route`.
pub fn set_origin_route_headers(headers: &mut Vec<Header>, route: &OriginRoute)
    ensures
        http::fields(final(headers)@) == http::fields(old(headers)@) + route_fields(route@),
{
    http::push_header(headers, H_ORIGIN_BASE_URL, route.origin_base_url.as_str());
    http::push_header(headers, H_ORIGIN_NODE_ID, route.node_id.as_str());
    http::push_header(headers, H_ORIGIN_STREAM_SESSION_ID, route.stream_session_id.as_str());
    http::push_header(
        headers,
        H_ORIGIN_ROUTE_VERSION,
        text::to_decimal(route.route_version).as_str(),
    );
    assert(http::fields(headers@) =~= http::fields(old(headers)@) + route_fields(route@));
}

/// Reads the route that a request's headers carry.
pub fn origin_route_from_headers(headers: RouteHeaders) -> (r: Result<OriginRoute, RouteError>)
    ensures
        route_result(r) == route_from_headers(headers),
{
    let origin_base_url = match headers.origin_base_url {
        Some(v) => v,
        None => {
            return Err(RouteError::MissingBaseUrl);
        },
    };
    let node_id = match headers.node_id {
        Some(v) => v,
        None => {
            return Err(RouteError::MissingNodeId);
        },
    };
    let stream_session_id = match headers.stream_session_id {
        Some(v) => v,
        None => {
            return Err(RouteError::MissingStreamSessionId);
        },
    };
    let route_version = match headers.route_version {
        Some(v) => v,
        None => {
            return Err(RouteError::MissingRouteVersion);
        },
    };
    match text::parse_unsigned(route_version.as_str(), u64::MAX) {
        Some(route_version) => Ok(
            OriginRoute {
                origin_base_url: normalize_origin_base(origin_base_url.as_str()),
                node_id,
                stream_session_id,
                route_version,
            },
        ),
        None => Err(RouteError::InvalidRouteVersion),
    }
}

/// `s` with its colons and slashes written as percent escapes.
pub fn url_encode(s: &str) -> (r: String)
    ensures
        r@ == url_encoded(s@),
{
    let colons = text::substitute_char(s, ':', "%3A");
    text::substitute_char(colons.as_str(), '/', "%2F")
}

/// The address of the playlist feed of a stream.
pub fn build_ws_url(stream_key: &str, route: &OriginRoute, secret: Option<&str>) -> (r: Result<
    String,
    RouteError,
>)
    ensures
        r is Err <==> stream_key@.len() == 0,
        r matches Err(e) ==> e == RouteError::StreamKeyNotSet,
        r matches Ok(url) ==> url@ == feed_url(
            stream_key@,
            route.origin_base_url@,
            text::opt_str(secret),
        ),
{
    if stream_key.is_empty() {
        return Err(RouteError::StreamKeyNotSet);
    }
    let secure = text::substitute(route.origin_base_url.as_str(), "https://", "wss://");
    let mut url = text::substitute(secure.as_str(), "http://", "ws://");
    url.append("/internal/hls-ws/");
    url.append(url_encode(stream_key).as_str());
    let ghost plain = url@;
    assert(plain + Seq::empty() =~= plain);
    if let Some(secret) = secret {
        if !secret.is_empty() {
            url.append("?origin_secret=");
            url.append(url_encode(secret).as_str());
            assert(url@ =~= plain + ("?origin_secret="@ + url_encoded(secret@)));
        }
    }
    Ok(url)
}

/// A route is read back from the headers that carry it, with its base address normalized: a
/// route that is normalized already arrives unchanged.
pub proof fn law_route_headers_carry_the_route(r: RouteView)
    ensures
        route_from(
            Some(route_fields(r)[0].1),
            Some(route_fields(r)[1].1),
            Some(route_fields(r)[2].1),
            Some(route_fields(r)[3].1),
        ) == Ok::<_, RouteError>(
            (RouteView { origin_base_url: normalized(r.origin_base_url), ..r }),
        ),
        normalized(normalized(r.origin_base_url)) == normalized(r.origin_base_url),
{
    text::law_decimal_is_read_back(r.route_version as nat, u64::MAX as nat);
    text::law_drop_trailing_is_final(r.origin_base_url, '/');
}

/// An encoded text holds neither a colon nor a slash, so it stays one segment of a path.
pub proof fn law_encoded_text_is_one_segment(s: Seq<char>)
    ensures
        !url_encoded(s).contains(':'),
        !url_encoded(s).contains('/'),
{
    reveal_strlit("%3A");
    reveal_strlit("%2F");
    text::law_replace_char_leaves_none(s, ':', "%3A"@, ':');
    let colons = text::replace_char(s, ':', "%3A"@);
    text::law_replace_char_leaves_none(colons, '/', "%2F"@, ':');
    text::law_replace_char_leaves_none(colons, '/', "%2F"@, '/');
}

proof fn lemma_no_occurrence_after(front: Seq<char>, rest: Seq<char>, pat: Seq<char>)
    requires
        pat.len() > 0,
        !text::occurs(rest, pat),
        forall|i: int| 0 <= i < front.len() ==> !text::occurs_at(front + rest, i, pat),
    ensures
        !text::occurs(front + rest, pat),
{
    if text::occurs(front + rest, pat) {
        let i = choose|i: int| text::occurs_at(front + rest, i, pat);
        let j = i - front.len();
        assert((front + rest).subrange(i, i + pat.len()) =~= rest.subrange(j, j + pat.len()));
        assert(text::occurs_at(rest, j, pat));
    }
}

/// The feed of an origin is reached over the WebSocket scheme that is as secure as the
/// origin's own.
pub proof fn law_feed_is_as_secure_as_the_origin(rest: Seq<char>)
    requires
        !text::occurs(rest, "https://"@),
        !text::occurs(rest, "http://"@),
    ensures
        ws_base("https://"@ + rest) == "wss://"@ + rest,
        ws_base("http://"@ + rest) == "ws://"@ + rest,
{
    reveal_strlit("https://");
    reveal_strlit("http://");
    reveal_strlit("wss://");
    reveal_strlit("ws://");
    let https = "https://"@;
    let http = "http://"@;
    text::law_replace_text_leaves_other_text(rest, https, "wss://"@);
    text::law_replace_text_leaves_other_text(rest, http, "ws://"@);

    let secure = https + rest;
    assert(secure.subrange(0, https.len() as int) =~= https);
    assert(secure.skip(https.len() as int) =~= rest);
    assert(text::replace_text(secure, https, "wss://"@) == "wss://"@ + rest);
    assert forall|i: int| 0 <= i < "wss://"@.len() implies !text::occurs_at(
        "wss://"@ + rest,
        i,
        http,
    ) by {
        if text::occurs_at("wss://"@ + rest, i, http) {
            assert(("wss://"@ + rest).subrange(i, i + http.len())[0] == 'h');
        }
    }
    lemma_no_occurrence_after("wss://"@, rest, http);
    text::law_replace_text_leaves_other_text("wss://"@ + rest, http, "ws://"@);

    let plain = http + rest;
    assert forall|i: int| 0 <= i < http.len() implies !text::occurs_at(plain, i, https) by {
        if text::occurs_at(plain, i, https) {
            let found = plain.subrange(i, i + https.len());
            assert(found[0] == 'h');
            assert(found[4] == 's');
        }
    }
    lemma_no_occurrence_after(http, rest, https);
    text::law_replace_text_leaves_other_text(plain, https, "wss://"@);
    assert(plain.subrange(0, http.len() as int) =~= http);
    assert(plain.skip(http.len() as int) =~= rest);
}

/// A route is read if and only if its four values are there and the version is a number. Node and
/// session are taken as they are, and of the base address only slashes at its end are dropped.
/// Otherwise the first value that is missing is the error.
pub proof fn law_routes_are_read_as_they_are(
    base: Option<Seq<char>>,
    node: Option<Seq<char>>,
    session: Option<Seq<char>>,
    version: Option<Seq<char>>,
)
    ensures
        ({
            let r = route_from(base, node, session, version);
            &&& r == Err::<RouteView, _>(RouteError::MissingBaseUrl) <==> base is None
            &&& r == Err::<RouteView, _>(RouteError::MissingNodeId) <==> base is Some && node is None
            &&& r == Err::<RouteView, _>(RouteError::MissingStreamSessionId) <==> base is Some
                && node is Some && session is None
            &&& r == Err::<RouteView, _>(RouteError::MissingRouteVersion) <==> base is Some
                && node is Some && session is Some && version is None
            &&& r == Err::<RouteView, _>(RouteError::InvalidRouteVersion) <==> base is Some
                && node is Some && session is Some && version is Some && text::unsigned_value(
                version->0,
                0xffff_ffff_ffff_ffff,
            ) is None
            &&& r is Ok <==> base is Some && node is Some && session is Some && version is Some
                && text::unsigned_value(version->0, 0xffff_ffff_ffff_ffff) is Some
            &&& r matches Ok(route) ==> {
                let kept = route.origin_base_url.len();
                &&& route.node_id == node->0
                &&& route.stream_session_id == session->0
                &&& text::unsigned_value(version->0, 0xffff_ffff_ffff_ffff) == Some(
                    route.route_version as nat,
                )
                &&& kept <= base->0.len()
                &&& route.origin_base_url == base->0.take(kept as int)
                &&& forall|i: int| kept <= i < base->0.len() ==> base->0[i] == '/'
                &&& kept > 0 ==> route.origin_base_url.last() != '/'
            }
        }),
{
    if let Some(b) = base {
        text::law_drop_trailing_drops_a_run(b, '/');
    }
}

/// Of a base address only slashes at its end are dropped, and all of them.
pub proof fn law_base_addresses_lose_only_slashes(origin: Seq<char>)
    ensures
        ({
            let n = normalized(origin);
            &&& n.len() <= origin.len()
            &&& n == origin.take(n.len() as int)
            &&& forall|i: int| n.len() <= i < origin.len() ==> origin[i] == '/'
            &&& n.len() > 0 ==> n.last() != '/'
        }),
{
    text::law_drop_trailing_drops_a_run(origin, '/');
}

/// A request without a stream is refused for that, and one without a complete route for what is
/// wrong with the route. Otherwise the first route is taken, and after it a route counts by its
/// version: a newer one is always taken, whatever else it says, an older one never, and of the
/// same version only the very same route for the very same stream.
pub proof fn law_newer_routes_are_always_taken(
    known: RouteView,
    known_key: Seq<char>,
    stream_key: Option<Seq<char>>,
    new: RouteView,
    e: RouteError,
    anything: Option<RouteView>,
    route: Result<RouteView, RouteError>,
)
    ensures
        stream_key is None || stream_key->0.len() == 0 ==> route_change(
            anything,
            known_key,
            stream_key,
            route,
        ) == Err::<RouteChange, _>(RouteError::MissingStreamKey),
        stream_key is Some && stream_key->0.len() > 0 ==> {
            let change = route_change(Some(known), known_key, stream_key, Ok(new));
            &&& route_change(anything, known_key, stream_key, Err(e)) == Err::<RouteChange, _>(e)
            &&& route_change(None, known_key, stream_key, Ok(new)) == Ok::<_, RouteError>(
                RouteChange::First,
            )
            &&& change == Ok::<_, RouteError>(RouteChange::Newer) <==> new.route_version
                > known.route_version
            &&& change == Err::<RouteChange, _>(RouteError::Stale) <==> new.route_version
                < known.route_version
            &&& change == Ok::<_, RouteError>(RouteChange::Same) <==> new == known && stream_key->0
                == known_key
            &&& change == Err::<RouteChange, _>(RouteError::Conflicting) <==> new.route_version
                == known.route_version && (new != known || stream_key->0 != known_key)
        },
{
}

/// A text is encoded character by character: a colon becomes `%3A`, a slash `%2F`, and any other
/// character stays.
pub proof fn law_texts_are_encoded_character_by_character(a: Seq<char>, b: Seq<char>, c: char)
    ensures
        url_encoded(Seq::empty()) == Seq::<char>::empty(),
        url_encoded(a + b) == url_encoded(a) + url_encoded(b),
        url_encoded(seq![':']) == seq!['%', '3', 'A'],
        url_encoded(seq!['/']) == seq!['%', '2', 'F'],
        c != ':' && c != '/' ==> url_encoded(seq![c]) == seq![c],
{
    reveal_strlit("%3A");
    reveal_strlit("%2F");
    assert("%3A"@ =~= seq!['%', '3', 'A']);
    assert("%2F"@ =~= seq!['%', '2', 'F']);
    let colon = "%3A"@;
    let slash = "%2F"@;
    text::law_replace_char_acts_on_each_character(a, b, ':', colon, c);
    text::law_replace_char_acts_on_each_character(a, b, ':', colon, '/');
    text::law_replace_char_acts_on_each_character(
        text::replace_char(a, ':', colon),
        text::replace_char(b, ':', colon),
        '/',
        slash,
        c,
    );
    text::law_replace_char_acts_on_each_character(seq!['%'], seq!['3'], '/', slash, '%');
    text::law_replace_char_acts_on_each_character(
        seq!['%'] + seq!['3'],
        seq!['A'],
        '/',
        slash,
        '3',
    );
    text::law_replace_char_acts_on_each_character(a, b, '/', slash, 'A');
    assert(seq!['%'] + seq!['3'] + seq!['A'] =~= colon);
}

/// The feed of a stream lies below the base address of its origin, under the encoded key of the
/// stream. The secret is sent if and only if there is one, encoded, and nothing stands behind it.
pub proof fn law_feeds_lie_below_the_origin(key: Seq<char>, base: Seq<char>, secret: Seq<char>)
    ensures
        feed_url(key, base, None) == ws_base(base) + "/internal/hls-ws/"@ + url_encoded(key),
        secret.len() == 0 ==> feed_url(key, base, Some(secret)) == feed_url(key, base, None),
        secret.len() > 0 ==> feed_url(key, base, Some(secret)) == feed_url(key, base, None)
            + "?origin_secret="@ + url_encoded(secret),
        ws_base(base) == text::replace_text(
            text::replace_text(base, "https://"@, "wss://"@),
            "http://"@,
            "ws://"@,
        ),
        !text::occurs(base, "https://"@) && !text::occurs(base, "http://"@) ==> ws_base(base)
            == base,
{
    let plain = ws_base(base) + "/internal/hls-ws/"@ + url_encoded(key);
    assert(plain + Seq::<char>::empty() =~= plain);
    assert(plain + ("?origin_secret="@ + url_encoded(secret)) =~= plain + "?origin_secret="@
        + url_encoded(secret));
    if !text::occurs(base, "https://"@) {
        text::law_replace_text_leaves_other_text(base, "https://"@, "wss://"@);
    }
    if !text::occurs(base, "http://"@) {
        text::law_replace_text_leaves_other_text(base, "http://"@, "ws://"@);
    }
}

/// A route is carried by four headers, one for each of its parts.
pub proof fn law_routes_are_carried_by_four_headers(r: RouteView)
    ensures
        route_fields(r).len() == 4,
        route_fields(r)[0] == ("X-Origin-Base-Url"@, r.origin_base_url),
        route_fields(r)[1] == ("X-Origin-Node-Id"@, r.node_id),
        route_fields(r)[2] == ("X-Origin-Stream-Session-Id"@, r.stream_session_id),
        route_fields(r)[3] == ("X-Origin-Route-Version"@, text::decimal(r.route_version as nat)),
{
}

/// Routes and the headers of a request are taken as they are.
pub proof fn law_routes_are_taken_as_they_are(r: OriginRoute, e: RouteError, h: RouteHeaders)
    ensures
        r@.origin_base_url == r.origin_base_url@,
        r@.node_id == r.node_id@,
        r@.stream_session_id == r.stream_session_id@,
        r@.route_version == r.route_version,
        opt_route(Some(r)) == Some(r@),
        opt_route(None) is None,
        route_result(Ok(r)) == Ok::<_, RouteError>(r@),
        route_result(Err(e)) == Err::<RouteView, _>(e),
        route_from_headers(h) == route_from(
            text::opt_text(h.origin_base_url),
            text::opt_text(h.node_id),
            text::opt_text(h.stream_session_id),
            text::opt_text(h.route_version),
        ),
{
}

} // verus!
