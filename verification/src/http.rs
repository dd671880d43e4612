//! HTTP headers and the replies that the worker and its objects give.

use crate::text;
use vstd::prelude::*;

verus! {

/// One header field.
#[derive(Debug, PartialEq, Eq)]
pub struct Header {
    pub name: String,
    pub value: String,
}

impl View for Header {
    type V = (Seq<char>, Seq<char>);

    open spec fn view(&self) -> (Seq<char>, Seq<char>) {
        (self.name@, self.value@)
    }
}

/// The names and values of a list of headers.
pub open spec fn fields(headers: Seq<Header>) -> Seq<(Seq<char>, Seq<char>)> {
    headers.map_values(|h: Header| h@)
}

/// A complete HTTP reply.
#[derive(Debug, PartialEq, Eq)]
pub struct Reply {
    pub status: u16,
    pub body: String,
    pub headers: Vec<Header>,
}

/// What a reply says.
#[verifier::ext_equal]
pub struct ReplyView {
    pub status: u16,
    pub body: Seq<char>,
    pub headers: Seq<(Seq<char>, Seq<char>)>,
}

impl View for Reply {
    type V = ReplyView;

    open spec fn view(&self) -> ReplyView {
        ReplyView { status: self.status, body: self.body@, headers: fields(self.headers@) }
    }
}

/// The reply behind an optional one.
pub open spec fn opt_reply(o: Option<Reply>) -> Option<ReplyView> {
    match o {
        Some(r) => Some(r@),
        None => None,
    }
}

/// An error that scripts of any site may read.
pub open spec fn cors_error_view(msg: Seq<char>, status: u16) -> ReplyView {
    ReplyView {
        status,
        body: msg,
        headers: seq![("Access-Control-Allow-Origin"@, "*"@)],
    }
}

/// A low-latency playlist: never cached, with the number of waiting requests.
pub open spec fn ll_playlist_view(playlist: Seq<char>, waiter_count: nat) -> ReplyView {
    ReplyView {
        status: 200,
        body: playlist,
        headers: seq![
            ("Content-Type"@, "application/vnd.apple.mpegurl"@),
            ("Cache-Control"@, "no-store"@),
            ("Access-Control-Allow-Origin"@, "*"@),
            ("X-Waiter-Count"@, text::decimal(waiter_count)),
        ],
    }
}

/// A simple playlist: cached for a second, with the number of viewers.
pub open spec fn simple_playlist_view(playlist: Seq<char>, viewer_count: nat) -> ReplyView {
    ReplyView {
        status: 200,
        body: playlist,
        headers: seq![
            ("Content-Type"@, "application/vnd.apple.mpegurl"@),
            ("Cache-Control"@, "public, max-age=1, stale-while-revalidate=1"@),
            ("Access-Control-Allow-Origin"@, "*"@),
            ("X-Viewer-Count"@, text::decimal(viewer_count)),
        ],
    }
}

/// A master playlist: never cached.
pub open spec fn master_playlist_view(playlist: Seq<char>) -> ReplyView {
    ReplyView {
        status: 200,
        body: playlist,
        headers: seq![
            ("Content-Type"@, "application/vnd.apple.mpegurl"@),
            ("Cache-Control"@, "no-store"@),
            ("Access-Control-Allow-Origin"@, "*"@),
        ],
    }
}

/// The refusal of a shard that has no room for another waiting request.
pub open spec fn shard_full_view() -> ReplyView {
    ReplyView { status: 503, body: "Shard full"@, headers: Seq::empty() }
}

/// The handshake fields of a viewer's WebSocket upgrade, where the request has them.
#[derive(Debug, PartialEq, Eq)]
pub struct WsHandshake {
    pub upgrade: Option<String>,
    pub connection: Option<String>,
    pub key: Option<String>,
    pub version: Option<String>,
    pub extensions: Option<String>,
    pub protocol: Option<String>,
}

/// A header that is there only if it has a value.
pub open spec fn optional_field(name: Seq<char>, value: Option<String>) -> Seq<
    (Seq<char>, Seq<char>),
> {
    match text::opt_text(value) {
        Some(v) => seq![(name, v)],
        None => Seq::empty(),
    }
}

/// The headers of a forwarded upgrade: the handshake as it came, `Upgrade` and `Connection`
/// with their standard values where the request had none, and the routing headers.
pub open spec fn ws_headers_view(
    h: WsHandshake,
    stream_key: Seq<char>,
    is_viewer_ws: bool,
) -> Seq<(Seq<char>, Seq<char>)> {
    optional_field("Upgrade"@, h.upgrade) + optional_field("Connection"@, h.connection)
        + optional_field("Sec-WebSocket-Key"@, h.key) + optional_field(
        "Sec-WebSocket-Version"@,
        h.version,
    ) + optional_field("Sec-WebSocket-Extensions"@, h.extensions) + optional_field(
        "Sec-WebSocket-Protocol"@,
        h.protocol,
    ) + (if h.upgrade is None {
        seq![("Upgrade"@, "websocket"@)]
    } else {
        Seq::empty()
    }) + (if h.connection is None {
        seq![("Connection"@, "Upgrade"@)]
    } else {
        Seq::empty()
    }) + seq![("X-Stream-Key"@, stream_key)] + (if is_viewer_ws {
        seq![("X-Viewer-WS"@, "1"@)]
    } else {
        Seq::empty()
    })
}

/// The value of a header in a list where a later entry replaces an earlier one.
pub open spec fn value_of(fields: Seq<(Seq<char>, Seq<char>)>, name: Seq<char>) -> Option<Seq<char>>
    decreases fields.len(),
{
    if fields.len() == 0 {
        None
    } else if fields.last().0 == name {
        Some(fields.last().1)
    } else {
        value_of(fields.drop_last(), name)
    }
}

/// Whether scripts of any site may read a reply.
pub open spec fn open_to_all(r: ReplyView) -> bool {
    value_of(r.headers, "Access-Control-Allow-Origin"@) == Some("*"@)
}

/// Scripts of any site may read every error and every playlist.
pub proof fn law_replies_are_open_to_all(msg: Seq<char>, status: u16, playlist: Seq<char>, n: nat)
    ensures
        open_to_all(cors_error_view(msg, status)),
        open_to_all(ll_playlist_view(playlist, n)),
        open_to_all(simple_playlist_view(playlist, n)),
        open_to_all(master_playlist_view(playlist)),
{
    reveal_with_fuel(value_of, 2);
    reveal_strlit("Access-Control-Allow-Origin");
    reveal_strlit("X-Waiter-Count");
    reveal_strlit("X-Viewer-Count");
    assert("Access-Control-Allow-Origin"@.len() == 27);
    assert("X-Waiter-Count"@.len() == 14);
    assert("X-Viewer-Count"@.len() == 14);
}

pub(crate) proof fn lemma_value_of_concat(
    a: Seq<(Seq<char>, Seq<char>)>,
    b: Seq<(Seq<char>, Seq<char>)>,
    name: Seq<char>,
)
    ensures
        value_of(a + b, name) == (match value_of(b, name) {
            Some(v) => Some(v),
            None => value_of(a, name),
        }),
    decreases b.len(),
{
    if b.len() == 0 {
        assert(a + b =~= a);
    } else {
        assert((a + b).drop_last() =~= a + b.drop_last());
        lemma_value_of_concat(a, b.drop_last(), name);
    }
}

pub(crate) proof fn lemma_value_of_absent(fields: Seq<(Seq<char>, Seq<char>)>, name: Seq<char>)
    requires
        forall|i: int| 0 <= i < fields.len() ==> (#[trigger] fields[i]).0 != name,
    ensures
        value_of(fields, name) is None,
    decreases fields.len(),
{
    if fields.len() > 0 {
        assert(fields[fields.len() - 1].0 != name);
        assert forall|i: int| 0 <= i < fields.drop_last().len() implies (
        #[trigger] fields.drop_last()[i]).0 != name by {
            assert(fields.drop_last()[i] == fields[i]);
        }
        lemma_value_of_absent(fields.drop_last(), name);
    }
}

/// Adds one header to a list.
pub(crate) fn push_header(headers: &mut Vec<Header>, name: &str, value: &str)
    ensures
        fields(final(headers)@) == fields(old(headers)@).push((name@, value@)),
{
    let ghost before = headers@;
    headers.push(Header { name: name.to_owned(), value: value.to_owned() });
    assert(fields(headers@) =~= fields(before).push((name@, value@)));
}

fn push_optional(headers: &mut Vec<Header>, name: &str, value: &Option<String>)
    ensures
        fields(final(headers)@) == fields(old(headers)@) + optional_field(name@, *value),
{
    if let Some(v) = value {
        push_header(headers, name, v.as_str());
    }
    assert(fields(headers@) =~= fields(old(headers)@) + optional_field(name@, *value));
}

/// The headers that answer a CORS preflight request.
pub fn preflight_headers() -> (headers: Vec<Header>)
    ensures
        fields(headers@) == seq![
            ("Access-Control-Allow-Origin"@, "*"@),
            ("Access-Control-Allow-Methods"@, "GET, OPTIONS"@),
            ("Access-Control-Allow-Headers"@, "*"@),
            ("Access-Control-Max-Age"@, "86400"@),
        ],
{
    let mut headers: Vec<Header> = Vec::new();
    assert(fields(headers@) =~= Seq::empty());
    push_header(&mut headers, "Access-Control-Allow-Origin", "*");
    push_header(&mut headers, "Access-Control-Allow-Methods", "GET, OPTIONS");
    push_header(&mut headers, "Access-Control-Allow-Headers", "*");
    push_header(&mut headers, "Access-Control-Max-Age", "86400");
    headers
}

/// The header that a relayed playlist gets on top of its own.
pub fn cors_header() -> (header: Header)
    ensures
        header@ == ("Access-Control-Allow-Origin"@, "*"@),
{
    Header { name: "Access-Control-Allow-Origin".to_owned(), value: "*".to_owned() }
}

/// An error reply with a CORS header.
pub(crate) fn cors_error(msg: &str, status: u16) -> (reply: Reply)
    requires
        400 <= status <= 599,
    ensures
        reply@ == cors_error_view(msg@, status),
{
    let mut headers: Vec<Header> = Vec::new();
    assert(fields(headers@) =~= Seq::empty());
    push_header(&mut headers, "Access-Control-Allow-Origin", "*");
    Reply { status, body: msg.to_owned(), headers }
}

/// The reply that carries a low-latency playlist.
pub fn ll_playlist_response(playlist: &str, waiter_count: u32) -> (reply: Reply)
    ensures
        reply@ == ll_playlist_view(playlist@, waiter_count as nat),
{
    let mut headers: Vec<Header> = Vec::new();
    assert(fields(headers@) =~= Seq::empty());
    push_header(&mut headers, "Content-Type", "application/vnd.apple.mpegurl");
    push_header(&mut headers, "Cache-Control", "no-store");
    push_header(&mut headers, "Access-Control-Allow-Origin", "*");
    push_header(&mut headers, "X-Waiter-Count", text::to_decimal(waiter_count as u64).as_str());
    Reply { status: 200, body: playlist.to_owned(), headers }
}

/// The reply that carries a simple playlist.
pub fn simple_playlist_response(playlist: &str, viewer_count: u32) -> (reply: Reply)
    ensures
        reply@ == simple_playlist_view(playlist@, viewer_count as nat),
{
    let mut headers: Vec<Header> = Vec::new();
    assert(fields(headers@) =~= Seq::empty());
    push_header(&mut headers, "Content-Type", "application/vnd.apple.mpegurl");
    push_header(&mut headers, "Cache-Control", "public, max-age=1, stale-while-revalidate=1");
    push_header(&mut headers, "Access-Control-Allow-Origin", "*");
    push_header(&mut headers, "X-Viewer-Count", text::to_decimal(viewer_count as u64).as_str());
    Reply { status: 200, body: playlist.to_owned(), headers }
}

/// The reply that carries a master playlist.
pub fn master_playlist_response(playlist: &str) -> (reply: Reply)
    ensures
        reply@ == master_playlist_view(playlist@),
{
    let mut headers: Vec<Header> = Vec::new();
    assert(fields(headers@) =~= Seq::empty());
    push_header(&mut headers, "Content-Type", "application/vnd.apple.mpegurl");
    push_header(&mut headers, "Cache-Control", "no-store");
    push_header(&mut headers, "Access-Control-Allow-Origin", "*");
    Reply { status: 200, body: playlist.to_owned(), headers }
}

/// The refusal of a full shard.
pub fn shard_full() -> (reply: Reply)
    ensures
        reply@ == shard_full_view(),
{
    let headers: Vec<Header> = Vec::new();
    assert(fields(headers@) =~= Seq::empty());
    Reply { status: 503, body: "Shard full".to_owned(), headers }
}

/// Builds the forwarding headers of a viewer's WebSocket upgrade.
///
/// The handshake fields are copied so that the object sees a proper upgrade, and the
/// routing headers name the stream and mark the request as a viewer's.
pub fn copy_ws_headers(h: &WsHandshake, stream_key: &str, is_viewer_ws: bool) -> (headers: Vec<
    Header,
>)
    ensures
        fields(headers@) == ws_headers_view(*h, stream_key@, is_viewer_ws),
{
    let mut headers: Vec<Header> = Vec::new();
    assert(fields(headers@) =~= Seq::empty());
    push_optional(&mut headers, "Upgrade", &h.upgrade);
    assert(fields(headers@) =~= optional_field("Upgrade"@, h.upgrade));
    push_optional(&mut headers, "Connection", &h.connection);
    push_optional(&mut headers, "Sec-WebSocket-Key", &h.key);
    push_optional(&mut headers, "Sec-WebSocket-Version", &h.version);
    push_optional(&mut headers, "Sec-WebSocket-Extensions", &h.extensions);
    push_optional(&mut headers, "Sec-WebSocket-Protocol", &h.protocol);
    if h.upgrade.is_none() {
        push_header(&mut headers, "Upgrade", "websocket");
    }
    if h.connection.is_none() {
        push_header(&mut headers, "Connection", "Upgrade");
    }
    push_header(&mut headers, "X-Stream-Key", stream_key);
    if is_viewer_ws {
        push_header(&mut headers, "X-Viewer-WS", "1");
    }
    assert(fields(headers@) =~= ws_headers_view(*h, stream_key@, is_viewer_ws));
    headers
}

/// A playlist is handed out whole and unchanged: the status is 200, the body is the playlist, and
/// the headers name its type, who may read it and how long it may be kept.
pub proof fn law_playlist_replies_carry_the_playlist(playlist: Seq<char>, n: nat)
    ensures
        ({
            let r = ll_playlist_view(playlist, n);
            &&& r.status == 200
            &&& r.body == playlist
            &&& r.headers.len() == 4
            &&& r.headers[0] == ("Content-Type"@, "application/vnd.apple.mpegurl"@)
            &&& r.headers[1] == ("Cache-Control"@, "no-store"@)
            &&& r.headers[2] == ("Access-Control-Allow-Origin"@, "*"@)
            &&& r.headers[3] == ("X-Waiter-Count"@, text::decimal(n))
        }),
        ({
            let r = simple_playlist_view(playlist, n);
            &&& r.status == 200
            &&& r.body == playlist
            &&& r.headers.len() == 4
            &&& r.headers[0] == ("Content-Type"@, "application/vnd.apple.mpegurl"@)
            &&& r.headers[1] == (
                "Cache-Control"@,
                "public, max-age=1, stale-while-revalidate=1"@,
            )
            &&& r.headers[2] == ("Access-Control-Allow-Origin"@, "*"@)
            &&& r.headers[3] == ("X-Viewer-Count"@, text::decimal(n))
        }),
        ({
            let r = master_playlist_view(playlist);
            &&& r.status == 200
            &&& r.body == playlist
            &&& r.headers.len() == 3
            &&& r.headers[0] == ("Content-Type"@, "application/vnd.apple.mpegurl"@)
            &&& r.headers[1] == ("Cache-Control"@, "no-store"@)
            &&& r.headers[2] == ("Access-Control-Allow-Origin"@, "*"@)
        }),
{
}

/// An error has the status and the message that it was given, and one header. A full shard is
/// told by its status.
pub proof fn law_errors_carry_their_message(msg: Seq<char>, status: u16)
    ensures
        cors_error_view(msg, status).status == status,
        cors_error_view(msg, status).body == msg,
        cors_error_view(msg, status).headers.len() == 1,
        cors_error_view(msg, status).headers[0] == ("Access-Control-Allow-Origin"@, "*"@),
        shard_full_view().status == 503,
        shard_full_view().body == "Shard full"@,
        shard_full_view().headers.len() == 0,
{
}

/// A reply, its headers and an optional reply are taken as they are.
pub proof fn law_replies_are_taken_as_they_are(r: Reply)
    ensures
        r@.status == r.status,
        r@.body == r.body@,
        r@.headers.len() == r.headers@.len(),
        forall|i: int|
            0 <= i < r.headers@.len() ==> #[trigger] r@.headers[i] == (
                r.headers@[i].name@,
                r.headers@[i].value@,
            ),
        opt_reply(Some(r)) == Some(r@),
        opt_reply(None) is None,
{
}

/// In a list of headers the last entry of a name counts.
pub proof fn law_last_header_counts(
    list: Seq<(Seq<char>, Seq<char>)>,
    name: Seq<char>,
    value: Seq<char>,
    other: Seq<char>,
)
    ensures
        value_of(Seq::empty(), name) is None,
        value_of(list.push((name, value)), name) == Some(value),
        other != name ==> value_of(list.push((name, value)), other) == value_of(list, other),
{
    assert(list.push((name, value)).drop_last() =~= list);
}

/// A forwarded upgrade has the handshake fields of the request unchanged, with `Upgrade` and
/// `Connection` in any case. It names the stream and, for a viewer, says so. It has no other
/// headers.
pub proof fn law_upgrades_are_forwarded_as_they_came(
    h: WsHandshake,
    stream_key: Seq<char>,
    is_viewer_ws: bool,
    other: Seq<char>,
)
    ensures
        ({
            let f = ws_headers_view(h, stream_key, is_viewer_ws);
            &&& value_of(f, "Upgrade"@) == (match h.upgrade {
                Some(v) => Some(v@),
                None => Some("websocket"@),
            })
            &&& value_of(f, "Connection"@) == (match h.connection {
                Some(v) => Some(v@),
                None => Some("Upgrade"@),
            })
            &&& value_of(f, "Sec-WebSocket-Key"@) == text::opt_text(h.key)
            &&& value_of(f, "Sec-WebSocket-Version"@) == text::opt_text(h.version)
            &&& value_of(f, "Sec-WebSocket-Extensions"@) == text::opt_text(h.extensions)
            &&& value_of(f, "Sec-WebSocket-Protocol"@) == text::opt_text(h.protocol)
            &&& value_of(f, "X-Stream-Key"@) == Some(stream_key)
            &&& value_of(f, "X-Viewer-WS"@) == (if is_viewer_ws {
                Some("1"@)
            } else {
                None
            })
            &&& other != "Upgrade"@ && other != "Connection"@ && other != "Sec-WebSocket-Key"@
                && other != "Sec-WebSocket-Version"@ && other != "Sec-WebSocket-Extensions"@
                && other != "Sec-WebSocket-Protocol"@ && other != "X-Stream-Key"@ && other
                != "X-Viewer-WS"@ ==> value_of(f, other) is None
        }),
{
    lemma_handshake_names_differ();
    lemma_upgrade_value(h, stream_key, is_viewer_ws, "Upgrade"@);
    lemma_upgrade_value(h, stream_key, is_viewer_ws, "Connection"@);
    lemma_upgrade_value(h, stream_key, is_viewer_ws, "Sec-WebSocket-Key"@);
    lemma_upgrade_value(h, stream_key, is_viewer_ws, "Sec-WebSocket-Version"@);
    lemma_upgrade_value(h, stream_key, is_viewer_ws, "Sec-WebSocket-Extensions"@);
    lemma_upgrade_value(h, stream_key, is_viewer_ws, "Sec-WebSocket-Protocol"@);
    lemma_upgrade_value(h, stream_key, is_viewer_ws, "X-Stream-Key"@);
    lemma_upgrade_value(h, stream_key, is_viewer_ws, "X-Viewer-WS"@);
    lemma_upgrade_value(h, stream_key, is_viewer_ws, other);
}

proof fn lemma_value_of_one(name: Seq<char>, value: Seq<char>, wanted: Seq<char>)
    ensures
        value_of(seq![(name, value)], wanted) == (if name == wanted {
            Some(value)
        } else {
            None
        }),
{
    reveal_with_fuel(value_of, 2);
    assert(seq![(name, value)].drop_last() =~= Seq::empty());
}

/// The value of one name in a forwarded upgrade: that of the last part that has it.
proof fn lemma_upgrade_value(
    h: WsHandshake,
    stream_key: Seq<char>,
    is_viewer_ws: bool,
    name: Seq<char>,
)
    ensures
        value_of(ws_headers_view(h, stream_key, is_viewer_ws), name) == (if name == "X-Viewer-WS"@
            && is_viewer_ws {
            Some("1"@)
        } else if name == "X-Stream-Key"@ {
            Some(stream_key)
        } else if name == "Connection"@ && h.connection is None {
            Some("Upgrade"@)
        } else if name == "Upgrade"@ && h.upgrade is None {
            Some("websocket"@)
        } else if name == "Sec-WebSocket-Protocol"@ && h.protocol is Some {
            text::opt_text(h.protocol)
        } else if name == "Sec-WebSocket-Extensions"@ && h.extensions is Some {
            text::opt_text(h.extensions)
        } else if name == "Sec-WebSocket-Version"@ && h.version is Some {
            text::opt_text(h.version)
        } else if name == "Sec-WebSocket-Key"@ && h.key is Some {
            text::opt_text(h.key)
        } else if name == "Connection"@ && h.connection is Some {
            text::opt_text(h.connection)
        } else if name == "Upgrade"@ && h.upgrade is Some {
            text::opt_text(h.upgrade)
        } else {
            None
        }),
{
    let empty = Seq::<(Seq<char>, Seq<char>)>::empty();
    let a = optional_field("Upgrade"@, h.upgrade);
    let b = optional_field("Connection"@, h.connection);
    let c = optional_field("Sec-WebSocket-Key"@, h.key);
    let d = optional_field("Sec-WebSocket-Version"@, h.version);
    let e = optional_field("Sec-WebSocket-Extensions"@, h.extensions);
    let g = optional_field("Sec-WebSocket-Protocol"@, h.protocol);
    let u = if h.upgrade is None {
        seq![("Upgrade"@, "websocket"@)]
    } else {
        empty
    };
    let n = if h.connection is None {
        seq![("Connection"@, "Upgrade"@)]
    } else {
        empty
    };
    let k = seq![("X-Stream-Key"@, stream_key)];
    let w = if is_viewer_ws {
        seq![("X-Viewer-WS"@, "1"@)]
    } else {
        empty
    };
    lemma_value_of_optional("Upgrade"@, h.upgrade, name);
    lemma_value_of_optional("Connection"@, h.connection, name);
    lemma_value_of_optional("Sec-WebSocket-Key"@, h.key, name);
    lemma_value_of_optional("Sec-WebSocket-Version"@, h.version, name);
    lemma_value_of_optional("Sec-WebSocket-Extensions"@, h.extensions, name);
    lemma_value_of_optional("Sec-WebSocket-Protocol"@, h.protocol, name);
    lemma_value_of_one("Upgrade"@, "websocket"@, name);
    lemma_value_of_one("Connection"@, "Upgrade"@, name);
    lemma_value_of_one("X-Stream-Key"@, stream_key, name);
    lemma_value_of_one("X-Viewer-WS"@, "1"@, name);
    lemma_value_of_concat(a, b, name);
    lemma_value_of_concat(a + b, c, name);
    lemma_value_of_concat(a + b + c, d, name);
    lemma_value_of_concat(a + b + c + d, e, name);
    lemma_value_of_concat(a + b + c + d + e, g, name);
    lemma_value_of_concat(a + b + c + d + e + g, u, name);
    lemma_value_of_concat(a + b + c + d + e + g + u, n, name);
    lemma_value_of_concat(a + b + c + d + e + g + u + n, k, name);
    lemma_value_of_concat(a + b + c + d + e + g + u + n + k, w, name);
}

proof fn lemma_value_of_optional(name: Seq<char>, value: Option<String>, wanted: Seq<char>)
    ensures
        value_of(optional_field(name, value), wanted) == (if name == wanted {
            text::opt_text(value)
        } else {
            None
        }),
{
    if let Some(v) = value {
        lemma_value_of_one(name, v@, wanted);
    }
}

proof fn lemma_handshake_names_differ()
    ensures
        "Upgrade"@.len() == 7,
        "Connection"@.len() == 10,
        "Sec-WebSocket-Key"@.len() == 17,
        "Sec-WebSocket-Version"@.len() == 21,
        "Sec-WebSocket-Extensions"@.len() == 24,
        "Sec-WebSocket-Protocol"@.len() == 22,
        "X-Stream-Key"@.len() == 12,
        "X-Viewer-WS"@.len() == 11,
{
    reveal_strlit("Upgrade");
    reveal_strlit("Connection");
    reveal_strlit("Sec-WebSocket-Key");
    reveal_strlit("Sec-WebSocket-Version");
    reveal_strlit("Sec-WebSocket-Extensions");
    reveal_strlit("Sec-WebSocket-Protocol");
    reveal_strlit("X-Stream-Key");
    reveal_strlit("X-Viewer-WS");
}

/// Whatever these functions return, a playlist is in it whole, and a preflight request is allowed
/// for everybody.
pub proof fn law_calls_hand_out_whole_playlists(
    playlist: &str,
    n: u32,
    ll: Reply,
    simple: Reply,
    master: Reply,
    preflight: Vec<Header>,
    cors: Header,
)
    requires
        call_ensures(ll_playlist_response, (playlist, n), ll),
        call_ensures(simple_playlist_response, (playlist, n), simple),
        call_ensures(master_playlist_response, (playlist,), master),
        call_ensures(preflight_headers, (), preflight),
        call_ensures(cors_header, (), cors),
    ensures
        ll.status == 200 && ll.body@ == playlist@,
        simple.status == 200 && simple.body@ == playlist@,
        master.status == 200 && master.body@ == playlist@,
        cors.name@ == "Access-Control-Allow-Origin"@ && cors.value@ == "*"@,
        preflight@.len() == 4,
        preflight@[0].name@ == "Access-Control-Allow-Origin"@ && preflight@[0].value@ == "*"@,
        preflight@[1].name@ == "Access-Control-Allow-Methods"@ && preflight@[1].value@
            == "GET, OPTIONS"@,
        preflight@[2].name@ == "Access-Control-Allow-Headers"@ && preflight@[2].value@ == "*"@,
        preflight@[3].name@ == "Access-Control-Max-Age"@ && preflight@[3].value@ == "86400"@,
{
    let f = fields(preflight@);
    assert(f.len() == 4);
    assert(f[0] == preflight@[0]@ && f[1] == preflight@[1]@);
    assert(f[2] == preflight@[2]@ && f[3] == preflight@[3]@);
    assert(ll@.body == ll.body@);
    assert(simple@.body == simple.body@);
    assert(master@.body == master.body@);
}

} // verus!
