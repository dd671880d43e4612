//! The playback paths that the worker serves.

use crate::text;
use vstd::prelude::*;

verus! {

/// What a path asks for.
#[derive(Debug, Clone, Copy, PartialEq, Eq, Structural)]
pub enum PlaylistType {
    /// The master playlist.
    Master,
    /// The low-latency playlist, by blocking request.
    LlHls,
    /// The simple playlist, by blocking request.
    Simple,
    /// The low-latency playlist, pushed over a WebSocket.
    LlHlsWs,
    /// The simple playlist, pushed over a WebSocket.
    SimpleWs,
    /// A media object. The worker serves none.
    Media,
}

/// A parsed playback path.
#[derive(Debug, PartialEq, Eq)]
pub struct ParsedRequest {
    pub token: String,
    pub stream_id: String,
    pub stream_key: String,
    pub playlist_type: PlaylistType,
}

/// What a parsed path says.
#[verifier::ext_equal]
pub struct ParsedView {
    pub token: Seq<char>,
    pub stream_id: Seq<char>,
    pub stream_key: Seq<char>,
    pub playlist_type: PlaylistType,
}

impl View for ParsedRequest {
    type V = ParsedView;

    open spec fn view(&self) -> ParsedView {
        ParsedView {
            token: self.token@,
            stream_id: self.stream_id@,
            stream_key: self.stream_key@,
            playlist_type: self.playlist_type,
        }
    }
}

/// The request behind an optional parsed path.
pub open spec fn opt_parsed(r: Option<ParsedRequest>) -> Option<ParsedView> {
    match r {
        Some(p) => Some(p@),
        None => None,
    }
}

/// The playlist type that a file name stands for.
pub open spec fn type_of_file(filename: Seq<char>) -> Option<PlaylistType> {
    if filename == "master.m3u8"@ {
        Some(PlaylistType::Master)
    } else if filename == "playlist.m3u8"@ {
        Some(PlaylistType::LlHls)
    } else if filename == "simple.m3u8"@ {
        Some(PlaylistType::Simple)
    } else if filename == "playlist-ws"@ {
        Some(PlaylistType::LlHlsWs)
    } else if filename == "simple-ws"@ {
        Some(PlaylistType::SimpleWs)
    } else {
        None
    }
}

/// The key of a rendition of a stream: `source` and `original` are the stream itself.
pub open spec fn rendition_key(stream_id: Seq<char>, rendition: Seq<char>) -> Seq<char> {
    if rendition == "source"@ || rendition == "original"@ {
        stream_id
    } else {
        stream_id.push(':') + rendition
    }
}

/// The request made by the segments that follow the token, or that follow `live` where a
/// path has none: a stream, at most one rendition, and a file name.
pub open spec fn request_of(token: Seq<char>, rest: Seq<Seq<char>>) -> Option<ParsedView> {
    if rest.len() == 2 {
        match type_of_file(rest[1]) {
            Some(playlist_type) => Some(
                ParsedView { token, stream_id: rest[0], stream_key: rest[0], playlist_type },
            ),
            None => None,
        }
    } else {
        match type_of_file(rest[2]) {
            Some(playlist_type) => Some(
                ParsedView {
                    token,
                    stream_id: rest[0],
                    stream_key: rendition_key(rest[0], rest[1]),
                    playlist_type,
                },
            ),
            None => None,
        }
    }
}

/// The segments of a path; slashes in front of the first are not counted.
pub open spec fn segments(path: Seq<char>) -> Seq<Seq<char>> {
    text::split(text::drop_leading(path, '/'), '/')
}

/// Whether the segments begin `hls/t/{token}/live/{stream_id}`.
pub open spec fn is_tokenized(segs: Seq<Seq<char>>) -> bool {
    segs.len() >= 5 && segs[0] == "hls"@ && segs[1] == "t"@ && segs[3] == "live"@
}

/// The request that a tokenized path makes.
///
/// `/hls/t/{token}/live/{stream_id}[/{rendition}]/{file}` with a playlist's file name is a
/// playlist request. Below a stream, a path of any other depth names a media object.
pub open spec fn parsed_path(path: Seq<char>) -> Option<ParsedView> {
    let segs = segments(path);
    if !is_tokenized(segs) {
        None
    } else if segs.len() == 6 || segs.len() == 7 {
        request_of(segs[2], segs.skip(4))
    } else {
        Some(
            ParsedView {
                token: segs[2],
                stream_id: segs[4],
                stream_key: segs[4],
                playlist_type: PlaylistType::Media,
            },
        )
    }
}

/// The request that a public path makes, which carries no token:
/// `/hls/live/{stream_id}[/{rendition}]/{file}`.
///
/// Only the files that are fetched over HTTP are public.
pub open spec fn parsed_public_path(path: Seq<char>) -> Option<ParsedView> {
    let segs = segments(path);
    if (segs.len() == 4 || segs.len() == 5) && segs[0] == "hls"@ && segs[1] == "live"@ {
        match request_of(Seq::empty(), segs.skip(2)) {
            Some(r) if is_http_playlist(r.playlist_type) && (r.playlist_type
                == PlaylistType::Master ==> segs.len() == 4) => Some(r),
            _ => None,
        }
    } else {
        None
    }
}

/// Whether a playlist of this type is fetched by a blocking HTTP request.
pub open spec fn is_http_playlist(t: PlaylistType) -> bool {
    t == PlaylistType::Master || t == PlaylistType::LlHls || t == PlaylistType::Simple
}

/// The path with these segments.
pub open spec fn path_of(segs: Seq<Seq<char>>) -> Seq<char> {
    seq!['/'] + text::join(segs, '/')
}

proof fn lemma_join_starts_with_first(parts: Seq<Seq<char>>, c: char)
    requires
        parts.len() >= 1,
    ensures
        parts[0].is_prefix_of(text::join(parts, c)),
    decreases parts.len(),
{
    if parts.len() > 1 {
        lemma_join_starts_with_first(parts.drop_last(), c);
    }
}

/// A path is the same as its segments, where none of them holds a slash and the first is
/// `hls`.
proof fn lemma_segments_of_path(segs: Seq<Seq<char>>)
    requires
        segs.len() >= 1,
        segs[0] == "hls"@,
        forall|i: int| 0 <= i < segs.len() ==> !(#[trigger] segs[i]).contains('/'),
    ensures
        segments(path_of(segs)) == segs,
{
    let joined = text::join(segs, '/');
    lemma_join_starts_with_first(segs, '/');
    reveal_strlit("hls");
    assert(joined[0] == segs[0][0]);
    assert(path_of(segs).drop_first() =~= joined);
    reveal_with_fuel(text::drop_leading, 2);
    assert(text::drop_leading(path_of(segs), '/') == joined);
    text::law_split_undoes_join(segs, '/');
}

proof fn lemma_fixed_segments_hold_no_slash()
    ensures
        !"hls"@.contains('/'),
        !"t"@.contains('/'),
        !"live"@.contains('/'),
{
    reveal_strlit("hls");
    reveal_strlit("t");
    reveal_strlit("live");
}

/// A playlist's path below a stream is parsed as a request for that stream's own playlist.
pub proof fn law_stream_path_is_parsed(token: Seq<char>, stream_id: Seq<char>, file: Seq<char>)
    requires
        !token.contains('/'),
        !stream_id.contains('/'),
        !file.contains('/'),
    ensures
        parsed_path(path_of(seq!["hls"@, "t"@, token, "live"@, stream_id, file])) == (
        match type_of_file(file) {
            Some(playlist_type) => Some(
                ParsedView { token, stream_id, stream_key: stream_id, playlist_type },
            ),
            None => None,
        }),
{
    let segs = seq!["hls"@, "t"@, token, "live"@, stream_id, file];
    lemma_fixed_segments_hold_no_slash();
    lemma_segments_of_path(segs);
}

/// A playlist's path below a rendition is parsed as a request for that rendition's playlist.
pub proof fn law_rendition_path_is_parsed(
    token: Seq<char>,
    stream_id: Seq<char>,
    rendition: Seq<char>,
    file: Seq<char>,
)
    requires
        !token.contains('/'),
        !stream_id.contains('/'),
        !rendition.contains('/'),
        !file.contains('/'),
    ensures
        parsed_path(path_of(seq!["hls"@, "t"@, token, "live"@, stream_id, rendition, file])) == (
        match type_of_file(file) {
            Some(playlist_type) => Some(
                ParsedView {
                    token,
                    stream_id,
                    stream_key: rendition_key(stream_id, rendition),
                    playlist_type,
                },
            ),
            None => None,
        }),
{
    let segs = seq!["hls"@, "t"@, token, "live"@, stream_id, rendition, file];
    lemma_fixed_segments_hold_no_slash();
    lemma_segments_of_path(segs);
}

/// Whatever is parsed has the shape of a tokenized path, slashes in front aside, and its
/// token and stream are the segments that stand there. It is a playlist request if and only if
/// its last segment, at the depth of a stream or a rendition, is a playlist's file name.
pub proof fn law_parsed_paths_are_tokenized(path: Seq<char>)
    ensures
        parsed_path(path) matches Some(p) ==> {
            let segs = segments(path);
            &&& text::drop_leading(path, '/') == text::join(segs, '/')
            &&& is_tokenized(segs)
            &&& p.token == segs[2]
            &&& p.stream_id == segs[4]
            &&& p.playlist_type != PlaylistType::Media <==> segs.len() == 6 || segs.len() == 7
            &&& p.playlist_type != PlaylistType::Media ==> type_of_file(segs.last()) == Some(
                p.playlist_type,
            )
        },
{
    text::law_split_loses_nothing(text::drop_leading(path, '/'), '/');
}

/// Slashes in front of a path change nothing.
pub proof fn law_leading_slashes_are_ignored(path: Seq<char>)
    ensures
        parsed_path(seq!['/'] + path) == parsed_path(path),
        parsed_public_path(seq!['/'] + path) == parsed_public_path(path),
{
    assert((seq!['/'] + path).drop_first() =~= path);
}

/// A public path and a tokenized path for the same stream and file ask for the same playlist
/// of the same stream.
pub proof fn law_public_path_agrees(token: Seq<char>, stream_id: Seq<char>, file: Seq<char>)
    requires
        !token.contains('/'),
        !stream_id.contains('/'),
        !file.contains('/'),
    ensures
        match (
            parsed_public_path(path_of(seq!["hls"@, "live"@, stream_id, file])),
            parsed_path(path_of(seq!["hls"@, "t"@, token, "live"@, stream_id, file])),
        ) {
            (Some(open), Some(closed)) => open == (ParsedView { token: Seq::empty(), ..closed }),
            (Some(_), None) => false,
            (None, Some(closed)) => !is_http_playlist(closed.playlist_type),
            (None, None) => true,
        },
{
    lemma_fixed_segments_hold_no_slash();
    lemma_segments_of_path(seq!["hls"@, "live"@, stream_id, file]);
    law_stream_path_is_parsed(token, stream_id, file);
}

/// A public path below a rendition asks for that rendition's playlist. There is no master
/// playlist of a rendition.
pub proof fn law_public_rendition_path_is_parsed(
    stream_id: Seq<char>,
    rendition: Seq<char>,
    file: Seq<char>,
)
    requires
        !stream_id.contains('/'),
        !rendition.contains('/'),
        !file.contains('/'),
    ensures
        parsed_public_path(path_of(seq!["hls"@, "live"@, stream_id, rendition, file])) == (
        match type_of_file(file) {
            Some(playlist_type) if playlist_type == PlaylistType::LlHls || playlist_type
                == PlaylistType::Simple => Some(
                ParsedView {
                    token: Seq::empty(),
                    stream_id,
                    stream_key: rendition_key(stream_id, rendition),
                    playlist_type,
                },
            ),
            _ => None,
        }),
{
    lemma_fixed_segments_hold_no_slash();
    lemma_segments_of_path(seq!["hls"@, "live"@, stream_id, rendition, file]);
}

/// The playlist type that `filename` stands for.
pub fn playlist_type(filename: &str) -> (t: Option<PlaylistType>)
    ensures
        t == type_of_file(filename@),
{
    if text::same_text(filename, "master.m3u8") {
        Some(PlaylistType::Master)
    } else if text::same_text(filename, "playlist.m3u8") {
        Some(PlaylistType::LlHls)
    } else if text::same_text(filename, "simple.m3u8") {
        Some(PlaylistType::Simple)
    } else if text::same_text(filename, "playlist-ws") {
        Some(PlaylistType::LlHlsWs)
    } else if text::same_text(filename, "simple-ws") {
        Some(PlaylistType::SimpleWs)
    } else {
        None
    }
}

fn stream_key(stream_id: &str, rendition: &str) -> (key: String)
    ensures
        key@ == rendition_key(stream_id@, rendition@),
{
    let mut key = stream_id.to_owned();
    if !text::same_text(rendition, "source") && !text::same_text(rendition, "original") {
        key.push(':');
        key.append(rendition);
    }
    key
}

fn playlist_request(token: &str, segs: &Vec<String>, from: usize) -> (r: Option<ParsedRequest>)
    requires
        from + 2 == segs@.len() || from + 3 == segs@.len(),
    ensures
        opt_parsed(r) == request_of(token@, text::texts(segs@).skip(from as int)),
{
    let ghost all = text::texts(segs@);
    assert(forall|i: int| 0 <= i < segs@.len() ==> #[trigger] all[i] == segs@[i]@);
    let last = segs.len() - 1;
    match playlist_type(segs[last].as_str()) {
        Some(playlist_type) => {
            let stream_id = segs[from].as_str();
            let key = if segs.len() - from == 2 {
                stream_id.to_owned()
            } else {
                stream_key(stream_id, segs[from + 1].as_str())
            };
            Some(
                ParsedRequest {
                    token: token.to_owned(),
                    stream_id: stream_id.to_owned(),
                    stream_key: key,
                    playlist_type,
                },
            )
        },
        None => None,
    }
}

fn path_segments(path: &str) -> (segs: Vec<String>)
    ensures
        text::texts(segs@) == segments(path@),
{
    let trimmed = text::trim_start(path, '/');
    text::split_on(trimmed.as_str(), '/')
}

/// Parses a tokenized playback path.
///
/// Playlists are relayed. Media objects are recognised so that they can be refused: they are
/// delivered by the CDN.
pub fn parse_playlist_path(path: &str) -> (r: Option<ParsedRequest>)
    ensures
        opt_parsed(r) == parsed_path(path@),
{
    let segs = path_segments(path);
    let ghost all = segments(path@);
    assert(forall|i: int| 0 <= i < segs@.len() ==> #[trigger] all[i] == segs@[i]@);
    if segs.len() < 5 || !text::same_text(segs[0].as_str(), "hls") || !text::same_text(
        segs[1].as_str(),
        "t",
    ) || !text::same_text(segs[3].as_str(), "live") {
        None
    } else if segs.len() == 6 || segs.len() == 7 {
        playlist_request(segs[2].as_str(), &segs, 4)
    } else {
        Some(
            ParsedRequest {
                token: segs[2].clone(),
                stream_id: segs[4].clone(),
                stream_key: segs[4].clone(),
                playlist_type: PlaylistType::Media,
            },
        )
    }
}

/// Parses a public playlist path, which carries no token.
pub fn parse_public_path(path: &str) -> (r: Option<ParsedRequest>)
    ensures
        opt_parsed(r) == parsed_public_path(path@),
{
    let segs = path_segments(path);
    let ghost all = segments(path@);
    assert(forall|i: int| 0 <= i < segs@.len() ==> #[trigger] all[i] == segs@[i]@);
    if (segs.len() == 4 || segs.len() == 5) && text::same_text(segs[0].as_str(), "hls")
        && text::same_text(segs[1].as_str(), "live") {
        match playlist_request("", &segs, 2) {
            Some(r) => {
                assert(""@ =~= Seq::<char>::empty()) by {
                    reveal_strlit("");
                }
                match r.playlist_type {
                    PlaylistType::Master => if segs.len() == 4 {
                        Some(r)
                    } else {
                        None
                    },
                    PlaylistType::LlHls | PlaylistType::Simple => Some(r),
                    _ => None,
                }
            },
            None => None,
        }
    } else {
        None
    }
}

/// A file name stands for a playlist if and only if it is one of five.
pub proof fn law_five_file_names_are_playlists(file: Seq<char>)
    ensures
        type_of_file(file) == Some(PlaylistType::Master) <==> file == "master.m3u8"@,
        type_of_file(file) == Some(PlaylistType::LlHls) <==> file == "playlist.m3u8"@,
        type_of_file(file) == Some(PlaylistType::Simple) <==> file == "simple.m3u8"@,
        type_of_file(file) == Some(PlaylistType::LlHlsWs) <==> file == "playlist-ws"@,
        type_of_file(file) == Some(PlaylistType::SimpleWs) <==> file == "simple-ws"@,
        type_of_file(file) != Some(PlaylistType::Media),
{
    reveal_strlit("master.m3u8");
    reveal_strlit("playlist.m3u8");
    reveal_strlit("simple.m3u8");
    reveal_strlit("playlist-ws");
    reveal_strlit("simple-ws");
    assert("master.m3u8"@[0] == 'm');
    assert("playlist.m3u8"@[0] == 'p');
    assert("simple.m3u8"@[0] == 's');
    assert("playlist-ws"@[0] == 'p');
    assert("simple-ws"@[0] == 's');
    assert("playlist.m3u8"@.len() == 13);
    assert("playlist-ws"@.len() == 11);
    assert("simple.m3u8"@.len() == 11);
    assert("simple-ws"@.len() == 9);
}

/// A path is parsed by its segments. It is `hls/t/{token}/live/{stream_id}` with more below: one
/// of the five file names, directly or below a rendition, or else a media object at another depth.
/// The key of a rendition is the stream, a colon and the rendition, except that `source` and
/// `original` are the stream itself.
pub proof fn law_paths_are_parsed_by_their_segments(path: Seq<char>)
    ensures
        ({
            let segs = text::split(text::drop_leading(path, '/'), '/');
            let below = segs.len() >= 5 && segs[0] == "hls"@ && segs[1] == "t"@ && segs[3]
                == "live"@;
            let file = segs[segs.len() - 1];
            let named = file == "master.m3u8"@ || file == "playlist.m3u8"@ || file
                == "simple.m3u8"@ || file == "playlist-ws"@ || file == "simple-ws"@;
            let near = segs.len() == 6 || segs.len() == 7;
            &&& parsed_path(path) is Some <==> below && (near ==> named)
            &&& parsed_path(path) matches Some(p) ==> {
                &&& p.token == segs[2]
                &&& p.stream_id == segs[4]
                &&& p.playlist_type == PlaylistType::Media <==> !near
                &&& p.playlist_type == PlaylistType::Master <==> near && file == "master.m3u8"@
                &&& p.playlist_type == PlaylistType::LlHls <==> near && file == "playlist.m3u8"@
                &&& p.playlist_type == PlaylistType::Simple <==> near && file == "simple.m3u8"@
                &&& p.playlist_type == PlaylistType::LlHlsWs <==> near && file == "playlist-ws"@
                &&& p.playlist_type == PlaylistType::SimpleWs <==> near && file == "simple-ws"@
                &&& segs.len() != 7 ==> p.stream_key == segs[4]
                &&& segs.len() == 7 && (segs[5] == "source"@ || segs[5] == "original"@)
                    ==> p.stream_key == segs[4]
                &&& segs.len() == 7 && segs[5] != "source"@ && segs[5] != "original"@
                    ==> p.stream_key == segs[4] + seq![':'] + segs[5]
            }
        }),
{
    let segs = text::split(text::drop_leading(path, '/'), '/');
    if segs.len() > 0 {
        law_five_file_names_are_playlists(segs[segs.len() - 1]);
    }
    if segs.len() == 7 {
        assert(segs[4].push(':') + segs[5] =~= segs[4] + seq![':'] + segs[5]);
    }
}

/// The same for public paths: `hls/live/{stream_id}` with one of the three file names below that
/// are fetched over HTTP, the master playlist only of the stream itself.
pub proof fn law_public_paths_are_parsed_by_their_segments(path: Seq<char>)
    ensures
        ({
            let segs = text::split(text::drop_leading(path, '/'), '/');
            let below = segs.len() >= 4 && segs[0] == "hls"@ && segs[1] == "live"@;
            let file = segs[segs.len() - 1];
            &&& parsed_public_path(path) is Some <==> below && (segs.len() == 4 && file
                == "master.m3u8"@ || (segs.len() == 4 || segs.len() == 5) && (file
                == "playlist.m3u8"@ || file == "simple.m3u8"@))
            &&& parsed_public_path(path) matches Some(p) ==> {
                &&& p.token.len() == 0
                &&& p.stream_id == segs[2]
                &&& p.playlist_type == PlaylistType::Master <==> file == "master.m3u8"@
                &&& p.playlist_type == PlaylistType::LlHls <==> file == "playlist.m3u8"@
                &&& p.playlist_type == PlaylistType::Simple <==> file == "simple.m3u8"@
                &&& segs.len() == 4 ==> p.stream_key == segs[2]
                &&& segs.len() == 5 && (segs[3] == "source"@ || segs[3] == "original"@)
                    ==> p.stream_key == segs[2]
                &&& segs.len() == 5 && segs[3] != "source"@ && segs[3] != "original"@
                    ==> p.stream_key == segs[2] + seq![':'] + segs[3]
            }
        }),
{
    let segs = text::split(text::drop_leading(path, '/'), '/');
    if segs.len() > 0 {
        law_five_file_names_are_playlists(segs[segs.len() - 1]);
    }
    if segs.len() == 5 {
        assert(segs[2].push(':') + segs[3] =~= segs[2] + seq![':'] + segs[3]);
    }
}

/// Two renditions of a stream have different keys, and neither has that of the stream itself.
/// `source` and `original` are no renditions in this sense: they are the stream.
pub proof fn law_renditions_have_keys_of_their_own(
    token: Seq<char>,
    stream_id: Seq<char>,
    a: Seq<char>,
    b: Seq<char>,
    file: Seq<char>,
)
    requires
        !token.contains('/'),
        !stream_id.contains('/'),
        !a.contains('/'),
        !b.contains('/'),
        !file.contains('/'),
        a != "source"@,
        a != "original"@,
        b != "source"@,
        b != "original"@,
    ensures
        ({
            let live = seq!["hls"@, "t"@, token, "live"@, stream_id];
            let of_a = parsed_path(path_of(live.push(a).push(file)));
            let of_b = parsed_path(path_of(live.push(b).push(file)));
            let itself = parsed_path(path_of(live.push(file)));
            let source = parsed_path(path_of(live.push("source"@).push(file)));
            let original = parsed_path(path_of(live.push("original"@).push(file)));
            &&& file == "playlist.m3u8"@ ==> of_a is Some && itself is Some && source == itself
                && original == itself
            &&& of_a is Some <==> itself is Some
            &&& of_a matches Some(p) ==> p.stream_key == stream_id + seq![':'] + a
            &&& of_a is Some && of_b is Some && a != b ==> of_a->0.stream_key
                != of_b->0.stream_key
            &&& of_a is Some && itself is Some ==> of_a->0.stream_key != itself->0.stream_key
                && itself->0.stream_key == stream_id
            &&& source == itself
            &&& original == itself
        }),
{
    let live = seq!["hls"@, "t"@, token, "live"@, stream_id];
    lemma_fixed_segments_hold_no_slash();
    reveal_strlit("source");
    reveal_strlit("original");
    assert(live.push(a).push(file) =~= seq!["hls"@, "t"@, token, "live"@, stream_id, a, file]);
    assert(live.push(b).push(file) =~= seq!["hls"@, "t"@, token, "live"@, stream_id, b, file]);
    assert(live.push(file) =~= seq!["hls"@, "t"@, token, "live"@, stream_id, file]);
    assert(live.push("source"@).push(file) =~= seq![
        "hls"@,
        "t"@,
        token,
        "live"@,
        stream_id,
        "source"@,
        file,
    ]);
    assert(live.push("original"@).push(file) =~= seq![
        "hls"@,
        "t"@,
        token,
        "live"@,
        stream_id,
        "original"@,
        file,
    ]);
    law_rendition_path_is_parsed(token, stream_id, a, file);
    law_rendition_path_is_parsed(token, stream_id, b, file);
    law_rendition_path_is_parsed(token, stream_id, "source"@, file);
    law_rendition_path_is_parsed(token, stream_id, "original"@, file);
    law_stream_path_is_parsed(token, stream_id, file);
    law_five_file_names_are_playlists(file);
    let key_a = stream_id.push(':') + a;
    let key_b = stream_id.push(':') + b;
    let n = stream_id.len() as int;
    assert(key_a =~= stream_id + seq![':'] + a);
    if a != b && key_a == key_b {
        assert(key_a.skip(n + 1) =~= a);
        assert(key_b.skip(n + 1) =~= b);
    }
    assert(key_a.len() > stream_id.len());
}

/// Parsed paths are taken as they are.
pub proof fn law_parsed_paths_are_taken_as_they_are(p: ParsedRequest)
    ensures
        p@.token == p.token@,
        p@.stream_id == p.stream_id@,
        p@.stream_key == p.stream_key@,
        p@.playlist_type == p.playlist_type,
        opt_parsed(Some(p)) == Some(p@),
        opt_parsed(None) is None,
{
}

} // verus!
