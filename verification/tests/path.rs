use control_plane_worker::path::{
    parse_playlist_path, parse_public_path, playlist_type, ParsedRequest, PlaylistType,
};

fn request(token: &str, stream_id: &str, stream_key: &str, t: PlaylistType) -> ParsedRequest {
    ParsedRequest {
        token: token.to_string(),
        stream_id: stream_id.to_string(),
        stream_key: stream_key.to_string(),
        playlist_type: t,
    }
}

const FILES: [(&str, PlaylistType); 5] = [
    ("master.m3u8", PlaylistType::Master),
    ("playlist.m3u8", PlaylistType::LlHls),
    ("simple.m3u8", PlaylistType::Simple),
    ("playlist-ws", PlaylistType::LlHlsWs),
    ("simple-ws", PlaylistType::SimpleWs),
];

#[test]
fn file_names_have_types() {
    for (file, t) in FILES {
        assert_eq!(playlist_type(file), Some(t));
    }
    assert_eq!(playlist_type("Master.m3u8"), None);
    assert_eq!(playlist_type("master.m3u8 "), None);
    assert_eq!(playlist_type(""), None);
}

#[test]
fn stream_paths_are_parsed() {
    for (file, t) in FILES {
        let path = format!("/hls/t/tok/live/id/{file}");
        assert_eq!(parse_playlist_path(&path), Some(request("tok", "id", "id", t)));
    }
}

#[test]
fn rendition_paths_are_parsed() {
    for (file, t) in FILES {
        let path = format!("/hls/t/tok/live/id/720p/{file}");
        assert_eq!(
            parse_playlist_path(&path),
            Some(request("tok", "id", "id:720p", t))
        );
        for base in ["source", "original"] {
            let path = format!("/hls/t/tok/live/id/{base}/{file}");
            assert_eq!(parse_playlist_path(&path), Some(request("tok", "id", "id", t)));
        }
    }
    assert_eq!(
        parse_playlist_path("/hls/t/tok/live/id//playlist.m3u8"),
        Some(request("tok", "id", "id:", PlaylistType::LlHls))
    );
}

#[test]
fn slashes_in_front_are_ignored() {
    let expected = Some(request("tok", "id", "id", PlaylistType::LlHls));
    assert_eq!(parse_playlist_path("hls/t/tok/live/id/playlist.m3u8"), expected);
    assert_eq!(parse_playlist_path("///hls/t/tok/live/id/playlist.m3u8"), expected);
}

#[test]
fn deeper_and_shallower_paths_are_media() {
    for path in [
        "/hls/t/tok/live/id",
        "/hls/t/tok/live/id/720p/segments/1.m4s",
        "/hls/t/tok/live/id/a/b/c/playlist.m3u8",
        "/hls/t/tok/live/id/720p/playlist.m3u8/",
    ] {
        assert_eq!(
            parse_playlist_path(path),
            Some(request("tok", "id", "id", PlaylistType::Media))
        );
    }
}

#[test]
fn other_paths_are_not_parsed() {
    for path in [
        "",
        "/",
        "/hls",
        "/hls/t/tok/live",
        "/hls/x/tok/live/id/playlist.m3u8",
        "/hls/t/tok/vod/id/playlist.m3u8",
        "/HLS/t/tok/live/id/playlist.m3u8",
        "/hls//t/tok/live/id/playlist.m3u8",
        "/hls/t/tok/live/id/init.mp4",
        "/hls/t/tok/live/id/720p/1.m4s",
        "/hls/live/id/playlist.m3u8",
    ] {
        assert_eq!(parse_playlist_path(path), None);
    }
}

#[test]
fn empty_segments_stay_segments() {
    assert_eq!(
        parse_playlist_path("/hls/t//live//playlist.m3u8"),
        Some(request("", "", "", PlaylistType::LlHls))
    );
}

#[test]
fn public_paths_are_parsed() {
    let id = "019e9b4e-eb18-7682-9319-2a588508bd82";
    for (rest, key, t) in [
        ("master.m3u8", id.to_string(), PlaylistType::Master),
        ("playlist.m3u8", id.to_string(), PlaylistType::LlHls),
        ("720p/playlist.m3u8", format!("{id}:720p"), PlaylistType::LlHls),
        ("simple.m3u8", id.to_string(), PlaylistType::Simple),
        ("720p/simple.m3u8", format!("{id}:720p"), PlaylistType::Simple),
        ("source/simple.m3u8", id.to_string(), PlaylistType::Simple),
        ("original/playlist.m3u8", id.to_string(), PlaylistType::LlHls),
    ] {
        let path = format!("/hls/live/{id}/{rest}");
        assert_eq!(parse_public_path(&path), Some(request("", id, &key, t)));
    }
}

#[test]
fn only_playlists_are_public() {
    for path in [
        "/hls/live/id",
        "/hls/live/id/playlist-ws",
        "/hls/live/id/720p/simple-ws",
        "/hls/live/id/720p/master.m3u8",
        "/hls/live/id/init.mp4",
        "/hls/live/id/720p/1.m4s",
        "/hls/live/id/a/b/playlist.m3u8",
        "/hls/t/tok/live/id/playlist.m3u8",
    ] {
        assert_eq!(parse_public_path(path), None);
    }
}

#[test]
fn public_and_tokenized_paths_agree() {
    for file in ["master.m3u8", "playlist.m3u8", "simple.m3u8"] {
        let open = parse_public_path(&format!("/hls/live/id/{file}")).unwrap();
        let mut closed = parse_playlist_path(&format!("/hls/t/tok/live/id/{file}")).unwrap();
        closed.token.clear();
        assert_eq!(open, closed);
    }
}
