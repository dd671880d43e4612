# Control plane worker

A worker that relays live HLS playlists. It checks playback tokens, spreads the requests for a
stream over shards, and lets a request for a position that the stream has not reached wait until
it does. Viewers that hold a WebSocket are pushed every update. Media objects are not relayed:
they belong to the CDN.

## Routes

```text
/hls/t/{token}/live/{stream_id}[/{rendition}]/master.m3u8
/hls/t/{token}/live/{stream_id}[/{rendition}]/playlist.m3u8
/hls/t/{token}/live/{stream_id}[/{rendition}]/simple.m3u8
/hls/t/{token}/live/{stream_id}[/{rendition}]/playlist-ws
/hls/t/{token}/live/{stream_id}[/{rendition}]/simple-ws
```

`source` and `original` are the stream itself; any other rendition has the key
`{stream_id}:{rendition}`. `path::parse_public_path` reads the form that carries no token,
`/hls/live/{stream_id}[/{rendition}]/{file}`.

## Layout

- `src/` is the verified library: paths, tokens, routes, sharding, and the state machines of the
  two kinds of objects. Every decision is a function with a contract over sequences of characters
  and plain values, and the functions whose names begin with `law_` state what holds across calls.
- `app/` is the worker around it: requests, storage, alarms, WebSockets.
- `tests/` runs the library on concrete values, with the real token and channel crates.

## Configuration

- `JWT_SECRET`: the secret that playback tokens are signed with (HS256)
- `ORIGIN_SECRET`: sent to the origin when its feed is opened
- `MAX_SHARDS`: the number of shards, 250 unless it says otherwise; it must not be zero
- `LL_HLS_DO`, `SIMPLE_DO`: the bindings of the two kinds of objects

## What is believed without proof

What `jsonwebtoken::decode` accepts is signed under the secret, and where it turns down a token
that is in order the token has expired; `serde_json::to_string` quotes a string;
`oneshot::Sender::send` gives back what it could not deliver; `String::push` appends a character.
Each stands with its contract where it is used.
