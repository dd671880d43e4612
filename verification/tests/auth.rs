use control_plane_worker::auth::{
    auth_refusal, authorize_parsed_request, decoded_claims, token_claims, verify_playback_token,
    JwtAuthError, PlaybackClaims,
};
use control_plane_worker::path::{ParsedRequest, PlaylistType};
use jsonwebtoken::{encode, Algorithm, EncodingKey, Header};
use serde_json::Value;

const CLAIMS: &str = "{\"stream_id\":\"id\",\"scope\":[\"hls:playlist\"],\"route_version\":3}";

fn value(json: &str) -> Value {
    serde_json::from_str(json).unwrap()
}

fn read(json: &[u8]) -> Value {
    serde_json::from_slice(json).unwrap()
}

fn encode_base64url(bytes: &[u8]) -> String {
    let alphabet: Vec<char> = ('A'..='Z')
        .chain('a'..='z')
        .chain('0'..='9')
        .chain(['-', '_'])
        .collect();
    let mut s = String::new();
    for group in bytes.chunks(3) {
        let mut bits: u32 = 0;
        for i in 0..3 {
            bits = bits * 256 + *group.get(i).unwrap_or(&0) as u32;
        }
        for i in 0..group.len() + 1 {
            s.push(alphabet[(bits >> (18 - 6 * i)) as usize % 64]);
        }
    }
    s
}

fn sign_bytes(claims: &[u8], secret: &str) -> String {
    let header = encode_base64url(b"{\"alg\":\"HS256\"}");
    let message = format!("{header}.{}", encode_base64url(claims));
    let key = EncodingKey::from_secret(secret.as_bytes());
    let signature = jsonwebtoken::crypto::sign(message.as_bytes(), &key, Algorithm::HS256).unwrap();
    format!("{message}.{signature}")
}

fn sign_as(algorithm: Algorithm, json: &str, secret: &str) -> String {
    let key = EncodingKey::from_secret(secret.as_bytes());
    encode(&Header::new(algorithm), &value(json), &key).unwrap()
}

fn sign(json: &str, secret: &str) -> String {
    sign_as(Algorithm::HS256, json, secret)
}

fn claims(scope: &[&str]) -> PlaybackClaims {
    PlaybackClaims {
        stream_id: "id".to_string(),
        stream_session_id: "session".to_string(),
        node_id: "node".to_string(),
        origin_base_url: "https://origin.example".to_string(),
        route_version: 3,
        scope: scope.iter().map(|s| s.to_string()).collect(),
    }
}

fn request(stream_id: &str, t: PlaylistType) -> ParsedRequest {
    ParsedRequest {
        token: "tok".to_string(),
        stream_id: stream_id.to_string(),
        stream_key: stream_id.to_string(),
        playlist_type: t,
    }
}

#[test]
fn the_claims_of_a_signed_token_are_handed_out() {
    let token = sign(CLAIMS, "secret");
    let json = verify_playback_token(&token, Some("secret")).unwrap();
    assert_ne!(json, token.as_bytes());
    assert_eq!(read(&json), value(CLAIMS));
    assert_eq!(token_claims(&token), Some(json));
}

#[test]
fn a_token_needs_no_expiry_and_any_audience_will_do() {
    for json in ["{}", "{\"aud\":\"somebody\"}", "{\"nbf\":99999999999}", "{\"iss\":\"x\"}"] {
        let claims = verify_playback_token(&sign(json, "secret"), Some("secret")).unwrap();
        assert_eq!(read(&claims), value(json));
    }
}

#[test]
fn without_a_secret_no_token_is_looked_at() {
    let token = sign(CLAIMS, "secret");
    for t in [token.as_str(), "", "garbage"] {
        assert_eq!(verify_playback_token(t, None), Err(JwtAuthError::MissingConfig));
        assert_eq!(verify_playback_token(t, Some("")), Err(JwtAuthError::MissingConfig));
    }
}

#[test]
fn bad_tokens_are_unauthorized() {
    let token = sign(CLAIMS, "secret");
    let unauthorized = Err(JwtAuthError::Unauthorized);
    assert_eq!(verify_playback_token(&token, Some("other")), unauthorized);
    assert_eq!(verify_playback_token("", Some("secret")), unauthorized);
    assert_eq!(verify_playback_token("a.b.c", Some("secret")), unauthorized);
    let cut = &token[..token.len() - 2];
    assert_eq!(verify_playback_token(cut, Some("secret")), unauthorized);
    let other = sign_as(Algorithm::HS512, CLAIMS, "secret");
    assert_eq!(verify_playback_token(&other, Some("secret")), unauthorized);
}

#[test]
fn expired_tokens_are_unauthorized() {
    let old = sign("{\"exp\":1000000000}", "secret");
    assert_eq!(
        verify_playback_token(&old, Some("secret")),
        Err(JwtAuthError::Unauthorized)
    );
    let new = sign("{\"exp\":99999999999}", "secret");
    assert!(verify_playback_token(&new, Some("secret")).is_ok());
}

#[test]
fn every_decoding_failure_is_the_same_to_the_client() {
    assert_eq!(decoded_claims("h.e30.s", Ok(())), Ok(b"{}".to_vec()));
    assert_eq!(decoded_claims("h.e30", Ok(())), Err(JwtAuthError::Unauthorized));
    assert_eq!(decoded_claims("h.e31.s", Ok(())), Err(JwtAuthError::Unauthorized));
    let kind = jsonwebtoken::errors::ErrorKind::InvalidSignature;
    assert_eq!(
        decoded_claims("h.e30.s", Err(jsonwebtoken::errors::Error::from(kind))),
        Err(JwtAuthError::Unauthorized)
    );
}

#[test]
fn claims_are_handed_out_byte_by_byte() {
    for claims in [
        &b"{ \"stream_id\" : \"id\" }\n"[..],
        b"{\"note\":\"\xff\xfe\"}",
        b"{\"exp\":\"never\"}",
    ] {
        assert_eq!(
            verify_playback_token(&sign_bytes(claims, "secret"), Some("secret")),
            Ok(claims.to_vec())
        );
    }
}

#[test]
fn claims_that_are_no_json_are_unauthorized() {
    for claims in [&b""[..], b"claims", b"{", b"{} {}", b"7"] {
        assert_eq!(
            verify_playback_token(&sign_bytes(claims, "secret"), Some("secret")),
            Err(JwtAuthError::Unauthorized)
        );
    }
}

#[test]
fn a_token_has_three_parts() {
    assert_eq!(token_claims("a.e30.b"), Some(b"{}".to_vec()));
    assert_eq!(token_claims(".."), Some(Vec::new()));
    for token in ["", "e30", "a.e30", "a.e30.b.c", "a.e30=.b", "a.e.b"] {
        assert_eq!(token_claims(token), None);
    }
}

#[test]
fn scopes_open_their_playlists() {
    let playlists = [
        PlaylistType::LlHls,
        PlaylistType::LlHlsWs,
        PlaylistType::Simple,
        PlaylistType::SimpleWs,
    ];
    let playlist = claims(&["other", "hls:playlist"]);
    let master = claims(&["hls:master"]);
    for t in playlists {
        assert_eq!(authorize_parsed_request(&request("id", t), &playlist), Ok(()));
        assert_eq!(
            authorize_parsed_request(&request("id", t), &master),
            Err(JwtAuthError::Forbidden)
        );
    }
    let r = request("id", PlaylistType::Master);
    assert_eq!(authorize_parsed_request(&r, &master), Ok(()));
    assert_eq!(
        authorize_parsed_request(&r, &playlist),
        Err(JwtAuthError::Forbidden)
    );
    assert_eq!(
        authorize_parsed_request(&r, &claims(&[])),
        Err(JwtAuthError::Forbidden)
    );
}

#[test]
fn no_token_opens_another_stream_or_media() {
    let all = claims(&["hls:master", "hls:playlist", "media"]);
    assert_eq!(
        authorize_parsed_request(&request("other", PlaylistType::LlHls), &all),
        Err(JwtAuthError::Forbidden)
    );
    assert_eq!(
        authorize_parsed_request(&request("id", PlaylistType::Media), &all),
        Err(JwtAuthError::Forbidden)
    );
}

#[test]
fn a_token_must_name_its_origin_completely() {
    let r = request("id", PlaylistType::LlHls);
    for white in ["", " ", "\t\n", "\u{a0}\u{3000}"] {
        let mut c = claims(&["hls:playlist"]);
        c.stream_session_id = white.to_string();
        assert_eq!(authorize_parsed_request(&r, &c), Err(JwtAuthError::Forbidden));
        let mut c = claims(&["hls:playlist"]);
        c.node_id = white.to_string();
        assert_eq!(authorize_parsed_request(&r, &c), Err(JwtAuthError::Forbidden));
        let mut c = claims(&["hls:playlist"]);
        c.origin_base_url = white.to_string();
        assert_eq!(authorize_parsed_request(&r, &c), Err(JwtAuthError::Forbidden));
    }
    let mut c = claims(&["hls:playlist"]);
    c.node_id = " n ".to_string();
    assert_eq!(authorize_parsed_request(&r, &c), Ok(()));
}

#[test]
fn refusals_have_their_own_status() {
    for (e, status, body) in [
        (JwtAuthError::MissingConfig, 500, "JWT auth is not configured"),
        (JwtAuthError::Unauthorized, 401, "Unauthorized"),
        (JwtAuthError::Forbidden, 403, "Forbidden"),
    ] {
        let r = auth_refusal(e);
        assert_eq!((r.status, r.body.as_str()), (status, body));
        assert_eq!(r.headers.len(), 1);
        assert_eq!(r.headers[0].name, "Access-Control-Allow-Origin");
        assert_eq!(r.headers[0].value, "*");
    }
}
