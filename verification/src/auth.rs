//! Playback tokens and what they permit.

use crate::base64url;
use crate::http;
use crate::http::Reply;
use crate::path::{ParsedRequest, PlaylistType};
use crate::text;
use vstd::prelude::*;

verus! {

/// Why a request is refused.
#[derive(Debug, Clone, Copy, PartialEq, Eq, Structural)]
pub enum JwtAuthError {
    /// The worker has no secret to check tokens with.
    MissingConfig,
    /// The token is not valid.
    Unauthorized,
    /// The token is valid and does not permit the request.
    Forbidden,
}

/// The claims of a playback token.
#[derive(Debug, PartialEq, Eq)]
pub struct PlaybackClaims {
    pub stream_id: String,
    pub stream_session_id: String,
    pub node_id: String,
    pub origin_base_url: String,
    pub route_version: u64,
    pub scope: Vec<String>,
}

/// What a token claims.
#[verifier::ext_equal]
pub struct ClaimsView {
    pub stream_id: Seq<char>,
    pub stream_session_id: Seq<char>,
    pub node_id: Seq<char>,
    pub origin_base_url: Seq<char>,
    pub route_version: u64,
    pub scope: Seq<Seq<char>>,
}

impl View for PlaybackClaims {
    type V = ClaimsView;

    open spec fn view(&self) -> ClaimsView {
        ClaimsView {
            stream_id: self.stream_id@,
            stream_session_id: self.stream_session_id@,
            node_id: self.node_id@,
            origin_base_url: self.origin_base_url@,
            route_version: self.route_version,
            scope: text::texts(self.scope@),
        }
    }
}

/// The scope that a token needs for a playlist of this type. None opens a media object.
pub open spec fn required_scope(t: PlaylistType) -> Option<Seq<char>> {
    match t {
        PlaylistType::Master => Some("hls:master"@),
        PlaylistType::LlHls | PlaylistType::LlHlsWs => Some("hls:playlist"@),
        PlaylistType::Simple | PlaylistType::SimpleWs => Some("hls:playlist"@),
        PlaylistType::Media => None,
    }
}

/// Whether a token permits a request for a playlist of `stream_id`: it was issued for that
/// stream, names an origin completely, and has the scope.
pub open spec fn permits(c: ClaimsView, stream_id: Seq<char>, t: PlaylistType) -> bool {
    &&& stream_id == c.stream_id
    &&& !text::is_blank(c.stream_session_id)
    &&& !text::is_blank(c.node_id)
    &&& !text::is_blank(c.origin_base_url)
    &&& required_scope(t) matches Some(s) && c.scope.contains(s)
}

/// The reply to a refused request.
pub open spec fn refusal_view(e: JwtAuthError) -> http::ReplyView {
    match e {
        JwtAuthError::MissingConfig => http::cors_error_view("JWT auth is not configured"@, 500),
        JwtAuthError::Unauthorized => http::cors_error_view("Unauthorized"@, 401),
        JwtAuthError::Forbidden => http::cors_error_view("Forbidden"@, 403),
    }
}

/// What `jsonwebtoken::decode` makes of a token under a secret, the clock aside: nothing if it
/// refuses the token at any time; otherwise whether the token has an expiry time, a number under
/// `exp`.
pub uninterp spec fn hs256_expiring(token: Seq<char>, secret: Seq<char>) -> Option<bool>;

/// The error type of `jsonwebtoken`.
#[verifier::external_type_specification]
#[verifier::external_body]
pub struct ExJwtError(jsonwebtoken::errors::Error);

/// The claims that a token carries: the second of its three parts, in base64url.
pub open spec fn claims_bytes(token: Seq<char>) -> Option<Seq<u8>> {
    let parts = text::split(token, '.');
    if parts.len() == 3 {
        base64url::decoded(parts[1])
    } else {
        None
    }
}

/// `jsonwebtoken::decode` for HS256, with no claim required and the audience not checked, and
/// with claims of any kind. What it accepts is signed under the secret and has three parts, with
/// the claims in base64url in the second. Without an expiry time, a token is accepted either at
/// any time or never.
///
/// A token with an expiry time is refused once that time lies more than a minute in the past,
/// which is up to the clock, and nothing is said of it. The clock is expected to stand later than
/// one minute after the Unix epoch.
#[verifier::external_body]
fn decode_hs256(token: &str, secret: &str) -> (r: Result<(), jsonwebtoken::errors::Error>)
    ensures
        r is Ok ==> hs256_expiring(token@, secret@) is Some,
        r is Ok ==> claims_bytes(token@) is Some,
        r is Err ==> hs256_expiring(token@, secret@) != Some(false),
{
    let mut validation = jsonwebtoken::Validation::new(jsonwebtoken::Algorithm::HS256);
    validation.required_spec_claims.clear();
    validation.validate_aud = false;
    let key = jsonwebtoken::DecodingKey::from_secret(secret.as_bytes());
    jsonwebtoken::decode::<serde::de::IgnoredAny>(token, &key, &validation).map(|_| ())
}

/// Whether `decoded` is what `jsonwebtoken::decode` may give for a token and a secret.
pub closed spec fn may_decode_to(
    token: &str,
    secret: &str,
    decoded: Result<(), jsonwebtoken::errors::Error>,
) -> bool {
    call_ensures(decode_hs256, (token, secret), decoded)
}

/// What comes of a decoding attempt: the claims of the token, or that it is not valid.
pub open spec fn told(
    token: Seq<char>,
    decoded: Result<(), jsonwebtoken::errors::Error>,
) -> Result<Seq<u8>, JwtAuthError> {
    match (decoded, claims_bytes(token)) {
        (Ok(_), Some(claims)) => Ok(claims),
        _ => Err(JwtAuthError::Unauthorized),
    }
}

/// The claims, or the error in their place.
pub open spec fn claims_result(r: Result<Vec<u8>, JwtAuthError>) -> Result<Seq<u8>, JwtAuthError> {
    match r {
        Ok(claims) => Ok(claims@),
        Err(e) => Err(e),
    }
}

/// The claims that a token carries.
pub fn token_claims(token: &str) -> (r: Option<Vec<u8>>)
    ensures
        match r {
            Some(claims) => claims_bytes(token@) == Some(claims@),
            None => claims_bytes(token@) is None,
        },
{
    let parts = text::split_on(token, '.');
    let ghost all = text::split(token@, '.');
    assert(forall|i: int| 0 <= i < parts@.len() ==> #[trigger] all[i] == parts@[i]@);
    if parts.len() == 3 {
        base64url::decode(parts[1].as_str())
    } else {
        None
    }
}

/// What a decoding attempt means for the request: every failure is the same to the client.
pub fn decoded_claims(token: &str, decoded: Result<(), jsonwebtoken::errors::Error>) -> (r: Result<
    Vec<u8>,
    JwtAuthError,
>)
    ensures
        claims_result(r) == told(token@, decoded),
{
    match decoded {
        Ok(_) => match token_claims(token) {
            Some(claims) => Ok(claims),
            None => Err(JwtAuthError::Unauthorized),
        },
        Err(_) => Err(JwtAuthError::Unauthorized),
    }
}

/// Checks a playback token and hands out its claims, as JSON in bytes.
///
/// Without a secret, or with an empty one, no token is looked at. Otherwise the token is decoded
/// under the secret and the result is what comes of that. A token that the decoder finds in order
/// and that has no expiry time is accepted, and one that it does not find in order is refused.
/// Whether a token has expired is left to the clock.
pub fn verify_playback_token(token: &str, secret: Option<&str>) -> (r: Result<
    Vec<u8>,
    JwtAuthError,
>)
    ensures
        (secret is None || secret->0@.len() == 0) <==> claims_result(r) == Err::<Seq<u8>, _>(
            JwtAuthError::MissingConfig,
        ),
        r matches Err(e) ==> e == JwtAuthError::MissingConfig || e == JwtAuthError::Unauthorized,
        r matches Ok(claims) ==> claims_bytes(token@) == Some(claims@) && hs256_expiring(
            token@,
            secret->0@,
        ) is Some,
        secret is Some && secret->0@.len() > 0 && hs256_expiring(token@, secret->0@) == Some(false)
            ==> r is Ok,
        secret is Some && secret->0@.len() > 0 ==> exists|decoded|
            #[trigger] may_decode_to(token, secret->0, decoded) && claims_result(r) == told(
                token@,
                decoded,
            ),
{
    match secret {
        Some(secret) => {
            if secret.is_empty() {
                return Err(JwtAuthError::MissingConfig);
            }
            let decoded = decode_hs256(token, secret);
            assert(may_decode_to(token, secret, decoded));
            decoded_claims(token, decoded)
        },
        None => Err(JwtAuthError::MissingConfig),
    }
}

fn has_scope(scope: &Vec<String>, required: &str) -> (b: bool)
    ensures
        b == text::texts(scope@).contains(required@),
{
    let ghost all = text::texts(scope@);
    for i in 0..scope.len()
        invariant
            all == text::texts(scope@),
            forall|j: int| 0 <= j < i ==> all[j] != required@,
    {
        assert(all[i as int] == scope@[i as int]@);
        if text::same_text(scope[i].as_str(), required) {
            return true;
        }
    }
    false
}

/// Checks that a token's claims permit a parsed request.
pub fn authorize_parsed_request(parsed: &ParsedRequest, claims: &PlaybackClaims) -> (r: Result<
    (),
    JwtAuthError,
>)
    ensures
        r is Ok <==> permits(claims@, parsed.stream_id@, parsed.playlist_type),
        r matches Err(e) ==> e == JwtAuthError::Forbidden,
{
    if parsed.stream_id != claims.stream_id {
        return Err(JwtAuthError::Forbidden);
    }
    if text::blank(claims.stream_session_id.as_str()) || text::blank(claims.node_id.as_str())
        || text::blank(claims.origin_base_url.as_str()) {
        return Err(JwtAuthError::Forbidden);
    }
    let required = match parsed.playlist_type {
        PlaylistType::Master => "hls:master",
        PlaylistType::LlHls | PlaylistType::LlHlsWs => "hls:playlist",
        PlaylistType::Simple | PlaylistType::SimpleWs => "hls:playlist",
        PlaylistType::Media => {
            return Err(JwtAuthError::Forbidden);
        },
    };
    if !has_scope(&claims.scope, required) {
        return Err(JwtAuthError::Forbidden);
    }
    Ok(())
}

/// The reply to a refused request.
pub fn auth_refusal(e: JwtAuthError) -> (reply: Reply)
    ensures
        reply@ == refusal_view(e),
{
    match e {
        JwtAuthError::MissingConfig => http::cors_error("JWT auth is not configured", 500),
        JwtAuthError::Unauthorized => http::cors_error("Unauthorized", 401),
        JwtAuthError::Forbidden => http::cors_error("Forbidden", 403),
    }
}

/// A token opens one stream only: if it permits requests for two streams, they are the same.
pub proof fn law_token_opens_one_stream(
    c: ClaimsView,
    a: Seq<char>,
    a_type: PlaylistType,
    b: Seq<char>,
    b_type: PlaylistType,
)
    requires
        permits(c, a, a_type),
        permits(c, b, b_type),
    ensures
        a == b,
{
}

/// Blocking and pushed playlists need the same scope, and the master playlist another one: a
/// token with a single scope opens either the playlists or the master playlist.
pub proof fn law_scopes_do_not_overlap(
    c: ClaimsView,
    stream_id: Seq<char>,
    scope: Seq<char>,
    t: PlaylistType,
)
    requires
        c.scope == seq![scope],
        permits(c, stream_id, t),
    ensures
        t == PlaylistType::Master <==> !permits(c, stream_id, PlaylistType::LlHls),
        permits(c, stream_id, PlaylistType::LlHls) == permits(c, stream_id, PlaylistType::LlHlsWs),
        permits(c, stream_id, PlaylistType::LlHls) == permits(c, stream_id, PlaylistType::Simple),
        permits(c, stream_id, PlaylistType::LlHls) == permits(c, stream_id, PlaylistType::SimpleWs),
{
    reveal_strlit("hls:master");
    reveal_strlit("hls:playlist");
    assert(c.scope[0] == scope);
    assert("hls:master"@.len() != "hls:playlist"@.len());
}

/// No token opens a media object.
pub proof fn law_no_token_opens_media(c: ClaimsView, stream_id: Seq<char>)
    ensures
        !permits(c, stream_id, PlaylistType::Media),
{
}

/// A token permits a request if and only if it was issued for its stream, names session, node and
/// origin with more than white space, and holds the scope: `hls:master` for the master playlist
/// and `hls:playlist` for every other.
pub proof fn law_tokens_permit_what_they_name(c: ClaimsView, stream_id: Seq<char>, t: PlaylistType)
    ensures
        permits(c, stream_id, t) <==> {
            &&& c.stream_id == stream_id
            &&& exists|i: int|
                0 <= i < c.stream_session_id.len() && !text::is_white_space(
                    #[trigger] c.stream_session_id[i],
                )
            &&& exists|i: int|
                0 <= i < c.node_id.len() && !text::is_white_space(#[trigger] c.node_id[i])
            &&& exists|i: int|
                0 <= i < c.origin_base_url.len() && !text::is_white_space(
                    #[trigger] c.origin_base_url[i],
                )
            &&& t != PlaylistType::Media
            &&& t == PlaylistType::Master ==> c.scope.contains("hls:master"@)
            &&& t != PlaylistType::Master ==> c.scope.contains("hls:playlist"@)
        },
{
}

/// More scopes never take a permission away, and neither does another version of the route.
pub proof fn law_more_scopes_permit_more(
    c: ClaimsView,
    scope: Seq<char>,
    version: u64,
    stream_id: Seq<char>,
    t: PlaylistType,
)
    requires
        permits(c, stream_id, t),
    ensures
        permits(
            ClaimsView { scope: c.scope.push(scope), route_version: version, ..c },
            stream_id,
            t,
        ),
{
    let s = required_scope(t)->0;
    let i = choose|i: int| 0 <= i < c.scope.len() && c.scope[i] == s;
    assert(c.scope.push(scope)[i] == s);
}

/// The claims are what stands, in base64url, between the two dots of a token. A text with fewer or
/// more dots carries none.
pub proof fn law_claims_stand_between_the_dots(
    header: Seq<char>,
    claims: Seq<char>,
    signature: Seq<char>,
    token: Seq<char>,
)
    requires
        !header.contains('.'),
        !claims.contains('.'),
        !signature.contains('.'),
    ensures
        claims_bytes(header + seq!['.'] + claims + seq!['.'] + signature) == base64url::decoded(
            claims,
        ),
        claims_bytes(token) is Some ==> exists|h: Seq<char>, c: Seq<char>, s: Seq<char>|
            token == #[trigger] (h + seq!['.'] + c + seq!['.'] + s) && claims_bytes(token)
                == base64url::decoded(c),
{
    let parts = seq![header, claims, signature];
    text::law_join_puts_a_separator_between(seq![header], claims, '.');
    text::law_join_puts_a_separator_between(seq![header], header, '.');
    text::law_join_puts_a_separator_between(seq![header, claims], signature, '.');
    assert(seq![header].push(claims) =~= seq![header, claims]);
    assert(seq![header, claims].push(signature) =~= parts);
    text::law_split_undoes_join(parts, '.');
    if claims_bytes(token) is Some {
        let p = text::split(token, '.');
        text::law_split_loses_nothing(token, '.');
        text::law_join_puts_a_separator_between(seq![p[0]], p[0], '.');
        text::law_join_puts_a_separator_between(seq![p[0]], p[1], '.');
        text::law_join_puts_a_separator_between(seq![p[0], p[1]], p[2], '.');
        assert(seq![p[0]].push(p[1]) =~= seq![p[0], p[1]]);
        assert(seq![p[0], p[1]].push(p[2]) =~= p);
        assert(token == p[0] + seq!['.'] + p[1] + seq!['.'] + p[2]);
    }
}

/// A token that was accepted gives its own claims, and one that was not gives none.
pub proof fn law_accepted_tokens_give_their_claims(
    token: Seq<char>,
    accepted: Result<(), jsonwebtoken::errors::Error>,
    r: Result<Vec<u8>, JwtAuthError>,
)
    ensures
        accepted is Err ==> told(token, accepted) == Err::<Seq<u8>, _>(JwtAuthError::Unauthorized),
        accepted is Ok ==> (match claims_bytes(token) {
            Some(claims) => told(token, accepted) == Ok::<_, JwtAuthError>(claims),
            None => told(token, accepted) == Err::<Seq<u8>, _>(JwtAuthError::Unauthorized),
        }),
        r matches Ok(claims) ==> claims_result(r) == Ok::<_, JwtAuthError>(claims@),
        r matches Err(e) ==> claims_result(r) == Err::<Seq<u8>, _>(e),
{
}

/// A refusal tells the client why: 500 where the worker is not configured, 401 for a token that is
/// not valid, and 403 for one that does not permit the request.
pub proof fn law_refusals_say_why(e: JwtAuthError)
    ensures
        refusal_view(e).status == (match e {
            JwtAuthError::MissingConfig => 500u16,
            JwtAuthError::Unauthorized => 401u16,
            JwtAuthError::Forbidden => 403u16,
        }),
        refusal_view(e).body == (match e {
            JwtAuthError::MissingConfig => "JWT auth is not configured"@,
            JwtAuthError::Unauthorized => "Unauthorized"@,
            JwtAuthError::Forbidden => "Forbidden"@,
        }),
{
}

/// Claims are taken as they are.
pub proof fn law_claims_are_taken_as_they_are(c: PlaybackClaims)
    ensures
        c@.stream_id == c.stream_id@,
        c@.stream_session_id == c.stream_session_id@,
        c@.node_id == c.node_id@,
        c@.origin_base_url == c.origin_base_url@,
        c@.route_version == c.route_version,
        c@.scope.len() == c.scope@.len(),
        forall|i: int| 0 <= i < c.scope@.len() ==> #[trigger] c@.scope[i] == c.scope@[i]@,
{
}

/// A call that checks a token without a secret says that one is missing, and only then. A call that
/// checks claims refuses with `Forbidden` and nothing else.
pub proof fn law_calls_refuse_for_a_reason(
    token: &str,
    secret: Option<&str>,
    checked: Result<Vec<u8>, JwtAuthError>,
    parsed: ParsedRequest,
    claims: PlaybackClaims,
    permitted: Result<(), JwtAuthError>,
)
    requires
        call_ensures(verify_playback_token, (token, secret), checked),
        call_ensures(authorize_parsed_request, (&parsed, &claims), permitted),
    ensures
        secret is None || secret->0@.len() == 0 ==> (checked matches Err(e) && e
            == JwtAuthError::MissingConfig),
        secret is Some && secret->0@.len() > 0 && checked is Err ==> (checked matches Err(e) && e
            == JwtAuthError::Unauthorized),
        checked matches Ok(bytes) ==> claims_bytes(token@) == Some(bytes@),
        permitted is Ok ==> claims.stream_id@ == parsed.stream_id@,
        permitted matches Err(e) ==> e == JwtAuthError::Forbidden,
        permitted is Ok <==> permits(claims@, parsed.stream_id@, parsed.playlist_type),
{
}

} // verus!
