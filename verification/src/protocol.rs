//! The messages between the origin, the objects and the viewers.

use crate::text;
use vstd::prelude::*;

verus! {

/// A message from the origin.
#[derive(Debug, PartialEq, Eq)]
pub enum OriginMsg {
    /// A new part of the low-latency playlist.
    Part { msn: u64, part: u32, playlist: String },
    /// A new simple playlist.
    Simple { seq: u64, playlist: String },
    /// The master playlist.
    Master { playlist: String },
    /// The stream is over.
    End,
}

/// A message from an object back to the origin.
#[derive(Debug, Clone, Copy, PartialEq, Eq, Structural)]
pub enum DoMsg {
    /// How many viewers one part had: waiting requests and WebSocket viewers together.
    Viewers { count: u32, msn: u64, part: u32 },
}

/// A message pushed to a WebSocket viewer.
#[derive(Debug, Clone, Copy)]
pub enum ViewerMsg<'a> {
    Part { msn: u64, part: u32, playlist: &'a str },
    Simple { seq: u64, playlist: &'a str },
    End,
}

/// What a viewer is told.
pub enum ViewerView {
    Part { msn: u64, part: u32, playlist: Seq<char> },
    Simple { seq: u64, playlist: Seq<char> },
    End,
}

impl<'a> View for ViewerMsg<'a> {
    type V = ViewerView;

    open spec fn view(&self) -> ViewerView {
        match *self {
            ViewerMsg::Part { msn, part, playlist } => ViewerView::Part {
                msn,
                part,
                playlist: playlist@,
            },
            ViewerMsg::Simple { seq, playlist } => ViewerView::Simple { seq, playlist: playlist@ },
            ViewerMsg::End => ViewerView::End,
        }
    }
}

/// The playlist position that a blocking request waits for.
#[derive(Debug, Clone, Copy, PartialEq, Eq, Structural)]
pub struct HlsQuery {
    pub msn: u64,
    pub part: u32,
}

impl Default for HlsQuery {
    fn default() -> (q: Self)
        ensures
            q.msn == 0,
            q.part == 0,
    {
        HlsQuery { msn: 0, part: 0 }
    }
}

/// Whether a playlist that has reached `(cur_msn, cur_part)` holds `(req_msn, req_part)`.
pub open spec fn reached(cur_msn: u64, cur_part: u32, req_msn: u64, req_part: u32) -> bool {
    cur_msn > req_msn || (cur_msn == req_msn && cur_part >= req_part)
}

/// Whether a request waits for nothing: its query names no media sequence number.
pub open spec fn asks_for_current(query: Option<Seq<char>>) -> bool {
    match query {
        Some(q) => !text::occurs(q, "_HLS_msn"@),
        None => true,
    }
}

/// The low hexadecimal digit for `d`.
pub open spec fn hex_digit(d: int) -> char {
    if d < 10 {
        (48 + d) as char
    } else {
        (87 + d) as char
    }
}

/// How a character is written inside a JSON string.
pub open spec fn json_escape(c: char) -> Seq<char> {
    if c == '"' || c == '\\' {
        seq!['\\', c]
    } else if c == '\u{8}' {
        seq!['\\', 'b']
    } else if c == '\u{9}' {
        seq!['\\', 't']
    } else if c == '\u{a}' {
        seq!['\\', 'n']
    } else if c == '\u{c}' {
        seq!['\\', 'f']
    } else if c == '\u{d}' {
        seq!['\\', 'r']
    } else if (c as int) < 32 {
        seq!['\\', 'u', '0', '0', hex_digit(c as int / 16), hex_digit(c as int % 16)]
    } else {
        seq![c]
    }
}

/// The characters of `s` as they are written inside a JSON string.
pub open spec fn json_escaped(s: Seq<char>) -> Seq<char>
    decreases s.len(),
{
    if s.len() == 0 {
        Seq::empty()
    } else {
        json_escape(s[0]) + json_escaped(s.drop_first())
    }
}

/// `s` as a JSON string.
pub open spec fn json_string(s: Seq<char>) -> Seq<char> {
    seq!['"'] + json_escaped(s) + seq!['"']
}

/// A viewer's message on the wire.
pub open spec fn viewer_json(m: ViewerView) -> Seq<char> {
    match m {
        ViewerView::Part { msn, part, playlist } => "{\"type\":\"part\",\"msn\":"@ + text::decimal(
            msn as nat,
        ) + ",\"part\":"@ + text::decimal(part as nat) + ",\"playlist\":"@ + json_string(playlist)
            + "}"@,
        ViewerView::Simple { seq, playlist } => "{\"type\":\"simple\",\"seq\":"@ + text::decimal(
            seq as nat,
        ) + ",\"playlist\":"@ + json_string(playlist) + "}"@,
        ViewerView::End => "{\"type\":\"end\"}"@,
    }
}

/// A report to the origin on the wire.
pub open spec fn report_json(m: DoMsg) -> Seq<char> {
    match m {
        DoMsg::Viewers { count, msn, part } => "{\"type\":\"viewers\",\"count\":"@ + text::decimal(
            count as nat,
        ) + ",\"msn\":"@ + text::decimal(msn as nat) + ",\"part\":"@ + text::decimal(part as nat)
            + "}"@,
    }
}

/// The error type of `serde_json`.
#[verifier::external_type_specification]
#[verifier::external_body]
pub struct ExJsonError(serde_json::Error);

/// `serde_json::to_string` on a string slice: always succeeds and gives the text between
/// double quotes, with quotes, backslashes and the control characters below U+0020 escaped.
#[verifier::external_body]
fn quote_json(s: &str) -> (r: Result<String, serde_json::Error>)
    ensures
        r is Ok,
        r->Ok_0@ == json_string(s@),
{
    serde_json::to_string(s)
}

/// Whether a playlist that has reached `(cur_msn, cur_part)` holds `(req_msn, req_part)`.
pub fn satisfies(cur_msn: u64, cur_part: u32, req_msn: u64, req_part: u32) -> (b: bool)
    ensures
        b == reached(cur_msn, cur_part, req_msn, req_part),
{
    cur_msn > req_msn || (cur_msn == req_msn && cur_part >= req_part)
}

/// Whether a request with this query string takes whatever playlist there is.
pub fn is_initial_request(query: Option<&str>) -> (b: bool)
    ensures
        b == asks_for_current(text::opt_str(query)),
{
    match query {
        Some(q) => !text::contains_text(q, "_HLS_msn"),
        None => true,
    }
}

/// Writes a viewer's message for the wire.
pub fn encode_viewer_msg(m: &ViewerMsg<'_>) -> (json: String)
    ensures
        json@ == viewer_json(m@),
{
    match *m {
        ViewerMsg::Part { msn, part, playlist } => {
            let mut json = "{\"type\":\"part\",\"msn\":".to_owned();
            json.append(text::to_decimal(msn).as_str());
            json.append(",\"part\":");
            json.append(text::to_decimal(part as u64).as_str());
            json.append(",\"playlist\":");
            json.append(quote_json(playlist).unwrap().as_str());
            json.append("}");
            json
        },
        ViewerMsg::Simple { seq, playlist } => {
            let mut json = "{\"type\":\"simple\",\"seq\":".to_owned();
            json.append(text::to_decimal(seq).as_str());
            json.append(",\"playlist\":");
            json.append(quote_json(playlist).unwrap().as_str());
            json.append("}");
            json
        },
        ViewerMsg::End => "{\"type\":\"end\"}".to_owned(),
    }
}

/// Writes a report to the origin for the wire.
pub fn encode_do_msg(m: &DoMsg) -> (json: String)
    ensures
        json@ == report_json(*m),
{
    match *m {
        DoMsg::Viewers { count, msn, part } => {
            let mut json = "{\"type\":\"viewers\",\"count\":".to_owned();
            json.append(text::to_decimal(count as u64).as_str());
            json.append(",\"msn\":");
            json.append(text::to_decimal(msn).as_str());
            json.append(",\"part\":");
            json.append(text::to_decimal(part as u64).as_str());
            json.append("}");
            json
        },
    }
}

/// Positions in a playlist are totally ordered: every playlist holds the position it has
/// reached, of two positions one holds the other, two that hold each other are the same, and
/// what holds a position holds whatever that position holds.
pub proof fn law_positions_are_totally_ordered(
    a_msn: u64,
    a_part: u32,
    b_msn: u64,
    b_part: u32,
    c_msn: u64,
    c_part: u32,
)
    ensures
        reached(a_msn, a_part, a_msn, a_part),
        reached(a_msn, a_part, b_msn, b_part) || reached(b_msn, b_part, a_msn, a_part),
        reached(a_msn, a_part, b_msn, b_part) && reached(b_msn, b_part, a_msn, a_part) ==> a_msn
            == b_msn && a_part == b_part,
        reached(a_msn, a_part, b_msn, b_part) && reached(b_msn, b_part, c_msn, c_part) ==> reached(
            a_msn,
            a_part,
            c_msn,
            c_part,
        ),
{
}

/// Where the ways of writing two characters agree as far as both go, the characters are the
/// same.
proof fn lemma_escapes_differ(c: char, d: char)
    requires
        forall|i: int|
            0 <= i < json_escape(c).len() && i < json_escape(d).len() ==> json_escape(c)[i]
                == json_escape(d)[i],
    ensures
        c == d,
{
    let u = json_escape(c);
    let v = json_escape(d);
    assert(u[0] == v[0]);
    if u.len() > 1 && v.len() > 1 {
        assert(u[1] == v[1]);
        if u.len() == 6 && v.len() == 6 {
            assert(u[4] == v[4]);
            assert(u[5] == v[5]);
            assert(u[4] == hex_digit(c as int / 16));
            assert(u[5] == hex_digit(c as int % 16));
            assert(v[4] == hex_digit(d as int / 16));
            assert(v[5] == hex_digit(d as int % 16));
            assert(c as int == d as int);
        }
    }
}

/// Texts can be read back from JSON: two texts that are written the same up to the closing
/// quote are the same, and so is what follows.
proof fn lemma_json_is_read_back(s: Seq<char>, x: Seq<char>, t: Seq<char>, y: Seq<char>)
    requires
        json_escaped(s) + seq!['"'] + x == json_escaped(t) + seq!['"'] + y,
    ensures
        s == t,
        x == y,
    decreases s.len(),
{
    let left = json_escaped(s) + seq!['"'] + x;
    let right = json_escaped(t) + seq!['"'] + y;
    if s.len() == 0 && t.len() == 0 {
        assert(s =~= t);
        assert(left.skip(1) =~= x);
        assert(right.skip(1) =~= y);
    } else if s.len() == 0 {
        let d = json_escape(t[0]);
        assert(right[0] == d[0]);
        assert(left[0] == '"');
    } else if t.len() == 0 {
        let c = json_escape(s[0]);
        assert(left[0] == c[0]);
        assert(right[0] == '"');
    } else {
        let c = json_escape(s[0]);
        let d = json_escape(t[0]);
        let left_rest = json_escaped(s.drop_first()) + seq!['"'] + x;
        let right_rest = json_escaped(t.drop_first()) + seq!['"'] + y;
        assert(left =~= c + left_rest);
        assert(right =~= d + right_rest);
        assert forall|i: int| 0 <= i < c.len() && i < d.len() implies c[i] == d[i] by {
            assert(left[i] == c[i]);
            assert(right[i] == d[i]);
        }
        lemma_escapes_differ(s[0], t[0]);
        assert(left.skip(c.len() as int) =~= left_rest);
        assert(right.skip(d.len() as int) =~= right_rest);
        lemma_json_is_read_back(s.drop_first(), x, t.drop_first(), y);
        assert(s =~= seq![s[0]] + s.drop_first());
        assert(t =~= seq![t[0]] + t.drop_first());
    }
}

proof fn lemma_number_is_read_back(a: nat, x: Seq<char>, b: nat, y: Seq<char>)
    requires
        text::decimal(a) + x == text::decimal(b) + y,
        x.len() > 0 && x[0] == ',',
        y.len() > 0 && y[0] == ',',
    ensures
        a == b,
        x == y,
{
    text::lemma_decimal_digits(a);
    text::lemma_decimal_digits(b);
    let u = text::decimal(a);
    let v = text::decimal(b);
    let left = u + x;
    let right = v + y;
    if u.len() < v.len() {
        assert(left[u.len() as int] == ',');
        assert(right[u.len() as int] == v[u.len() as int]);
    }
    if v.len() < u.len() {
        assert(right[v.len() as int] == ',');
        assert(left[v.len() as int] == u[v.len() as int]);
    }
    assert(left.take(u.len() as int) =~= u);
    assert(right.take(v.len() as int) =~= v);
    assert(left.skip(u.len() as int) =~= x);
    assert(right.skip(v.len() as int) =~= y);
}

proof fn lemma_same_prefix(p: Seq<char>, x: Seq<char>, y: Seq<char>)
    requires
        p + x == p + y,
    ensures
        x == y,
{
    assert((p + x).skip(p.len() as int) =~= x);
    assert((p + y).skip(p.len() as int) =~= y);
}

/// The tenth character of a message tells its kind.
proof fn lemma_message_kind(m: ViewerView)
    ensures
        viewer_json(m).len() > 9,
        viewer_json(m)[9] == (match m {
            ViewerView::Part { msn, part, playlist } => 'p',
            ViewerView::Simple { seq, playlist } => 's',
            ViewerView::End => 'e',
        }),
{
    reveal_strlit("{\"type\":\"part\",\"msn\":");
    reveal_strlit("{\"type\":\"simple\",\"seq\":");
    reveal_strlit("{\"type\":\"end\"}");
}

/// What follows the number before a playlist is read back.
proof fn lemma_playlist_is_read_back(a: nat, s: Seq<char>, b: nat, t: Seq<char>)
    requires
        text::decimal(a) + (",\"playlist\":"@ + (json_string(s) + "}"@)) == text::decimal(b) + (
        ",\"playlist\":"@ + (json_string(t) + "}"@)),
    ensures
        a == b,
        s == t,
{
    let comma = ",\"playlist\":"@;
    let x = json_string(s) + "}"@;
    let y = json_string(t) + "}"@;
    reveal_strlit(",\"playlist\":");
    lemma_number_is_read_back(a, comma + x, b, comma + y);
    lemma_same_prefix(comma, x, y);
    assert(x =~= seq!['"'] + (json_escaped(s) + seq!['"'] + "}"@));
    assert(y =~= seq!['"'] + (json_escaped(t) + seq!['"'] + "}"@));
    lemma_same_prefix(
        seq!['"'],
        json_escaped(s) + seq!['"'] + "}"@,
        json_escaped(t) + seq!['"'] + "}"@,
    );
    lemma_json_is_read_back(s, "}"@, t, "}"@);
}

proof fn lemma_regroup(
    a: Seq<char>,
    b: Seq<char>,
    c: Seq<char>,
    d: Seq<char>,
    e: Seq<char>,
    f: Seq<char>,
    g: Seq<char>,
)
    ensures
        a + b + c + d + e == a + (b + (c + (d + e))),
        a + b + c + d + e + f + g == a + (b + (c + (d + (e + (f + g))))),
{
    assert(a + b + c + d + e =~= a + (b + (c + (d + e))));
    assert(a + b + c + d + e + f + g =~= a + (b + (c + (d + (e + (f + g))))));
}

/// A viewer can tell from a message exactly what it was told: no two messages are written the
/// same.
pub proof fn law_viewer_messages_are_told_apart(a: ViewerView, b: ViewerView)
    requires
        viewer_json(a) == viewer_json(b),
    ensures
        a == b,
{
    lemma_message_kind(a);
    lemma_message_kind(b);
    let comma = ",\"playlist\":"@;
    match (a, b) {
        (
            ViewerView::Part { msn: m1, part: p1, playlist: s1 },
            ViewerView::Part { msn: m2, part: p2, playlist: s2 },
        ) => {
            let head = "{\"type\":\"part\",\"msn\":"@;
            let next = ",\"part\":"@;
            let rest1 = text::decimal(p1 as nat) + (comma + (json_string(s1) + "}"@));
            let rest2 = text::decimal(p2 as nat) + (comma + (json_string(s2) + "}"@));
            let all1 = text::decimal(m1 as nat) + (next + rest1);
            let all2 = text::decimal(m2 as nat) + (next + rest2);
            lemma_regroup(
                head,
                text::decimal(m1 as nat),
                next,
                text::decimal(p1 as nat),
                comma,
                json_string(s1),
                "}"@,
            );
            lemma_regroup(
                head,
                text::decimal(m2 as nat),
                next,
                text::decimal(p2 as nat),
                comma,
                json_string(s2),
                "}"@,
            );
            lemma_same_prefix(head, all1, all2);
            reveal_strlit(",\"part\":");
            lemma_number_is_read_back(m1 as nat, next + rest1, m2 as nat, next + rest2);
            lemma_same_prefix(next, rest1, rest2);
            lemma_playlist_is_read_back(p1 as nat, s1, p2 as nat, s2);
        },
        (
            ViewerView::Simple { seq: m1, playlist: s1 },
            ViewerView::Simple { seq: m2, playlist: s2 },
        ) => {
            let head = "{\"type\":\"simple\",\"seq\":"@;
            let all1 = text::decimal(m1 as nat) + (comma + (json_string(s1) + "}"@));
            let all2 = text::decimal(m2 as nat) + (comma + (json_string(s2) + "}"@));
            let none = Seq::<char>::empty();
            lemma_regroup(
                head,
                text::decimal(m1 as nat),
                comma,
                json_string(s1),
                "}"@,
                none,
                none,
            );
            lemma_regroup(
                head,
                text::decimal(m2 as nat),
                comma,
                json_string(s2),
                "}"@,
                none,
                none,
            );
            lemma_same_prefix(head, all1, all2);
            lemma_playlist_is_read_back(m1 as nat, s1, m2 as nat, s2);
        },
        _ => {},
    }
}

/// A playlist has reached a position if and only if its own is not before it, in the order in
/// which parts are numbered within segments.
pub proof fn law_reached_positions_are_not_ahead(
    cur_msn: u64,
    cur_part: u32,
    req_msn: u64,
    req_part: u32,
)
    ensures
        reached(cur_msn, cur_part, req_msn, req_part) <==> cur_msn * 0x1_0000_0000 + cur_part
            >= req_msn * 0x1_0000_0000 + req_part,
{
}

/// A request takes what there is if and only if its query does not name a media sequence number
/// anywhere.
pub proof fn law_queries_that_name_a_position_wait(query: Seq<char>)
    ensures
        asks_for_current(None),
        asks_for_current(Some(query)) <==> !exists|a: Seq<char>, b: Seq<char>|
            query == #[trigger] (a + "_HLS_msn"@ + b),
{
    text::law_occurrence_is_a_part(query, 0, "_HLS_msn"@);
}

/// A message names its type and its fields, in this order and with these values.
pub proof fn law_messages_have_their_wire_form(
    count: u32,
    msn: u64,
    part: u32,
    seq: u64,
    playlist: Seq<char>,
)
    ensures
        viewer_json(ViewerView::Part { msn, part, playlist }) == "{\"type\":\"part\",\"msn\":"@
            + text::decimal(msn as nat) + ",\"part\":"@ + text::decimal(part as nat)
            + ",\"playlist\":"@ + json_string(playlist) + "}"@,
        viewer_json(ViewerView::Simple { seq, playlist }) == "{\"type\":\"simple\",\"seq\":"@
            + text::decimal(seq as nat) + ",\"playlist\":"@ + json_string(playlist) + "}"@,
        viewer_json(ViewerView::End) == "{\"type\":\"end\"}"@,
        report_json(DoMsg::Viewers { count, msn, part }) == "{\"type\":\"viewers\",\"count\":"@
            + text::decimal(count as nat) + ",\"msn\":"@ + text::decimal(msn as nat)
            + ",\"part\":"@ + text::decimal(part as nat) + "}"@,
{
}

/// A text is quoted character by character: quotes, backslashes and control characters are
/// escaped, and every other character stands for itself.
pub proof fn law_texts_are_quoted_character_by_character(a: Seq<char>, b: Seq<char>, c: char)
    ensures
        json_string(a) == seq!['"'] + json_escaped(a) + seq!['"'],
        json_escaped(Seq::empty()) == Seq::<char>::empty(),
        json_escaped(a + b) == json_escaped(a) + json_escaped(b),
        (c as int) >= 32 && c != '"' && c != '\\' ==> json_escaped(seq![c]) == seq![c],
        c == '"' || c == '\\' ==> json_escaped(seq![c]) == seq!['\\', c],
        (c as int) < 32 ==> json_escaped(seq![c]).len() >= 2 && json_escaped(seq![c])[0] == '\\',
    decreases a.len(),
{
    reveal_with_fuel(json_escaped, 2);
    assert(seq![c].drop_first() =~= Seq::empty());
    assert(json_escape(c) + Seq::<char>::empty() =~= json_escape(c));
    if a.len() == 0 {
        assert(a + b =~= b);
        assert(Seq::<char>::empty() + json_escaped(b) =~= json_escaped(b));
    } else {
        law_texts_are_quoted_character_by_character(a.drop_first(), b, c);
        assert((a + b).drop_first() =~= a.drop_first() + b);
        assert(json_escape(a[0]) + (json_escaped(a.drop_first()) + json_escaped(b)) =~= (
        json_escape(a[0]) + json_escaped(a.drop_first())) + json_escaped(b));
    }
}

/// A message is taken as it is.
pub proof fn law_messages_are_taken_as_they_are(msn: u64, part: u32, seq: u64, playlist: &str)
    ensures
        (ViewerMsg::Part { msn, part, playlist })@ == (ViewerView::Part {
            msn,
            part,
            playlist: playlist@,
        }),
        (ViewerMsg::Simple { seq, playlist })@ == (ViewerView::Simple { seq, playlist: playlist@ }),
        ViewerMsg::End@ == ViewerView::End,
{
}

} // verus!
