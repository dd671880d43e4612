use control_plane_worker::protocol::{
    encode_do_msg, encode_viewer_msg, is_initial_request, satisfies, DoMsg, HlsQuery, ViewerMsg,
};
use serde_json::Value;

#[test]
fn a_position_is_reached_by_itself_and_what_follows() {
    assert!(satisfies(5, 2, 5, 2));
    assert!(satisfies(5, 3, 5, 2));
    assert!(satisfies(6, 0, 5, 9));
    assert!(!satisfies(5, 1, 5, 2));
    assert!(!satisfies(4, 9, 5, 0));
    assert!(satisfies(0, 0, 0, 0));
}

#[test]
fn positions_are_totally_ordered() {
    let all = [(0, 0), (0, 1), (1, 0), (1, 1), (u64::MAX, 0), (u64::MAX, u32::MAX)];
    for (i, a) in all.iter().enumerate() {
        for (j, b) in all.iter().enumerate() {
            assert_eq!(satisfies(a.0, a.1, b.0, b.1), i >= j);
        }
    }
}

#[test]
fn requests_without_a_sequence_number_take_what_there_is() {
    assert!(is_initial_request(None));
    assert!(is_initial_request(Some("")));
    assert!(is_initial_request(Some("_HLS_part=3")));
    assert!(is_initial_request(Some("_hls_msn=3")));
    assert!(!is_initial_request(Some("_HLS_msn=3&_HLS_part=0")));
    assert!(!is_initial_request(Some("x=_HLS_msn")));
}

#[test]
fn the_default_position_is_the_first() {
    assert_eq!(HlsQuery::default(), HlsQuery { msn: 0, part: 0 });
}

#[test]
fn viewer_messages_have_their_wire_form() {
    assert_eq!(
        encode_viewer_msg(&ViewerMsg::Part {
            msn: 12,
            part: 3,
            playlist: "#EXTM3U\n",
        }),
        "{\"type\":\"part\",\"msn\":12,\"part\":3,\"playlist\":\"#EXTM3U\\n\"}"
    );
    assert_eq!(
        encode_viewer_msg(&ViewerMsg::Simple {
            seq: u64::MAX,
            playlist: "",
        }),
        "{\"type\":\"simple\",\"seq\":18446744073709551615,\"playlist\":\"\"}"
    );
    assert_eq!(encode_viewer_msg(&ViewerMsg::End), "{\"type\":\"end\"}");
}

#[test]
fn reports_have_their_wire_form() {
    assert_eq!(
        encode_do_msg(&DoMsg::Viewers {
            count: 7,
            msn: 0,
            part: u32::MAX,
        }),
        "{\"type\":\"viewers\",\"count\":7,\"msn\":0,\"part\":4294967295}"
    );
}

#[test]
fn playlists_are_escaped() {
    let json = encode_viewer_msg(&ViewerMsg::Simple {
        seq: 1,
        playlist: "a\"b\\c/\u{0}\u{8}\t\n\u{b}\u{c}\r\u{1f} \u{7f}\u{e9}\u{2028}\u{1f600}",
    });
    assert_eq!(
        json,
        "{\"type\":\"simple\",\"seq\":1,\"playlist\":\"a\\\"b\\\\c/\\u0000\\b\\t\\n\\u000b\\f\\r\\u001f \u{7f}\u{e9}\u{2028}\u{1f600}\"}"
    );
}

#[test]
fn every_low_character_is_read_back() {
    let mut text = String::new();
    for c in '\u{0}'..='\u{180}' {
        text.push(c);
    }
    let json = encode_viewer_msg(&ViewerMsg::Part {
        msn: 1,
        part: 2,
        playlist: &text,
    });
    let read: Value = serde_json::from_str(&json).unwrap();
    assert_eq!(read["type"], "part");
    assert_eq!(read["msn"], 1);
    assert_eq!(read["part"], 2);
    assert_eq!(read["playlist"].as_str(), Some(text.as_str()));
}

#[test]
fn different_messages_are_told_apart() {
    let all = [
        ViewerMsg::End,
        ViewerMsg::Part { msn: 1, part: 11, playlist: "" },
        ViewerMsg::Part { msn: 11, part: 1, playlist: "" },
        ViewerMsg::Part { msn: 1, part: 11, playlist: "\"}" },
        ViewerMsg::Part { msn: 1, part: 11, playlist: "\\\"}" },
        ViewerMsg::Simple { seq: 1, playlist: "" },
        ViewerMsg::Simple { seq: 1, playlist: "\n" },
        ViewerMsg::Simple { seq: 1, playlist: "\\n" },
    ];
    let texts: Vec<String> = all.iter().map(encode_viewer_msg).collect();
    for i in 0..texts.len() {
        for j in 0..texts.len() {
            assert_eq!(texts[i] == texts[j], i == j);
        }
    }
}
