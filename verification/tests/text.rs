use control_plane_worker::text::{
    blank, contains_text, parse_unsigned, same_text, split_on, substitute, substitute_char,
    to_decimal, trim_end, trim_start,
};

const SAMPLES: [&str; 14] = [
    "",
    "/",
    "//",
    "a",
    "/a",
    "a/",
    "//a//b//",
    "http://a/http://b",
    "https://",
    "hhttp://ttp://",
    "\u{e9}/\u{4e16}\u{754c}/\u{1f600}",
    "_HLS_msn=3&_HLS_part=1",
    "HLS_msn",
    "  \t",
];

#[test]
fn trimming_agrees_with_std() {
    for s in SAMPLES {
        assert_eq!(trim_start(s, '/'), s.trim_start_matches('/'));
        assert_eq!(trim_end(s, '/'), s.trim_end_matches('/'));
    }
    assert_eq!(trim_end("https://origin.example//", '/'), "https://origin.example");
    assert_eq!(trim_end(&trim_end("a//", '/'), '/'), trim_end("a//", '/'));
}

#[test]
fn splitting_agrees_with_std_and_loses_nothing() {
    for s in SAMPLES {
        let parts = split_on(s, '/');
        let expected: Vec<&str> = s.split('/').collect();
        assert_eq!(parts, expected);
        assert_eq!(parts.join("/"), s);
    }
    assert_eq!(split_on("", '/'), vec![""]);
    assert_eq!(split_on("a//b", '/'), vec!["a", "", "b"]);
}

#[test]
fn splitting_undoes_joining() {
    let parts = vec!["hls", "", "live", "id"];
    assert_eq!(split_on(&parts.join("/"), '/'), parts);
}

#[test]
fn replacing_agrees_with_std() {
    for s in SAMPLES {
        assert_eq!(substitute_char(s, '/', "%2F"), s.replace('/', "%2F"));
        assert_eq!(substitute(s, "http://", "ws://"), s.replace("http://", "ws://"));
        assert_eq!(substitute(s, "https://", "wss://"), s.replace("https://", "wss://"));
        assert_eq!(substitute(s, "//", "/"), s.replace("//", "/"));
        assert_eq!(contains_text(s, "_HLS_msn"), s.contains("_HLS_msn"));
        assert_eq!(contains_text(s, "//"), s.contains("//"));
    }
    assert_eq!(substitute("aaa", "aa", "b"), "ba");
    assert_eq!(substitute("plain", "http://", "ws://"), "plain");
    assert!(!substitute_char("a:b:c", ':', "%3A").contains(':'));
}

#[test]
fn equality_agrees_with_std() {
    for a in SAMPLES {
        for b in SAMPLES {
            assert_eq!(same_text(a, b), a == b);
        }
    }
}

#[test]
fn every_white_space_character_is_blank_and_no_other() {
    for c in '\u{0}'..=char::MAX {
        let mut s = String::new();
        s.push(c);
        assert_eq!(blank(&s), c.is_whitespace());
    }
    assert!(blank(""));
    assert!(blank(" \u{3000}\n"));
    assert!(!blank(" x "));
}

#[test]
fn decimals_are_written_and_read_back() {
    for n in [0, 1, 9, 10, 99, 100, 4_294_967_295, 4_294_967_296, u64::MAX] {
        assert_eq!(to_decimal(n), n.to_string());
        assert_eq!(parse_unsigned(&to_decimal(n), u64::MAX), Some(n));
    }
}

#[test]
fn numbers_are_parsed_as_std_parses_them() {
    for s in [
        "", "+", "-", "0", "+7", "-7", "007", "250", "4294967295", "4294967296", "12a", " 12",
        "1+2", "++1", "18446744073709551615", "18446744073709551616",
        "99999999999999999999999999", "\u{663}",
    ] {
        assert_eq!(parse_unsigned(s, u64::MAX), s.parse::<u64>().ok());
        assert_eq!(
            parse_unsigned(s, u32::MAX as u64),
            s.parse::<u32>().ok().map(|n| n as u64)
        );
    }
}
