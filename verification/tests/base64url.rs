use control_plane_worker::base64url::decode;

#[test]
fn bytes_are_decoded() {
    for (s, bytes) in [
        ("", &b""[..]),
        ("Zg", b"f"),
        ("Zm8", b"fo"),
        ("Zm9v", b"foo"),
        ("Zm9vYg", b"foob"),
        ("Zm9vYmE", b"fooba"),
        ("Zm9vYmFy", b"foobar"),
        ("AAAA", b"\0\0\0"),
        ("-_-_", b"\xfb\xff\xbf"),
        ("____", b"\xff\xff\xff"),
        ("_w", b"\xff"),
    ] {
        assert_eq!(decode(s).as_deref(), Some(bytes));
    }
}

#[test]
fn every_character_stands_for_six_bits() {
    let alphabet = ('A'..='Z')
        .chain('a'..='z')
        .chain('0'..='9')
        .chain(['-', '_']);
    for (v, c) in alphabet.enumerate() {
        assert_eq!(decode(&format!("AAA{c}")), Some(vec![0, 0, v as u8]));
    }
}

#[test]
fn other_texts_are_not_decoded() {
    for s in [
        "A", "AAAAA", "Zg==", "Zm8=", "Zh", "Zm9", "Zm 9", "Zm9v\n", "+/+/", "\u{e9}AAA", "A.AA",
        "AA@A", "AA[A", "AA`A", "AA{A",
    ] {
        assert_eq!(decode(s), None);
    }
}
