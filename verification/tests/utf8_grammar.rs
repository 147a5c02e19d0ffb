use pgtuna::utf8::validate_utf8;

#[test]
fn well_formed_sequences_are_accepted() {
    assert!(validate_utf8(b""));
    assert!(validate_utf8(b"hello, pipe"));
    assert!(validate_utf8(&[0x7f]));
    // Two-byte form (cent sign), three-byte form (euro sign), four-byte form
    // (an emoji), then all three in a row.
    assert!(validate_utf8(&[0xc2, 0xa2]));
    assert!(validate_utf8(&[0xe2, 0x82, 0xac]));
    assert!(validate_utf8(&[0xf0, 0x9f, 0x98, 0x80]));
    assert!(validate_utf8(&[
        0xc2, 0xa2, 0xe2, 0x82, 0xac, 0xf0, 0x9f, 0x98, 0x80, 0x21
    ]));
    // Boundary forms: the lowest and highest two-byte, the ED range just
    // below the surrogates, and the last code point.
    assert!(validate_utf8(&[0xc2, 0x80]));
    assert!(validate_utf8(&[0xdf, 0xbf]));
    assert!(validate_utf8(&[0xed, 0x9f, 0xbf]));
    assert!(validate_utf8(&[0xee, 0x80, 0x80]));
    assert!(validate_utf8(&[0xf4, 0x8f, 0xbf, 0xbf]));
}

#[test]
fn malformed_sequences_are_rejected() {
    // A lone continuation byte, and truncated multi-byte forms.
    assert!(!validate_utf8(&[0x80]));
    assert!(!validate_utf8(&[0xc2]));
    assert!(!validate_utf8(&[0xe2, 0x82]));
    assert!(!validate_utf8(&[0xf0, 0x9f, 0x98]));
    assert!(!validate_utf8(b"ok\xc2"));
    // Overlong encodings.
    assert!(!validate_utf8(&[0xc0, 0xaf]));
    assert!(!validate_utf8(&[0xc1, 0x80]));
    assert!(!validate_utf8(&[0xe0, 0x80, 0x80]));
    assert!(!validate_utf8(&[0xf0, 0x80, 0x80, 0x80]));
    // Surrogate code points.
    assert!(!validate_utf8(&[0xed, 0xa0, 0x80]));
    assert!(!validate_utf8(&[0xed, 0xbf, 0xbf]));
    // Past the last code point, and first bytes no form ever uses.
    assert!(!validate_utf8(&[0xf4, 0x90, 0x80, 0x80]));
    assert!(!validate_utf8(&[0xf5, 0x80, 0x80, 0x80]));
    assert!(!validate_utf8(&[0xfe]));
    assert!(!validate_utf8(&[0xff]));
    // A good head does not excuse a bad tail.
    assert!(!validate_utf8(&[0x61, 0x62, 0xe2, 0x82]));
}

#[test]
fn validator_agrees_with_the_standard_library() {
    let cases: Vec<Vec<u8>> = vec![
        b"".to_vec(),
        b"plain ascii".to_vec(),
        vec![0xc2, 0xa2, 0x21],
        vec![0xe0, 0xa0, 0x80],
        vec![0xe0, 0x9f, 0xbf],
        vec![0xed, 0x9f, 0xbf],
        vec![0xed, 0xa0, 0x80],
        vec![0xf0, 0x90, 0x80, 0x80],
        vec![0xf0, 0x8f, 0xbf, 0xbf],
        vec![0xf4, 0x8f, 0xbf, 0xbf],
        vec![0xf4, 0x90, 0x80, 0x80],
        vec![0x61, 0xc2],
        vec![0x80, 0x61],
        vec![0xc2, 0xa2, 0xe2, 0x82, 0xac, 0xf0, 0x9f, 0x98, 0x80],
    ];
    for case in cases {
        assert_eq!(
            validate_utf8(&case),
            std::str::from_utf8(&case).is_ok(),
            "disagreement on {:?}",
            case
        );
    }
}
