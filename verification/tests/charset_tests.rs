use charset_codec::{
    decode, detect_charset, detect_encoding_name, encode, resolve_registry_label, Charset,
    CharsetError,
};

/// "いろはにほへとちりぬるを" in Shift-JIS.
fn iroha_sjis() -> Vec<u8> {
    vec![
        0x82, 0xa2, 0x82, 0xeb, 0x82, 0xcd, 0x82, 0xc9, 0x82, 0xd9, 0x82, 0xd6, 0x82, 0xc6, 0x82,
        0xbf, 0x82, 0xe8, 0x82, 0xca, 0x82, 0xe9, 0x82, 0xf0,
    ]
}

const IROHA: &str = "いろはにほへとちりぬるを";

fn confidence_of(bits: u32) -> f32 {
    f32::from_bits(bits)
}

#[test]
fn charset_handle_can_be_made() {
    let _c = Charset::new();
}

#[test]
fn confidence_is_within_unit_interval() {
    let buffers: Vec<Vec<u8>> = vec![
        vec![],
        b"hello world".to_vec(),
        iroha_sjis(),
        vec![0xff, 0x00, 0x80, 0xa0, 0x13],
        vec![0x1b, 0x24, 0x42],
        vec![0xef, 0xbb, 0xbf, b'a'],
    ];
    for b in buffers {
        let r = detect_charset(&b);
        let c = confidence_of(r.confidence_bits);
        assert!(c >= 0.0, "confidence {} below 0 for {:?}", c, b);
        assert!(c <= 1.0, "confidence {} above 1 for {:?}", c, b);
    }
}

#[test]
fn classify_never_fails_on_unclassifiable_input() {
    let r = detect_charset(&[]);
    assert_eq!(r.label, "");
    let r = detect_charset(&[0x1b]);
    assert_eq!(r.label, "");
}

#[test]
fn classify_sjis_buffer() {
    let r = detect_charset(&iroha_sjis());
    assert_eq!(r.label, "SHIFT_JIS");
    assert_eq!(r.language, "Japanese");
    let c = confidence_of(r.confidence_bits);
    assert!((c - 0.909_090_9).abs() < 1e-3, "confidence was {}", c);
}

#[test]
fn override_table_substitutes_labels() {
    assert_eq!(resolve_registry_label("MACCYRILLIC").unwrap(), "x-mac-cyrillic");
    assert_eq!(resolve_registry_label("MacCyrillic").unwrap(), "x-mac-cyrillic");
    assert_eq!(resolve_registry_label("CP932").unwrap(), "windows-31j");
    assert_eq!(resolve_registry_label("cp932").unwrap(), "windows-31j");
    assert_eq!(resolve_registry_label("CP949").unwrap(), "windows-949");
    assert_eq!(resolve_registry_label("cp949").unwrap(), "windows-949");
}

#[test]
fn other_labels_pass_through_unchanged() {
    assert_eq!(resolve_registry_label("UTF-8").unwrap(), "UTF-8");
    assert_eq!(resolve_registry_label("SHIFT_JIS").unwrap(), "SHIFT_JIS");
    assert_eq!(resolve_registry_label("windows-1252").unwrap(), "windows-1252");
}

#[test]
fn empty_detection_label_is_unknown() {
    assert_eq!(
        resolve_registry_label(""),
        Err(CharsetError::UnknownEncoding { label: None })
    );
}

#[test]
fn unsupported_set_fails_closed() {
    for l in [
        "UTF-32BE",
        "UTF-32LE",
        "X-ISO-100646-UCS-4-2143",
        "X-ISO-10646-UCS-4-3412",
        "X-EUC-TW",
        "IBM855",
    ] {
        assert_eq!(
            resolve_registry_label(l),
            Err(CharsetError::UnsupportedEncoding { detected: l.to_string() })
        );
        let lower = l.to_ascii_lowercase();
        assert_eq!(
            resolve_registry_label(&lower),
            Err(CharsetError::UnsupportedEncoding { detected: lower.clone() })
        );
    }
}

#[test]
fn unlabeled_decode_of_unsupported_detection_fails() {
    // A UTF-32LE byte-order mark: the detector names UTF-32LE, which the
    // registry cannot represent.
    let bytes = vec![0xff, 0xfe, 0x00, 0x00, 0x41, 0x00, 0x00, 0x00];
    assert_eq!(detect_charset(&bytes).label, "UTF-32LE");
    assert_eq!(
        detect_encoding_name(&bytes),
        Err(CharsetError::UnsupportedEncoding { detected: "UTF-32LE".to_string() })
    );
    assert_eq!(
        decode(&bytes, None),
        Err(CharsetError::UnsupportedEncoding { detected: "UTF-32LE".to_string() })
    );
}

#[test]
fn unknown_label_fails_decode_and_encode() {
    assert_eq!(
        decode(b"abc", Some("no-such-encoding")),
        Err(CharsetError::UnknownEncoding { label: Some("no-such-encoding".to_string()) })
    );
    assert_eq!(
        encode("abc", "no-such-encoding"),
        Err(CharsetError::UnknownEncoding { label: Some("no-such-encoding".to_string()) })
    );
}

#[test]
fn sjis_decode_with_detection() {
    assert_eq!(detect_encoding_name(&iroha_sjis()).unwrap(), "SHIFT_JIS");
    assert_eq!(decode(&iroha_sjis(), None).unwrap(), IROHA);
}

#[test]
fn sjis_decode_with_explicit_label() {
    assert_eq!(decode(&iroha_sjis(), Some("shift_jis")).unwrap(), IROHA);
}

#[test]
fn sjis_encode() {
    assert_eq!(encode(IROHA, "shift_jis").unwrap(), iroha_sjis());
}

#[test]
fn sjis_round_trip() {
    let bytes = encode(IROHA, "shift_jis").unwrap();
    assert_eq!(decode(&bytes, Some("shift_jis")).unwrap(), IROHA);
}

#[test]
fn utf8_round_trip() {
    let text = "héllo, wörld — καλημέρα";
    let bytes = encode(text, "utf-8").unwrap();
    assert_eq!(decode(&bytes, Some("utf-8")).unwrap(), text);
}

#[test]
fn lossy_decode_is_invalid_input() {
    // A lone Shift-JIS lead byte cannot be decoded without replacement.
    assert_eq!(
        decode(&[0x82], Some("shift_jis")),
        Err(CharsetError::InvalidInput { label: "shift_jis".to_string() })
    );
}

#[test]
fn lossy_encode_is_invalid_input() {
    // Kana have no faithful representation in windows-1252.
    assert_eq!(
        encode(IROHA, "windows-1252"),
        Err(CharsetError::InvalidInput { label: "windows-1252".to_string() })
    );
}

#[test]
fn empty_buffer_detects_nothing_and_unlabeled_decode_fails() {
    let r = detect_charset(&[]);
    assert_eq!(r.label, "");
    assert_eq!(
        decode(&[], None),
        Err(CharsetError::UnknownEncoding { label: None })
    );
}
