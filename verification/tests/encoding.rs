use passkeys::encoding::{decode_base64url, normalize_base64url};

const BYTES: [u8; 5] = [0xfb, 0xff, 0x00, 0x10, 0x3e];

#[test]
fn all_dialects_normalize_to_one_text() {
    for text in ["-_8AED4", "-_8AED4=", "+/8AED4=", "+/8AED4"] {
        assert_eq!(normalize_base64url(text).as_deref(), Some("-_8AED4"), "{text}");
    }
    assert_eq!(decode_base64url("-_8AED4"), Some(BYTES.to_vec()));
}

#[test]
fn every_length_of_padding_is_dropped() {
    assert_eq!(normalize_base64url("").as_deref(), Some(""));
    assert_eq!(normalize_base64url("QQ==").as_deref(), Some("QQ"));
    assert_eq!(normalize_base64url("QUI=").as_deref(), Some("QUI"));
    assert_eq!(normalize_base64url("QUJD").as_deref(), Some("QUJD"));
}

#[test]
fn normalizing_twice_changes_nothing() {
    for text in ["+/8AED4=", "QQ==", "", "QUJDRA"] {
        let once = normalize_base64url(text).unwrap();
        assert_eq!(normalize_base64url(&once), Some(once.clone()));
    }
}

#[test]
fn text_that_is_no_base64_is_refused() {
    for text in ["Q", "Q=", "Q===", "QQ=", "QQ===", "Q Q=", "+_8A", "QR==", "QUJ=", "é", "QQ==QQ=="] {
        assert_eq!(normalize_base64url(text), None, "{text}");
    }
}

#[test]
fn client_data_is_decoded_from_unpadded_url_safe_text_only() {
    assert_eq!(decode_base64url("QQ"), Some(vec![0x41]));
    assert_eq!(decode_base64url("QQ=="), None);
    assert_eq!(decode_base64url("+/8AED4"), None);
    assert_eq!(decode_base64url("QR"), None);
    assert_eq!(decode_base64url(""), Some(Vec::new()));
}
