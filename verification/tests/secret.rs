use estranged::error::Error;
use estranged::header::{
    authorized, header_value_from_str, header_value_to_str, InvalidHeader, MaxBotApiSecret,
};
use estranged::secret::{is_valid_secret, Secret};

#[test]
fn secret_accepts_the_pattern() {
    for s in ["abcde", "A-b_9", "0123456789", "____-"] {
        let secret = Secret::from_str(s).unwrap();
        assert_eq!(secret.as_str(), s);
        assert_eq!(secret.to_string(), s);
    }
    let longest = "a".repeat(256);
    assert!(Secret::from_str(&longest).is_ok());
}

#[test]
fn secret_rejects_what_the_pattern_does_not_match() {
    for s in ["", "abcd", "abc de", "abcd!", "abcdé", "abcde\n", "аbcde"] {
        assert_eq!(Secret::from_str(s).err(), Some(Error::Invalid));
        assert!(!is_valid_secret(s));
    }
    assert!(Secret::from_str(&"a".repeat(257)).is_err());
}

#[test]
fn secrets_compare_by_text() {
    let a = Secret::from_str("secret-1").unwrap();
    let b = Secret::from_str("secret-1").unwrap();
    let c = Secret::from_str("secret-2").unwrap();
    assert!(a == b);
    assert!(a != c);
    assert!(a.clone() == a);
}

#[test]
fn header_value_text_needs_visible_ascii() {
    assert_eq!(header_value_to_str(b"abc def\t~"), Some("abc def\t~".to_string()));
    assert_eq!(header_value_to_str(b"abc\x7f"), None);
    assert_eq!(header_value_to_str(b"\x00"), None);
    assert_eq!(header_value_to_str("é".as_bytes()), None);
    assert_eq!(header_value_to_str(b""), Some(String::new()));
}

#[test]
fn header_value_bytes_refuse_controls() {
    assert_eq!(header_value_from_str("a b"), Some(b"a b".to_vec()));
    assert_eq!(header_value_from_str("é"), Some("é".as_bytes().to_vec()));
    assert_eq!(header_value_from_str("a\nb"), None);
    assert_eq!(header_value_from_str("a\x7fb"), None);
}

#[test]
fn header_values_agree_with_http() {
    for s in ["plain", "tab\there", "é", "bad\r\n", "del\x7f"] {
        let ours = header_value_from_str(s);
        let theirs = http::HeaderValue::from_str(s).ok().map(|v| v.as_bytes().to_vec());
        assert_eq!(ours, theirs);
        if let Some(bytes) = &theirs {
            let value = http::HeaderValue::from_bytes(bytes).unwrap();
            assert_eq!(header_value_to_str(bytes), value.to_str().ok().map(|t| t.to_string()));
        }
    }
}

#[test]
fn header_decodes_exactly_one_valid_value() {
    let got = MaxBotApiSecret::decode(&vec![b"my-secret".to_vec()]).unwrap();
    assert_eq!(got.0.as_str(), "my-secret");
    assert_eq!(MaxBotApiSecret::decode(&vec![]).err(), Some(InvalidHeader));
    assert_eq!(
        MaxBotApiSecret::decode(&vec![b"my-secret".to_vec(), b"my-secret".to_vec()]).err(),
        Some(InvalidHeader)
    );
    assert_eq!(MaxBotApiSecret::decode(&vec![b"my secret".to_vec()]).err(), Some(InvalidHeader));
    assert_eq!(MaxBotApiSecret::decode(&vec![b"my-s\x01cret".to_vec()]).err(), Some(InvalidHeader));
}

#[test]
fn header_encodes_name_and_secret_in_the_value() {
    let header = MaxBotApiSecret(Secret::from_str("my-secret").unwrap());
    let values = header.encode();
    assert_eq!(values, vec![b"x-max-bot-api-secret: my-secret".to_vec()]);
    assert_eq!(MaxBotApiSecret::decode(&values).err(), Some(InvalidHeader));
    assert_eq!(MaxBotApiSecret::name(), "x-max-bot-api-secret");
}

#[test]
fn only_the_expected_secret_is_authorized() {
    let expected = Secret::from_str("expected").unwrap();
    assert!(authorized(&expected, &Some(MaxBotApiSecret(Secret::from_str("expected").unwrap()))));
    assert!(!authorized(&expected, &Some(MaxBotApiSecret(Secret::from_str("other-one").unwrap()))));
    assert!(!authorized(&expected, &None));
}
