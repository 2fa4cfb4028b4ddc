use wasefire_tools::hex::{Hex, HexError, HexErrorKind};

fn error(input: &str) -> HexError {
    match Hex::from_str(input) {
        Ok(hex) => panic!("{:?}", hex),
        Err(error) => error,
    }
}

#[test]
fn bytes_are_shown_in_lower_case() {
    assert_eq!(Hex(vec![0xde, 0xad, 0xbe, 0xef]).to_string(), "deadbeef");
    assert_eq!(Hex(vec![0x00, 0x0a, 0xf0, 0x9f]).to_string(), "000af09f");
    assert_eq!(Hex(vec![]).to_string(), "");
}

#[test]
fn digits_are_read_in_either_case() {
    assert_eq!(Hex::from_str("DeadBeef").unwrap().0, [0xde, 0xad, 0xbe, 0xef]);
    assert_eq!(Hex::from_str("0123456789abcdefABCDEF").unwrap().0, [
        0x01, 0x23, 0x45, 0x67, 0x89, 0xab, 0xcd, 0xef, 0xab, 0xcd, 0xef
    ]);
    assert!(Hex::from_str("").unwrap().0.is_empty());
}

#[test]
fn odd_length_is_refused_before_wrong_digits() {
    assert_eq!(error("abc"), HexError { position: 2, kind: HexErrorKind::Length });
    assert_eq!(error("0"), HexError { position: 0, kind: HexErrorKind::Length });
    assert_eq!(error("xyz"), HexError { position: 2, kind: HexErrorKind::Length });
}

#[test]
fn first_wrong_digit_is_refused() {
    assert_eq!(error("abxg"), HexError { position: 2, kind: HexErrorKind::Symbol });
    assert_eq!(error("g0"), HexError { position: 0, kind: HexErrorKind::Symbol });
    for wrong in ["/", ":", "@", "G", "`", "g", " ", "="] {
        let input = format!("0{wrong}");
        assert_eq!(error(&input), HexError { position: 1, kind: HexErrorKind::Symbol });
    }
}

#[test]
fn positions_are_in_bytes() {
    // Two bytes, of which the first is no digit.
    assert_eq!(error("00\u{e9}"), HexError { position: 2, kind: HexErrorKind::Symbol });
    // Three bytes.
    assert_eq!(error("\u{20ac}"), HexError { position: 2, kind: HexErrorKind::Length });
}

#[test]
fn shown_bytes_are_read_back() {
    let bytes: Vec<u8> = (0 ..= 255).collect();
    let text = Hex(bytes.clone()).to_string();
    assert_eq!(Hex::from_str(&text).unwrap().0, bytes);
}

#[test]
fn read_text_is_shown_in_lower_case() {
    assert_eq!(Hex::from_str("C0FFEE0d").unwrap().to_string(), "c0ffee0d");
}

#[test]
fn clone_has_the_same_bytes() {
    assert_eq!(Hex(vec![1, 2]).clone().0, [1, 2]);
}
