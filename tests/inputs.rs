use anon_holder::parse::{parse_address, parse_signature};
use anon_holder::relay::relay_locator;
use anon_holder::types::ErrorKind;

#[test]
fn address_text_with_and_without_prefix() {
    let a = parse_address("0x3Bd57Bf93dE179d2e47e86319F144d7482503C7d").unwrap();
    let b = parse_address("3bd57bf93de179d2e47e86319f144d7482503c7d").unwrap();
    assert_eq!(a.bytes, b.bytes);
    assert_eq!(a.bytes[0], 0x3b);
    assert_eq!(a.bytes[19], 0x7d);
}

#[test]
fn bad_address_text_is_refused() {
    assert!(matches!(parse_address(""), Err(ErrorKind::InvalidAddress)));
    assert!(matches!(parse_address("0x1234"), Err(ErrorKind::InvalidAddress)));
    assert!(matches!(
        parse_address("0x3Bd57Bf93dE179d2e47e86319F144d7482503C7g"),
        Err(ErrorKind::InvalidAddress)
    ));
    assert!(matches!(
        parse_address("0x3Bd57Bf93dE179d2e47e86319F144d7482503C7d00"),
        Err(ErrorKind::InvalidAddress)
    ));
}

#[test]
fn signature_text_splits_into_r_s_v() {
    let text = format!("{}{}1b", "11".repeat(32), "22".repeat(32));
    let sig = parse_signature(&text).unwrap();
    assert_eq!(sig.r, [0x11; 32]);
    assert_eq!(sig.s, [0x22; 32]);
    assert_eq!(sig.v, 27);
}

#[test]
fn signature_text_with_prefix() {
    let body = format!("{}{}1c", "11".repeat(32), "22".repeat(32));
    for prefix in ["0x", "0X"] {
        let sig = parse_signature(&format!("{}{}", prefix, body)).unwrap();
        assert_eq!(sig.r, [0x11; 32]);
        assert_eq!(sig.s, [0x22; 32]);
        assert_eq!(sig.v, 28);
    }
    let short = format!("0x{}", "11".repeat(64));
    assert!(matches!(parse_signature(&short), Err(ErrorKind::InvalidSignature)));
}

#[test]
fn bad_signature_text_is_refused() {
    assert!(matches!(parse_signature("1234"), Err(ErrorKind::InvalidSignature)));
    let odd = format!("{}1", "11".repeat(64));
    assert!(matches!(parse_signature(&odd), Err(ErrorKind::InvalidSignature)));
    let bad = format!("{}zz", "11".repeat(64));
    assert!(matches!(parse_signature(&bad), Err(ErrorKind::InvalidSignature)));
}

#[test]
fn relay_reply_is_trimmed() {
    let reply = b"https://termbin.com/abcd\n\0\0".to_vec();
    assert_eq!(relay_locator(&reply).unwrap(), b"https://termbin.com/abcd".to_vec());
    assert_eq!(relay_locator(&b"  x y \t".to_vec()).unwrap(), b"x y".to_vec());
}

#[test]
fn empty_relay_reply_is_refused() {
    assert!(relay_locator(&vec![]).is_none());
    assert!(relay_locator(&b" \n\0".to_vec()).is_none());
}
