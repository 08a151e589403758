use nft_gateway::address::ChainAddress;
use nft_gateway::decimal::{parse_token_id, u64_to_dec_string};

#[test]
fn parse_address_with_prefix_mixed_case() {
    let a = ChainAddress::parse("0x52908400098527886E0F7030069857D2E4169EE7").unwrap();
    assert_eq!(
        a.to_hex_string().as_str(),
        "0x52908400098527886e0f7030069857d2e4169ee7"
    );
}

#[test]
fn parse_address_without_prefix() {
    let a = ChainAddress::parse("52908400098527886e0f7030069857d2e4169ee7").unwrap();
    assert_eq!(
        a.to_hex_string().as_str(),
        "0x52908400098527886e0f7030069857d2e4169ee7"
    );
}

#[test]
fn parse_address_rejects_malformed() {
    assert!(ChainAddress::parse("").is_none());
    assert!(ChainAddress::parse("0x").is_none());
    assert!(ChainAddress::parse("0x123").is_none());
    assert!(ChainAddress::parse("52908400098527886e0f7030069857d2e4169ee").is_none());
    assert!(ChainAddress::parse("0x52908400098527886e0f7030069857d2e4169ee70").is_none());
    assert!(ChainAddress::parse("0x5290840009852788gE0F7030069857D2E4169EE7").is_none());
    assert!(ChainAddress::parse("not an address").is_none());
    assert!(ChainAddress::parse("0x 2908400098527886e0f7030069857d2e4169ee7").is_none());
}

#[test]
fn address_from_bytes_needs_twenty() {
    let a = ChainAddress::from_bytes(vec![0xab; 20]).unwrap();
    assert_eq!(
        a.to_hex_string().as_str(),
        "0xabababababababababababababababababababab"
    );
    assert!(ChainAddress::from_bytes(vec![0xab; 19]).is_none());
    assert!(ChainAddress::from_bytes(vec![0xab; 21]).is_none());
    assert!(ChainAddress::from_bytes(Vec::new()).is_none());
}

#[test]
fn zero_address_renders_as_sentinel() {
    assert_eq!(
        ChainAddress::zero().to_hex_string().as_str(),
        "0x0000000000000000000000000000000000000000"
    );
}

#[test]
fn address_round_trips_through_bytes() {
    let a = ChainAddress::parse("0x52908400098527886e0f7030069857d2e4169ee7").unwrap();
    let b = ChainAddress::from_bytes(a.to_bytes()).unwrap();
    assert_eq!(a.to_hex_string().as_str(), b.to_hex_string().as_str());
}

#[test]
fn parse_token_id_accepts_decimals() {
    assert_eq!(parse_token_id("0"), Some(0));
    assert_eq!(parse_token_id("42"), Some(42));
    assert_eq!(parse_token_id("007"), Some(7));
    assert_eq!(parse_token_id("18446744073709551615"), Some(u64::MAX));
}

#[test]
fn parse_token_id_rejects_malformed() {
    assert_eq!(parse_token_id(""), None);
    assert_eq!(parse_token_id("12a"), None);
    assert_eq!(parse_token_id("-3"), None);
    assert_eq!(parse_token_id("4.2"), None);
    assert_eq!(parse_token_id(" 42"), None);
    assert_eq!(parse_token_id("18446744073709551616"), None);
}

#[test]
fn render_token_id_canonical() {
    assert_eq!(u64_to_dec_string(0).as_str(), "0");
    assert_eq!(u64_to_dec_string(7).as_str(), "7");
    assert_eq!(u64_to_dec_string(42).as_str(), "42");
    assert_eq!(u64_to_dec_string(10100).as_str(), "10100");
    assert_eq!(
        u64_to_dec_string(u64::MAX).as_str(),
        "18446744073709551615"
    );
}
