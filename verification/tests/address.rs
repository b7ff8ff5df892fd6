use std::str::FromStr;
use universal_deployer::address::{
    check_address, count_prefix_match, count_zero_bytes, hex_digit_of, Address, AddressMatch,
};
use universal_deployer::opt::AddressGenerationConfig;
use universal_deployer::scalar::Scalar;

fn parse(text: &str) -> Address {
    Address(ethers::types::Address::from_str(text).unwrap().0)
}

fn config(prefix: Option<&str>, num_zero_bytes: usize) -> AddressGenerationConfig {
    AddressGenerationConfig {
        prefix: prefix.map(|p| p.to_string()),
        num_zero_bytes,
        s_start: Scalar::from_u64(1),
    }
}

#[test]
fn test_count_zero_bytes() {
    let address = parse("0x0000000000000000000000000000000000000000");
    assert_eq!(20, count_zero_bytes(address));
    let address = parse("0xffffffffffffffffffffffffffffffffffffffff");
    assert_eq!(0, count_zero_bytes(address));
    let address = parse("0xffffffff00ffffff00ffffffffffffffffffffff");
    assert_eq!(2, count_zero_bytes(address));
    let address = parse("0xffffffff00ffffff000fffffffffffffffffffff");
    assert_eq!(2, count_zero_bytes(address));
    let address = parse("0xffffffff00ffffff0fffffffffffffffffffffff");
    assert_eq!(1, count_zero_bytes(address));
    let address = parse("0xffffffffffffffffffffffffffffffffffffff00");
    assert_eq!(1, count_zero_bytes(address));
    let address = parse("0xffffffffffffffffffffffffffffffffffffff01");
    assert_eq!(0, count_zero_bytes(address));
    let address = parse("0xfffffffffffffffffffffffffffffffffffffff0");
    assert_eq!(0, count_zero_bytes(address));
}

#[test]
fn test_count_prefix_match() {
    let address = parse("0x0000ffffffffffffffffffffffffffffffffffff");
    assert_eq!(4, count_prefix_match(address, "0000"));
    assert_eq!(0, count_prefix_match(address, "ffff"));
    assert_eq!(2, count_prefix_match(address, "00ff"));
    assert_eq!(2, count_prefix_match(address, "00"));
    assert_eq!(0, count_prefix_match(address, "ff"));
    let address = parse("0xffffffffffffffffffffffffffffffffffffffff");
    assert_eq!(0, count_prefix_match(address, "0000"));
}

#[test]
fn test_check_address_only_prefix() {
    let config = AddressGenerationConfig {
        prefix: Some("0000".to_string()),
        num_zero_bytes: 0,
        s_start: Scalar::from_u64(1),
    };
    let address = parse("0x0000ffffffffffffffffffffffffffffffffffff");
    assert_eq!(check_address(address, &config), AddressMatch::Match);
    let address = parse("0x000000ffffffffffffffffffffffffffffffffff");
    assert_eq!(check_address(address, &config), AddressMatch::Match);
    let address = parse("0x00ffffffffffffffffffffffffffffffffffffff");
    assert_eq!(check_address(address, &config), AddressMatch::NoMatch(2));
    let address = parse("0x0fffffffffffffffffffffffffffffffffffffff");
    assert_eq!(check_address(address, &config), AddressMatch::NoMatch(1));
    let address = parse("0xffffffffffffffffffffffffffffffffffffffff");
    assert_eq!(check_address(address, &config), AddressMatch::NoMatch(0));
}

#[test]
fn test_check_address_only_zeroes() {
    let config = AddressGenerationConfig {
        prefix: None,
        num_zero_bytes: 4,
        s_start: Scalar::from_u64(1),
    };
    let address = parse("0xff00ff00ff00ff00ffffffffffffffffffffffff");
    assert_eq!(check_address(address, &config), AddressMatch::Match);
    let address = parse("0xff00ff00ff00ff00ff00ffffffffffffffffffff");
    assert_eq!(check_address(address, &config), AddressMatch::Match);
    let address = parse("0x00ffffffffffffffffffffffffffffffffffffff");
    assert_eq!(check_address(address, &config), AddressMatch::NoMatch(1));
    let address = parse("0x0fffffffffffffffffffffffffffffffffff00ff");
    assert_eq!(check_address(address, &config), AddressMatch::NoMatch(1));
    let address = parse("0xffffffffffffffffffffffffffffffffffffffff");
    assert_eq!(check_address(address, &config), AddressMatch::NoMatch(0));
    let address = parse("0xf0ff0fff0ff0fff0ffffffffffffffffffffffff");
    assert_eq!(check_address(address, &config), AddressMatch::NoMatch(0));
}

#[test]
fn unconstrained_config_matches_everything() {
    let config = config(None, 0);
    for text in [
        "0x0000000000000000000000000000000000000000",
        "0xffffffffffffffffffffffffffffffffffffffff",
        "0x0123456789abcdef0123456789abcdef01234567",
    ] {
        assert_eq!(check_address(parse(text), &config), AddressMatch::Match);
    }
}

#[test]
fn prefix_scenarios() {
    let address = parse("0x0000ffffffffffffffffffffffffffffffffffff");
    assert_eq!(check_address(address, &config(Some("0000"), 0)), AddressMatch::Match);
    assert_eq!(check_address(address, &config(Some("ffff"), 0)), AddressMatch::NoMatch(0));
    assert_eq!(check_address(address, &config(Some("00ff"), 0)), AddressMatch::NoMatch(2));
}

#[test]
fn zero_byte_threshold_met_exactly() {
    let address = parse("0xff00ff00ff00ff00ffffffffffffffffffffffff");
    assert_eq!(check_address(address, &config(None, 4)), AddressMatch::Match);
    assert_eq!(check_address(address, &config(None, 5)), AddressMatch::NoMatch(4));
}

#[test]
fn prefix_match_is_case_sensitive_and_reads_every_digit() {
    let address = parse("0x0123456789abcdef0123456789abcdef01234567");
    let full = "0123456789abcdef0123456789abcdef01234567";
    assert_eq!(count_prefix_match(address, full), 40);
    assert_eq!(check_address(address, &config(Some(full), 0)), AddressMatch::Match);
    assert_eq!(count_prefix_match(address, "0123456789ABCDEF"), 10);
    assert_eq!(count_prefix_match(address, ""), 0);
    assert_eq!(check_address(address, &config(Some(""), 0)), AddressMatch::Match);
}

#[test]
fn prefix_longer_than_the_address_never_matches() {
    let address = parse("0xffffffffffffffffffffffffffffffffffffffff");
    let long = "f".repeat(41);
    assert_eq!(count_prefix_match(address, &long), 40);
    assert_eq!(check_address(address, &config(Some(&long), 0)), AddressMatch::NoMatch(40));
    let longer = "f".repeat(100);
    assert_eq!(check_address(address, &config(Some(&longer), 0)), AddressMatch::NoMatch(40));
}

#[test]
fn combined_config_matches_when_both_are_met() {
    let address = parse("0x0000ff00ffffffffffffffffffffffffffffffff");
    assert_eq!(check_address(address, &config(Some("0000"), 3)), AddressMatch::Match);
    assert_eq!(check_address(address, &config(Some("0000"), 2)), AddressMatch::Match);
    assert_eq!(check_address(address, &config(Some("0000"), 1)), AddressMatch::Match);
}

#[test]
fn combined_config_full_prefix_adds_zero_bytes() {
    let address = parse("0x0000ff00ffffffffffffffffffffffffffffffff");
    assert_eq!(check_address(address, &config(Some("0000"), 4)), AddressMatch::NoMatch(7));
    let none_beyond = parse("0xabcdffffffffffffffffffffffffffffffffffff");
    assert_eq!(check_address(none_beyond, &config(Some("abcd"), 1)), AddressMatch::NoMatch(4));
}

#[test]
fn combined_config_partial_prefix_gets_no_zero_byte_credit() {
    let many_zeros = parse("0x00f0000000000000000000000000000000000000");
    assert_eq!(check_address(many_zeros, &config(Some("0000"), 20)), AddressMatch::NoMatch(2));
    let full_prefix = parse("0x0000ffffffffffffffffffffffffffffffffffff");
    assert_eq!(check_address(full_prefix, &config(Some("0000"), 20)), AddressMatch::NoMatch(6));
    let bare_full = parse("0xabcdffffffffffffffffffffffffffffffffffff");
    let partial = parse("0xabc0000000000000000000000000000000000000");
    let both = config(Some("abcd"), 20);
    assert_eq!(check_address(bare_full, &both), AddressMatch::NoMatch(4));
    assert_eq!(check_address(partial, &both), AddressMatch::NoMatch(3));
}

#[test]
fn non_hex_prefix_scores_zero() {
    let address = parse("0x0000ffffffffffffffffffffffffffffffffffff");
    assert_eq!(check_address(address, &config(Some("zz"), 0)), AddressMatch::NoMatch(0));
    assert_eq!(check_address(address, &config(Some("0\u{e9}"), 0)), AddressMatch::NoMatch(1));
}

#[test]
fn hex_digits_are_lower_case() {
    let digits: Vec<char> = (0u8..16).map(hex_digit_of).collect();
    let text: String = digits.into_iter().collect();
    assert_eq!(text, "0123456789abcdef");
}

#[test]
fn hex_form_agrees_with_the_address_formatter() {
    let outside = ethers::types::Address::from_str("0x0123456789abcdef0fedcba9876543210a0b0c0d")
        .unwrap();
    let text = format!("{:x}", outside);
    assert_eq!(count_prefix_match(Address(outside.0), &text), 40);
}
