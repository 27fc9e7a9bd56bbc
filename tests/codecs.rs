use helios_ts::{
    AddressSource, BigIntWords, BlockTag, EthAddress, EthU256Input, EthU256Output, JsBlockTag,
    U256Source, ValidationError,
};

fn text_u256(s: &str) -> Result<EthU256Input, ValidationError> {
    EthU256Input::decode(&U256Source::Text(s.to_string()))
}

fn bigint(sign_bit: bool, words: Vec<u64>) -> BigIntWords {
    BigIntWords { sign_bit, words }
}

#[test]
fn address_from_lowercase_hex() {
    let s = format!("0x{}", "00112233445566778899aabbccddeeff01234567");
    let a = EthAddress::decode(&AddressSource::Text(s)).unwrap();
    assert_eq!(
        a.0,
        [
            0x00, 0x11, 0x22, 0x33, 0x44, 0x55, 0x66, 0x77, 0x88, 0x99, 0xaa, 0xbb, 0xcc, 0xdd,
            0xee, 0xff, 0x01, 0x23, 0x45, 0x67
        ]
    );
}

#[test]
fn address_from_uppercase_hex() {
    let s = format!("0x{}", "ABCDEF".repeat(6) + "ABCD");
    let a = EthAddress::decode(&AddressSource::Text(s)).unwrap();
    assert_eq!(a.0[0], 0xab);
    assert_eq!(a.0[1], 0xcd);
    assert_eq!(a.0[19], 0xcd);
}

#[test]
fn address_hex_too_short() {
    let s = format!("0x{}", "a".repeat(39));
    let r = EthAddress::decode(&AddressSource::Text(s));
    assert_eq!(r, Err(ValidationError::MalformedAddress));
}

#[test]
fn address_hex_without_prefix() {
    let s = "a".repeat(42);
    let r = EthAddress::decode(&AddressSource::Text(s));
    assert_eq!(r, Err(ValidationError::MalformedAddress));
}

#[test]
fn address_hex_bad_digit() {
    let s = format!("0x{}g", "a".repeat(39));
    let r = EthAddress::decode(&AddressSource::Text(s));
    assert_eq!(r, Err(ValidationError::MalformedAddress));
}

#[test]
fn address_from_twenty_bytes() {
    let bytes: Vec<u8> = (1..=20).collect();
    let a = EthAddress::decode(&AddressSource::Bytes(bytes.clone())).unwrap();
    assert_eq!(a.0.to_vec(), bytes);
}

#[test]
fn address_from_nineteen_bytes() {
    let r = EthAddress::decode(&AddressSource::Bytes(vec![0u8; 19]));
    assert_eq!(r, Err(ValidationError::WrongByteLength));
}

#[test]
fn address_from_other_value() {
    assert_eq!(EthAddress::decode(&AddressSource::Other), Err(ValidationError::UnsupportedType));
}

#[test]
fn u256_from_hex_text() {
    assert_eq!(text_u256("0x1f").unwrap().0, [31, 0, 0, 0]);
    assert_eq!(text_u256("0x10000000000000000").unwrap().0, [0, 1, 0, 0]);
    assert_eq!(text_u256("0xABC").unwrap().0, [0xabc, 0, 0, 0]);
}

#[test]
fn u256_from_largest_hex_text() {
    let s = format!("0x{}", "f".repeat(64));
    assert_eq!(text_u256(&s).unwrap().0, [u64::MAX; 4]);
}

#[test]
fn u256_hex_text_too_long() {
    let s = format!("0x1{}", "0".repeat(64));
    assert_eq!(text_u256(&s), Err(ValidationError::MalformedNumber));
}

#[test]
fn u256_hex_text_bad_digit() {
    assert_eq!(text_u256("0x12z"), Err(ValidationError::MalformedNumber));
}

#[test]
fn u256_from_decimal_text() {
    assert_eq!(text_u256("12345").unwrap().0, [12345, 0, 0, 0]);
    assert_eq!(text_u256("18446744073709551616").unwrap().0, [0, 1, 0, 0]);
}

#[test]
fn u256_from_largest_decimal_text() {
    let s = "115792089237316195423570985008687907853269984665640564039457584007913129639935";
    assert_eq!(text_u256(s).unwrap().0, [u64::MAX; 4]);
}

#[test]
fn u256_decimal_text_overflow() {
    let s = "115792089237316195423570985008687907853269984665640564039457584007913129639936";
    assert_eq!(text_u256(s), Err(ValidationError::MalformedNumber));
}

#[test]
fn u256_decimal_text_bad_digit() {
    assert_eq!(text_u256("12a"), Err(ValidationError::MalformedNumber));
    assert_eq!(text_u256("-1"), Err(ValidationError::MalformedNumber));
}

#[test]
fn u256_negative_bigint() {
    let r = EthU256Input::decode(&U256Source::BigInt(bigint(true, vec![1])));
    assert_eq!(r, Err(ValidationError::NegativeValue));
}

#[test]
fn u256_bigint_with_five_words_is_refused() {
    let r = EthU256Input::decode(&U256Source::BigInt(bigint(false, vec![1, 2, 3, 4, 5])));
    assert_eq!(r, Err(ValidationError::ValueTooLarge));
}

#[test]
fn u256_bigint_with_zero_high_word() {
    let r = EthU256Input::decode(&U256Source::BigInt(bigint(false, vec![1, 2, 3, 4, 0])));
    assert_eq!(r.unwrap().0, [1, 2, 3, 4]);
}

#[test]
fn u256_bigint_short() {
    let r = EthU256Input::decode(&U256Source::BigInt(bigint(false, vec![7])));
    assert_eq!(r.unwrap().0, [7, 0, 0, 0]);
    let r = EthU256Input::decode(&U256Source::BigInt(bigint(false, vec![])));
    assert_eq!(r.unwrap().0, [0, 0, 0, 0]);
}

#[test]
fn u256_from_other_value() {
    let r = EthU256Input::decode(&U256Source::Other);
    assert_eq!(r, Err(ValidationError::UnsupportedType));
}

#[test]
fn u256_round_trip() {
    let v = EthU256Output([1, u64::MAX, 0, 42]);
    let b = v.encode();
    assert!(!b.sign_bit);
    assert_eq!(b.words, vec![1, u64::MAX, 0, 42]);
    let back = EthU256Input::decode(&U256Source::BigInt(b)).unwrap();
    assert_eq!(back.0, v.0);
}

#[test]
fn u256_output_from_u64() {
    assert_eq!(EthU256Output::from_u64(99).0, [99, 0, 0, 0]);
}

#[test]
fn block_tag_symbols() {
    assert_eq!(JsBlockTag::latest().0, BlockTag::Latest);
    assert_eq!(JsBlockTag::finalized().0, BlockTag::Finalized);
}

#[test]
fn block_number_in_range() {
    let t = JsBlockTag::number(bigint(false, vec![12345])).unwrap();
    assert_eq!(t.0, BlockTag::Number(12345));
    let t = JsBlockTag::number(bigint(false, vec![u64::MAX])).unwrap();
    assert_eq!(t.0, BlockTag::Number(u64::MAX));
}

#[test]
fn block_number_two_to_the_sixty_four() {
    let r = JsBlockTag::number(bigint(false, vec![0, 1]));
    assert_eq!(r, Err(ValidationError::InvalidBlockNumber));
}

#[test]
fn block_number_negative() {
    let r = JsBlockTag::number(bigint(true, vec![5]));
    assert_eq!(r, Err(ValidationError::InvalidBlockNumber));
}

#[test]
fn block_number_with_zero_high_word() {
    let t = JsBlockTag::number(bigint(false, vec![5, 0])).unwrap();
    assert_eq!(t.0, BlockTag::Number(5));
    let t = JsBlockTag::number(bigint(false, vec![])).unwrap();
    assert_eq!(t.0, BlockTag::Number(0));
}
