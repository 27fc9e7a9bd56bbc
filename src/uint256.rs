use crate::digits::{
    all_dec_digits, all_hex_digits, dec_value, hex_value, lemma_word_power_monotone,
    lemma_words_value_bound, lemma_words_value_high, lemma_words_value_zero, u256_limit,
    words_value,
};
use crate::error::ValidationError;
use vstd::prelude::*;
use vstd::utf8::encode_utf8;

verus! {

/// A host big integer: a sign flag and little-endian 64-bit words of any length.
#[derive(Clone, Debug)]
pub struct BigIntWords {
    pub sign_bit: bool,
    pub words: Vec<u64>,
}

/// The shapes in which a host may hand over a 256-bit unsigned integer.
#[derive(Clone, Debug)]
pub enum U256Source {
    /// Hex digits after `0x`, or decimal digits.
    Text(String),
    /// A host big integer.
    BigInt(BigIntWords),
    /// Any other kind of host value.
    Other,
}

/// A validated 256-bit unsigned integer taken from the host: four little-endian words.
#[derive(Clone, Copy, Debug, PartialEq, Eq)]
pub struct EthU256Input(pub [u64; 4]);

/// A 256-bit unsigned integer to hand back to the host: four little-endian words.
#[derive(Clone, Copy, Debug, PartialEq, Eq)]
pub struct EthU256Output(pub [u64; 4]);

/// `b` begins with `0x`.
pub open spec fn has_hex_prefix(b: Seq<u8>) -> bool {
    b.len() >= 2 && b[0] == 0x30 && b[1] == 0x78
}

/// What is left of `b` once one leading `0x` is removed.
pub open spec fn strip_hex_prefix(b: Seq<u8>) -> Seq<u8> {
    if has_hex_prefix(b) {
        b.skip(2)
    } else {
        b
    }
}

/// Hex digits that fit in 256 bits: at most 64 of them.
pub open spec fn is_u256_hex(d: Seq<u8>) -> bool {
    d.len() <= 64 && all_hex_digits(d)
}

/// Decimal digits whose value is below 2^256.
pub open spec fn is_u256_dec(d: Seq<u8>) -> bool {
    all_dec_digits(d) && dec_value(d) < u256_limit()
}

/// Every word of `w` from index `n` on is zero.
pub open spec fn fits_in_words(w: Seq<u64>, n: nat) -> bool {
    forall|i: int| n <= i < w.len() ==> #[trigger] w[i] == 0
}

/// The first `n` words of `w`, with zeros where `w` is shorter.
pub open spec fn low_words(w: Seq<u64>, n: nat) -> Seq<u64> {
    Seq::new(n, |i: int| if i < w.len() { w[i] } else { 0 })
}

/// The words that a host big integer decodes to, or why it is refused.
pub open spec fn decode_bigint(sign_bit: bool, w: Seq<u64>) -> Result<Seq<u64>, ValidationError> {
    if sign_bit {
        Err(ValidationError::NegativeValue)
    } else if words_value(w) >= u256_limit() {
        Err(ValidationError::ValueTooLarge)
    } else {
        Ok(low_words(w, 4))
    }
}

/// Dropping words that are zero, or padding with zeros, keeps the value.
proof fn lemma_low_words_value(w: Seq<u64>, n: nat)
    requires
        fits_in_words(w, n),
    ensures
        words_value(low_words(w, n)) == words_value(w),
    decreases n,
{
    let l = low_words(w, n);
    if n == 0 {
        assert forall|i: int| 0 <= i < w.len() implies #[trigger] w[i] == 0 by {}
        lemma_words_value_zero(w);
    } else if w.len() == 0 {
        assert forall|i: int| 0 <= i < l.len() implies #[trigger] l[i] == 0 by {}
        lemma_words_value_zero(l);
    } else {
        let t = w.drop_first();
        assert forall|i: int| (n - 1) <= i < t.len() implies #[trigger] t[i] == 0 by {
            assert(t[i] == w[i + 1]);
        }
        assert(l.drop_first() =~= low_words(t, (n - 1) as nat));
        lemma_low_words_value(t, (n - 1) as nat);
    }
}

/// Relies on ethers' `U256::from_str` (uint's `FromStr`): after one leading `0x` is
/// removed it succeeds exactly when at most 64 bytes remain, each a hex digit, and
/// returns the number they spell.
#[verifier::external_body]
fn parse_hex_u256(s: &str) -> (r: Option<EthU256Input>)
    ensures
        r.is_some() == is_u256_hex(strip_hex_prefix(encode_utf8(s@))),
        r.is_some() ==> words_value(r.unwrap().0@) == hex_value(strip_hex_prefix(encode_utf8(s@))),
{
    <ethers::types::U256 as std::str::FromStr>::from_str(s).ok().map(|v| EthU256Input(v.0))
}

/// Relies on ethers' `U256::from_dec_str` (uint): it succeeds exactly when each byte is
/// a decimal digit and the number they spell is below 2^256, and returns that number.
#[verifier::external_body]
fn parse_dec_u256(s: &str) -> (r: Option<EthU256Input>)
    ensures
        r.is_some() == is_u256_dec(encode_utf8(s@)),
        r.is_some() ==> words_value(r.unwrap().0@) == dec_value(encode_utf8(s@)),
{
    ethers::types::U256::from_dec_str(s).ok().map(|v| EthU256Input(v.0))
}

impl EthU256Input {
    /// Decodes a 256-bit unsigned integer from a host value. A big integer with a
    /// non-zero word beyond the fourth is refused, never truncated.
    pub fn decode(src: &U256Source) -> (r: Result<EthU256Input, ValidationError>)
        ensures
            match src {
                U256Source::Text(s) => {
                    let b = encode_utf8(s@);
                    if has_hex_prefix(b) {
                        match r {
                            Ok(v) => is_u256_hex(b.skip(2)) && words_value(v.0@) == hex_value(b.skip(2)),
                            Err(e) => !is_u256_hex(b.skip(2)) && e == ValidationError::MalformedNumber,
                        }
                    } else {
                        match r {
                            Ok(v) => is_u256_dec(b) && words_value(v.0@) == dec_value(b),
                            Err(e) => !is_u256_dec(b) && e == ValidationError::MalformedNumber,
                        }
                    }
                },
                U256Source::BigInt(x) => match r {
                    Ok(v) => decode_bigint(x.sign_bit, x.words@) == Ok::<Seq<u64>, ValidationError>(v.0@)
                        && words_value(v.0@) == words_value(x.words@),
                    Err(e) => decode_bigint(x.sign_bit, x.words@) == Err::<Seq<u64>, ValidationError>(e),
                },
                U256Source::Other => r == Err::<EthU256Input, _>(ValidationError::UnsupportedType),
            },
    {
        match src {
            U256Source::Text(s) => {
                let t = s.as_str();
                let b = t.as_bytes();
                if b.len() >= 2 && b[0] == 0x30 && b[1] == 0x78 {
                    match parse_hex_u256(t) {
                        Some(v) => Ok(v),
                        None => Err(ValidationError::MalformedNumber),
                    }
                } else {
                    match parse_dec_u256(t) {
                        Some(v) => Ok(v),
                        None => Err(ValidationError::MalformedNumber),
                    }
                }
            },
            U256Source::BigInt(x) => {
                if x.sign_bit {
                    return Err(ValidationError::NegativeValue);
                }
                let w = &x.words;
                let mut i: usize = 4;
                #[verifier::loop_isolation(false)]
                while i < w.len()
                    invariant
                        4 <= i,
                        forall|j: int| 4 <= j < i && j < w@.len() ==> w@[j] == 0,
                    decreases w.len() - i,
                {
                    if w[i] != 0 {
                        proof {
                            lemma_words_value_high(w@, i as nat);
                            lemma_word_power_monotone(4, i as nat);
                        }
                        return Err(ValidationError::ValueTooLarge);
                    }
                    i = i + 1;
                }
                let w0: u64 = if w.len() > 0 { w[0] } else { 0 };
                let w1: u64 = if w.len() > 1 { w[1] } else { 0 };
                let w2: u64 = if w.len() > 2 { w[2] } else { 0 };
                let w3: u64 = if w.len() > 3 { w[3] } else { 0 };
                let out = [w0, w1, w2, w3];
                assert(out@ =~= low_words(w@, 4));
                proof {
                    lemma_low_words_value(w@, 4);
                    lemma_words_value_bound(out@);
                }
                Ok(EthU256Input(out))
            },
            U256Source::Other => Err(ValidationError::UnsupportedType),
        }
    }
}

impl EthU256Output {
    /// The value of a 64-bit unsigned integer.
    pub fn from_u64(v: u64) -> (r: EthU256Output)
        ensures
            r.0@ == seq![v, 0u64, 0u64, 0u64],
            words_value(r.0@) == v as nat,
    {
        let r = EthU256Output([v, 0, 0, 0]);
        assert(r.0@ =~= seq![v, 0u64, 0u64, 0u64]);
        proof {
            reveal_with_fuel(words_value, 5);
        }
        r
    }

    /// The host big integer for this value: non-negative, with the four words in order.
    pub fn encode(&self) -> (r: BigIntWords)
        ensures
            !r.sign_bit,
            r.words@ == self.0@,
    {
        let mut words: Vec<u64> = Vec::new();
        let mut i: usize = 0;
        while i < 4
            invariant
                0 <= i <= 4,
                words@ == self.0@.subrange(0, i as int),
            decreases 4 - i,
        {
            words.push(self.0[i]);
            i = i + 1;
        }
        assert(words@ =~= self.0@);
        BigIntWords { sign_bit: false, words }
    }
}

/// Decoding the host big integer that a value encodes to gives that value back.
pub proof fn lemma_round_trip(v: EthU256Output)
    ensures
        decode_bigint(false, v.0@) == Ok::<Seq<u64>, ValidationError>(v.0@),
{
    assert(low_words(v.0@, 4) =~= v.0@);
    lemma_words_value_bound(v.0@);
}

} // verus!
