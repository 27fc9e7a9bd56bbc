use vstd::prelude::*;

verus! {

/// An ASCII hex digit, either case.
pub open spec fn is_hex_digit(c: u8) -> bool {
    (0x30 <= c && c <= 0x39) || (0x41 <= c && c <= 0x46) || (0x61 <= c && c <= 0x66)
}

/// The value of an ASCII hex digit.
pub open spec fn hex_digit_value(c: u8) -> nat {
    if 0x30 <= c && c <= 0x39 {
        (c - 0x30) as nat
    } else if 0x41 <= c && c <= 0x46 {
        (c - 0x41 + 10) as nat
    } else {
        (c - 0x61 + 10) as nat
    }
}

/// An ASCII decimal digit.
pub open spec fn is_dec_digit(c: u8) -> bool {
    0x30 <= c && c <= 0x39
}

/// Every byte of `s` is a hex digit.
pub open spec fn all_hex_digits(s: Seq<u8>) -> bool {
    forall|i: int| 0 <= i < s.len() ==> is_hex_digit(#[trigger] s[i])
}

/// Every byte of `s` is a decimal digit.
pub open spec fn all_dec_digits(s: Seq<u8>) -> bool {
    forall|i: int| 0 <= i < s.len() ==> is_dec_digit(#[trigger] s[i])
}

/// The number that the hex digits `s` spell, most significant first; 0 when empty.
pub open spec fn hex_value(s: Seq<u8>) -> nat
    decreases s.len(),
{
    if s.len() == 0 {
        0
    } else {
        hex_value(s.drop_last()) * 16 + hex_digit_value(s.last())
    }
}

/// The number that the decimal digits `s` spell, most significant first; 0 when empty.
pub open spec fn dec_value(s: Seq<u8>) -> nat
    decreases s.len(),
{
    if s.len() == 0 {
        0
    } else {
        dec_value(s.drop_last()) * 10 + (s.last() - 0x30) as nat
    }
}

/// The byte that the two hex digits at `2 * i` and `2 * i + 1` of `s` spell.
pub open spec fn hex_pair_value(s: Seq<u8>, i: int) -> nat {
    hex_digit_value(s[2 * i]) * 16 + hex_digit_value(s[2 * i + 1])
}

/// The number that little-endian 64-bit words spell: word 0 is least significant.
pub open spec fn words_value(w: Seq<u64>) -> nat
    decreases w.len(),
{
    if w.len() == 0 {
        0
    } else {
        w[0] as nat + 0x1_0000_0000_0000_0000 * words_value(w.drop_first())
    }
}

/// 2^64 raised to the power `k`: one more than the largest value of `k` words.
pub open spec fn word_power(k: nat) -> nat
    decreases k,
{
    if k == 0 {
        1
    } else {
        0x1_0000_0000_0000_0000 * word_power((k - 1) as nat)
    }
}

/// One more than the largest value of 256 bits.
pub open spec fn u256_limit() -> nat {
    word_power(4)
}

/// Words that are all zero spell zero.
pub proof fn lemma_words_value_zero(w: Seq<u64>)
    requires
        forall|i: int| 0 <= i < w.len() ==> #[trigger] w[i] == 0,
    ensures
        words_value(w) == 0,
    decreases w.len(),
{
    if w.len() > 0 {
        lemma_words_value_zero(w.drop_first());
    }
}

/// Words with one non-zero word spell a positive number.
pub proof fn lemma_words_value_positive(w: Seq<u64>, k: int)
    requires
        0 <= k < w.len(),
        w[k] != 0,
    ensures
        words_value(w) >= 1,
    decreases w.len(),
{
    if k > 0 {
        lemma_words_value_positive(w.drop_first(), k - 1);
        let rest = words_value(w.drop_first());
        assert(0x1_0000_0000_0000_0000 * rest >= 1) by (nonlinear_arith)
            requires
                rest >= 1,
        ;
    }
}

/// `k` words spell less than 2^64 to the power `k`.
pub proof fn lemma_words_value_bound(w: Seq<u64>)
    ensures
        words_value(w) < word_power(w.len()),
    decreases w.len(),
{
    if w.len() > 0 {
        let t = w.drop_first();
        lemma_words_value_bound(t);
        let v = words_value(t);
        let p = word_power(t.len());
        let x = w[0] as nat;
        assert(x + 0x1_0000_0000_0000_0000 * v < 0x1_0000_0000_0000_0000 * p) by (nonlinear_arith)
            requires
                v < p,
                x < 0x1_0000_0000_0000_0000,
        ;
    }
}

/// A non-zero word at index `k` makes the value at least 2^64 to the power `k`.
pub proof fn lemma_words_value_high(w: Seq<u64>, k: nat)
    requires
        k < w.len(),
        w[k as int] != 0,
    ensures
        words_value(w) >= word_power(k),
    decreases k,
{
    if k > 0 {
        let t = w.drop_first();
        assert(t[k - 1] == w[k as int]);
        lemma_words_value_high(t, (k - 1) as nat);
        let v = words_value(t);
        let p = word_power((k - 1) as nat);
        assert(0x1_0000_0000_0000_0000 * v >= 0x1_0000_0000_0000_0000 * p) by (nonlinear_arith)
            requires
                v >= p,
        ;
    }
}

/// The powers of 2^64 grow with the exponent.
pub proof fn lemma_word_power_monotone(a: nat, b: nat)
    requires
        a <= b,
    ensures
        word_power(a) <= word_power(b),
    decreases b,
{
    if a < b {
        lemma_word_power_monotone(a, (b - 1) as nat);
        let p = word_power((b - 1) as nat);
        assert(p <= 0x1_0000_0000_0000_0000 * p) by (nonlinear_arith);
    }
}

} // verus!
