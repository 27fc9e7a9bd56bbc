use crate::digits::{all_hex_digits, hex_pair_value, is_hex_digit};
use crate::error::ValidationError;
use vstd::prelude::*;
use vstd::utf8::encode_utf8;

verus! {

/// A 20-byte account address.
#[derive(Clone, Copy, Debug, PartialEq, Eq)]
pub struct EthAddress(pub [u8; 20]);

/// The shapes in which a host may hand over an address.
#[derive(Clone, Debug)]
pub enum AddressSource {
    /// `0x` followed by 40 hex digits.
    Text(String),
    /// Exactly 20 raw bytes.
    Bytes(Vec<u8>),
    /// Any other kind of host value.
    Other,
}

/// The text form is accepted: `0x`, then 40 hex digits.
pub open spec fn is_address_text(b: Seq<u8>) -> bool {
    &&& b.len() == 42
    &&& b[0] == 0x30
    &&& b[1] == 0x78
    &&& all_hex_digits(b.skip(2))
}

/// Byte `i` of `a` is what hex digits `2i` and `2i + 1` of `d` spell.
pub open spec fn spells_pairs(d: Seq<u8>, a: Seq<u8>) -> bool {
    forall|i: int| 0 <= i < a.len() ==> a[i] as nat == #[trigger] hex_pair_value(d, i)
}

/// The address that an accepted text form spells: byte `i` is digits `2 + 2i` and `3 + 2i`.
pub open spec fn address_of_text(b: Seq<u8>, a: Seq<u8>) -> bool {
    a.len() == 20 && spells_pairs(b.skip(2), a)
}

/// Relies on hex::decode_to_slice, which succeeds exactly when the input has twice as
/// many bytes as the output and each is a hex digit, and then writes the byte that
/// each pair of digits spells, high nibble first.
#[verifier::external_body]
fn decode_hex_20(digits: &[u8]) -> (r: Option<EthAddress>)
    ensures
        r.is_some() == (digits@.len() == 40 && all_hex_digits(digits@)),
        r.is_some() ==> spells_pairs(digits@, r.unwrap().0@),
{
    let mut out = [0u8; 20];
    hex::decode_to_slice(digits, &mut out).ok().map(|_| EthAddress(out))
}

impl EthAddress {
    /// Decodes an address from a host value.
    pub fn decode(src: &AddressSource) -> (r: Result<EthAddress, ValidationError>)
        ensures
            match src {
                AddressSource::Text(s) => {
                    let b = encode_utf8(s@);
                    match r {
                        Ok(a) => is_address_text(b) && address_of_text(b, a.0@),
                        Err(e) => !is_address_text(b) && e == ValidationError::MalformedAddress,
                    }
                },
                AddressSource::Bytes(v) => match r {
                    Ok(a) => v@.len() == 20 && a.0@ == v@,
                    Err(e) => v@.len() != 20 && e == ValidationError::WrongByteLength,
                },
                AddressSource::Other => r == Err::<EthAddress, _>(ValidationError::UnsupportedType),
            },
    {
        match src {
            AddressSource::Text(s) => {
                let b = s.as_str().as_bytes();
                if b.len() != 42 || b[0] != 0x30 || b[1] != 0x78 {
                    return Err(ValidationError::MalformedAddress);
                }
                let mut digits: Vec<u8> = Vec::new();
                let mut i: usize = 2;
                while i < 42
                    invariant
                        b@.len() == 42,
                        2 <= i <= 42,
                        digits@ == b@.subrange(2, i as int),
                    decreases 42 - i,
                {
                    digits.push(b[i]);
                    i = i + 1;
                }
                assert(digits@ == b@.skip(2));
                match decode_hex_20(digits.as_slice()) {
                    Some(a) => Ok(a),
                    None => Err(ValidationError::MalformedAddress),
                }
            },
            AddressSource::Bytes(v) => {
                if v.len() != 20 {
                    return Err(ValidationError::WrongByteLength);
                }
                let mut out = [0u8; 20];
                let mut i: usize = 0;
                while i < 20
                    invariant
                        v@.len() == 20,
                        0 <= i <= 20,
                        forall|j: int| 0 <= j < i ==> out[j] == v@[j],
                    decreases 20 - i,
                {
                    out[i] = v[i];
                    i = i + 1;
                }
                assert(out@ == v@);
                Ok(EthAddress(out))
            },
            AddressSource::Other => Err(ValidationError::UnsupportedType),
        }
    }
}

} // verus!
