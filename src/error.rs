use vstd::prelude::*;

verus! {

/// Why a host value was refused. Every variant is caller-fixable.
#[derive(Clone, Copy, Debug, PartialEq, Eq, Structural)]
pub enum ValidationError {
    /// An address string without the `0x` prefix, of the wrong length, or with a
    /// character that is not a hex digit.
    MalformedAddress,
    /// An address byte buffer whose length is not 20.
    WrongByteLength,
    /// A value of a shape that the target type does not accept.
    UnsupportedType,
    /// A number string that is not valid hex (with `0x`) or decimal (without).
    MalformedNumber,
    /// A big integer with its sign flag set where only unsigned values are accepted.
    NegativeValue,
    /// A big integer whose value does not fit in 256 bits.
    ValueTooLarge,
    /// A block number that is signed or does not fit in 64 bits.
    InvalidBlockNumber,
}

} // verus!
