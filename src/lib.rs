//! Marshalling and validation of loosely typed host values into the fixed-width
//! primitives of an Ethereum light client: addresses, 256-bit unsigned integers,
//! block references, call options and client configuration.
mod address;
mod block_tag;
mod call_opts;
mod config;
mod digits;
mod error;
mod report;
mod uint256;

pub use address::{AddressSource, EthAddress};
pub use digits::{
    dec_value, hex_digit_value, hex_value, is_dec_digit, is_hex_digit, u256_limit, word_power,
    words_value,
};
pub use error::ValidationError;
pub use uint256::{
    decode_bigint, lemma_round_trip, BigIntWords, EthU256Input, EthU256Output, U256Source,
};
pub use block_tag::{BlockTag, JsBlockTag};
pub use call_opts::{
    apply_write, apply_writes, distinct_fields, field_of, holds_write, lemma_writes_all_seen,
    same_field, CallOpts, CallOptsModel, FieldWrite, JsCallOpts,
};
pub use config::{
    ClientSettings, DbKind, JsHeliosClientConfig, DEFAULT_CONSENSUS_RPC, DEFAULT_EXECUTION_RPC,
    DEFAULT_NETWORK,
};
pub use report::{NapiAnyhowError, NapiEyreReport};
