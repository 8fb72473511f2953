//! Small, independent building blocks for working with Bitcoin-style data:
//! a hexadecimal codec, byte-order conversion, amount parsing, script
//! classification and a few plain value types.
//!
//! Every function carries a contract over a mathematical model of its
//! arguments, and none of them panics.

pub mod amount;
pub mod codec;
pub mod endian;
pub mod script;
pub mod wallet;

pub use amount::{apply_fee, parse_satoshis, InsufficientBalanceError, ParseError};
pub use codec::{bytes_to_hex, decode_hex, hex_to_bytes, DecodeError};
pub use endian::{swap_endian_u32, to_big_endian};
pub use script::{
    classify_script, read_pushdata, LengthError, Opcode, ScriptType, UnknownOpcodeError,
};
pub use wallet::{consume_utxo, move_txid, Outpoint, TestWallet, Wallet, UTXO};
