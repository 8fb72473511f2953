//! Plain records of the ledger: outputs, the references to them, and what a
//! wallet can say of itself.

use vstd::prelude::*;
use vstd::string::*;

verus! {

/// A reference to one output of a transaction: the transaction's identifier
/// and the output's index in it.
pub struct Outpoint(pub String, pub u32);

/// An `Outpoint` as plain values.
pub struct OutpointView {
    pub txid: Seq<char>,
    pub index: u32,
}

impl View for Outpoint {
    type V = OutpointView;

    open spec fn view(&self) -> OutpointView {
        OutpointView { txid: self.0@, index: self.1 }
    }
}

/// An unspent transaction output.
#[derive(Debug, PartialEq, Clone)]
pub struct UTXO {
    /// The identifier of the transaction that made it.
    pub txid: Vec<u8>,
    /// Its index among that transaction's outputs.
    pub vout: u32,
    /// What it is worth, in satoshis.
    pub value: u64,
}

/// A `UTXO` as plain values.
pub struct UtxoView {
    pub txid: Seq<u8>,
    pub vout: u32,
    pub value: u64,
}

impl View for UTXO {
    type V = UtxoView;

    open spec fn view(&self) -> UtxoView {
        UtxoView { txid: self.txid@, vout: self.vout, value: self.value }
    }
}

/// Anything that knows its balance.
pub trait Wallet {
    /// The balance, in satoshis.
    spec fn spec_balance(&self) -> u64;

    /// Returns the balance, in satoshis.
    fn balance(&self) -> (r: u64)
        ensures
            r == self.spec_balance(),
    ;
}

/// A wallet with a fixed balance, all of it confirmed.
pub struct TestWallet {
    pub confirmed: u64,
}

impl Wallet for TestWallet {
    open spec fn spec_balance(&self) -> u64 {
        self.confirmed
    }

    fn balance(&self) -> (r: u64) {
        self.confirmed
    }
}

/// Hands an output on to its next owner, as it is.
pub fn consume_utxo(utxo: UTXO) -> (r: UTXO)
    ensures
        r == utxo,
{
    utxo
}

/// Takes a transaction identifier and returns it labelled: the text
/// `txid: ` and then the identifier.
pub fn move_txid(txid: String) -> (r: String)
    ensures
        r@ == "txid: "@ + txid@,
{
    String::from_str("txid: ").concat(txid.as_str())
}

} // verus!
