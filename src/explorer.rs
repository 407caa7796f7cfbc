use vstd::prelude::*;

verus! {

/// The body of a transaction broadcast: the transaction as hexadecimal text.
#[derive(Clone, Debug)]
pub struct BroadcastTxType {
    pub txhex: String,
}

/// What the chain explorer reports of an address.
#[derive(Clone, Debug)]
#[allow(non_snake_case)]
pub struct AddressInfo {
    pub address: String,
    pub ismine: bool,
    pub isscript: bool,
    pub isvalid: bool,
    pub iswatchonly: bool,
    pub scriptPubKey: String,
}

/// The confirmed and unconfirmed balance of an address.
#[derive(PartialEq, Eq, Structural, Clone, Copy, Debug)]
pub struct AddressBalance {
    pub confirmed: u64,
    pub unconfirmed: u64,
}

/// An unspent output of an address.
#[derive(Clone, Debug)]
pub struct AddressUTXO {
    pub height: u32,
    pub tx_pos: u32,
    pub tx_hash: String,
    pub value: u64,
}

/// The unspent outputs of an address.
pub type UtxoSet = Vec<AddressUTXO>;

/// The broadcast body for a transaction given as hexadecimal text.
pub fn broadcast_body(tx_hex: &str) -> (r: BroadcastTxType)
    ensures
        r.txhex@ == tx_hex@,
{
    BroadcastTxType { txhex: tx_hex.to_owned() }
}

} // verus!
