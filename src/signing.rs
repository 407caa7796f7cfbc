use vstd::prelude::*;
use crate::config::{network_of_tag, BenchError, Config};
use crate::encoding::{decode_hexstr, hex_bytes, is_hex_text};
use crate::key::{key_failure, KeyInfo};
use crate::tx::{
    copy_bytes, create_unlock_script, unlock_script_of, InputView, OutputView, Transaction, TxInput,
    TxOutput, TxView, SEQUENCE_FINAL, SIGHASH_ALL, SIGHASH_FORKID,
};

verus! {

/// `s` in reverse order.
pub open spec fn reversed(s: Seq<u8>) -> Seq<u8> {
    Seq::new(s.len(), |i: int| s[s.len() - 1 - i])
}

/// The bytes of a transaction id written in display order, in internal order.
pub open spec fn txid_bytes(text: Seq<char>) -> Seq<u8> {
    reversed(hex_bytes(text))
}

/// What every worker shares, read-only: the prior output being spent, the
/// destination of the single output and the signing key.
#[derive(Clone, Debug)]
pub struct BitcoinTxInfo {
    pub tx_pos: u32,
    pub tx_hash: String,
    pub prev_hash: Vec<u8>,
    pub input_sats: i64,
    pub script_pub_key: Vec<u8>,
    pub script_sig: Vec<u8>,
    pub amt_sats: u64,
    pub priv_key: KeyInfo,
}

/// Why a configuration gives no transaction description: `None` where it gives one.
pub open spec fn info_failure(conf: Config) -> Option<BenchError> {
    let key = key_failure(conf.wallet.private_key_for_instance@, conf.service.network@);
    if key is Some {
        key
    } else if !is_hex_text(conf.transactionoutputs.scriptpubkey@) {
        Some(BenchError::TransactionBuildError)
    } else if !is_hex_text(conf.transactioninputs.tx_hash@) || conf.transactioninputs.tx_hash@.len() != 64 {
        Some(BenchError::TransactionBuildError)
    } else if conf.transactionoutputs.amount > i64::MAX as u64 {
        Some(BenchError::TransactionBuildError)
    } else {
        None
    }
}

impl BitcoinTxInfo {
    /// The prior transaction id is 32 bytes, the output amount fits the
    /// transaction's signed amount, and the key is well formed.
    pub open spec fn wf(&self) -> bool {
        &&& self.prev_hash@.len() == 32
        &&& self.amt_sats <= i64::MAX as u64
        &&& self.priv_key.wf()
    }

    /// What a configuration describes, checked: the key is derived first, then
    /// the locking script, the prior transaction id and the amount are read.
    pub fn new(conf: &Config) -> (r: Result<BitcoinTxInfo, BenchError>)
        ensures
            info_failure(*conf) matches Some(e) ==> r == Err::<BitcoinTxInfo, BenchError>(e),
            info_failure(*conf) is None ==> r is Ok,
            r matches Ok(info) ==> {
                &&& info.wf()
                &&& info.tx_pos == conf.transactioninputs.tx_pos
                &&& info.tx_hash@ == conf.transactioninputs.tx_hash@
                &&& info.prev_hash@ == txid_bytes(conf.transactioninputs.tx_hash@)
                &&& info.input_sats == conf.transactioninputs.amount
                &&& info.script_pub_key@ == hex_bytes(conf.transactionoutputs.scriptpubkey@)
                &&& info.script_sig@.len() == 0
                &&& info.amt_sats == conf.transactionoutputs.amount
                &&& info.priv_key.secret() == hex_bytes(conf.wallet.private_key_for_instance@)
                &&& Some(info.priv_key.spec_network()) == network_of_tag(conf.service.network@)
            },
    {
        let priv_key = KeyInfo::new(conf)?;
        let script_pub_key = match decode_hexstr(conf.transactionoutputs.scriptpubkey.as_str()) {
            Some(b) => b,
            None => {
                return Err(BenchError::TransactionBuildError);
            },
        };
        let id = match decode_hexstr(conf.transactioninputs.tx_hash.as_str()) {
            Some(b) => b,
            None => {
                return Err(BenchError::TransactionBuildError);
            },
        };
        if id.len() != 32 {
            return Err(BenchError::TransactionBuildError);
        }
        if conf.transactionoutputs.amount > i64::MAX as u64 {
            return Err(BenchError::TransactionBuildError);
        }
        let prev_hash = reverse_bytes(&id);
        Ok(BitcoinTxInfo {
            tx_pos: conf.transactioninputs.tx_pos,
            tx_hash: conf.transactioninputs.tx_hash.clone(),
            prev_hash,
            input_sats: conf.transactioninputs.amount,
            script_pub_key,
            script_sig: Vec::new(),
            amt_sats: conf.transactionoutputs.amount,
            priv_key,
        })
    }
}

/// The bytes of `s` in reverse order.
pub fn reverse_bytes(s: &Vec<u8>) -> (r: Vec<u8>)
    ensures
        r@ == reversed(s@),
{
    let mut r: Vec<u8> = Vec::new();
    let n = s.len();
    let mut i: usize = 0;
    while i < n
        invariant
            n == s@.len(),
            i <= n,
            r@ == reversed(s@).subrange(0, i as int),
        decreases n - i,
    {
        r.push(s[n - 1 - i]);
        assert(reversed(s@).subrange(0, i + 1) == reversed(s@).subrange(0, i as int).push(
            s@[n - 1 - i],
        ));
        i = i + 1;
    }
    assert(reversed(s@).subrange(0, n as int) == reversed(s@));
    r
}

/// The unsigned transaction that every worker builds from the shared
/// description: version 1, one final input spending the configured output with
/// an empty unlocking script, one output, lock time 0.
pub open spec fn template_of(info: BitcoinTxInfo) -> TxView {
    TxView {
        version: 1,
        inputs: seq![
            InputView {
                prev_hash: info.prev_hash@,
                prev_index: info.tx_pos,
                unlock_script: Seq::empty(),
                sequence: SEQUENCE_FINAL,
            },
        ],
        outputs: seq![OutputView { satoshis: info.amt_sats as i64, lock_script: info.script_pub_key@ }],
        lock_time: 0,
    }
}

/// `tx` with the unlocking script of input `index` replaced by `script`.
pub open spec fn with_unlock_script(tx: TxView, index: int, script: Seq<u8>) -> TxView {
    TxView {
        inputs: tx.inputs.update(index, InputView { unlock_script: script, ..tx.inputs[index] }),
        ..tx
    }
}

/// The signed transaction: the template whose only input carries `signature`
/// and `public_key`.
pub open spec fn signed_of(info: BitcoinTxInfo, signature: Seq<u8>, public_key: Seq<u8>) -> TxView {
    with_unlock_script(template_of(info), 0, unlock_script_of(signature, public_key))
}

/// An output paying `sats_amt` to the locking script `script_pubkey_bytes`.
pub fn create_tx_out(sats_amt: i64, script_pubkey_bytes: Vec<u8>) -> (r: TxOutput)
    ensures
        r@ == (OutputView { satoshis: sats_amt, lock_script: script_pubkey_bytes@ }),
{
    TxOutput { satoshis: sats_amt, lock_script: script_pubkey_bytes }
}

/// The transaction as it is: its inputs are already in place.
pub fn create_tx_vin(tx: Transaction) -> (r: Transaction)
    ensures
        r@ == tx@,
{
    tx
}

/// Builds a fresh unsigned transaction from the shared description.
pub fn build_unsigned(info: &BitcoinTxInfo) -> (r: Transaction)
    requires
        info.wf(),
    ensures
        r@ == template_of(*info),
{
    let input = TxInput {
        prev_hash: copy_bytes(&info.prev_hash),
        prev_index: info.tx_pos,
        unlock_script: Vec::new(),
        sequence: SEQUENCE_FINAL,
    };
    let output = create_tx_out(info.amt_sats as i64, copy_bytes(&info.script_pub_key));
    let mut inputs: Vec<TxInput> = Vec::new();
    inputs.push(input);
    let mut outputs: Vec<TxOutput> = Vec::new();
    outputs.push(output);
    let tx = Transaction { version: 1, inputs, outputs, lock_time: 0 };
    assert(tx@.inputs =~= template_of(*info).inputs);
    assert(tx@.outputs =~= template_of(*info).outputs);
    tx
}

/// Replaces the unlocking script of input `tx_index` with one that pushes
/// `signature`, then `public_key`; nothing else changes.
pub fn add_signature_for_tx_index(
    tx: &mut Transaction,
    tx_index: usize,
    signature: &Vec<u8>,
    public_key: &Vec<u8>,
)
    requires
        tx_index < old(tx).inputs@.len(),
    ensures
        final(tx)@ == with_unlock_script(
            old(tx)@,
            tx_index as int,
            unlock_script_of(signature@, public_key@),
        ),
{
    let old_input = &tx.inputs[tx_index];
    let input = TxInput {
        prev_hash: copy_bytes(&old_input.prev_hash),
        prev_index: old_input.prev_index,
        unlock_script: create_unlock_script(signature, public_key),
        sequence: old_input.sequence,
    };
    let ghost before = tx@;
    tx.inputs.set(tx_index, input);
    assert(tx@.inputs =~= with_unlock_script(
        before,
        tx_index as int,
        unlock_script_of(signature@, public_key@),
    ).inputs);
}

/// The signing flags of every benchmark transaction.
pub open spec fn benchmark_flags() -> u8 {
    SIGHASH_ALL | SIGHASH_FORKID
}

/// What the digest of a benchmark transaction is computed over, besides the
/// transaction: the spent input's index, the subscript, the spent amount, and the flags.
#[derive(Clone, Debug)]
pub struct DigestRequest {
    pub input_index: usize,
    pub subscript: Vec<u8>,
    pub amount: i64,
    pub flags: u8,
}

/// The digest arguments of the single input: the configured locking script as
/// subscript, the prior output's amount, all-inputs-and-outputs with fork id.
pub fn digest_request(info: &BitcoinTxInfo) -> (r: DigestRequest)
    ensures
        r.input_index == 0,
        r.subscript@ == info.script_pub_key@,
        r.amount == info.input_sats,
        r.flags == benchmark_flags(),
{
    DigestRequest {
        input_index: 0,
        subscript: copy_bytes(&info.script_pub_key),
        amount: info.input_sats,
        flags: SIGHASH_ALL | SIGHASH_FORKID,
    }
}

/// Whether `signature` is a usable signature under `flags`: it is not empty and
/// ends with the flag byte.
pub open spec fn signature_carries_flags(signature: Seq<u8>, flags: u8) -> bool {
    signature.len() >= 1 && signature.last() == flags
}

/// Finalizes a fresh transaction with a signature and a public key: the
/// template of `info`, its only input unlocked by `signature` and `public_key`.
/// A signature without the benchmark's flag byte at its end, or a public key
/// that is not 33 bytes, is a signing error.
pub fn sign_with(info: &BitcoinTxInfo, signature: &Vec<u8>, public_key: &Vec<u8>) -> (r: Result<
    Transaction,
    BenchError,
>)
    requires
        info.wf(),
    ensures
        r is Ok <==> signature_carries_flags(signature@, benchmark_flags()) && public_key@.len() == 33,
        r matches Ok(tx) ==> tx@ == signed_of(*info, signature@, public_key@),
        r matches Err(e) ==> e == BenchError::SigningError,
{
    let n = signature.len();
    if n == 0 || signature[n - 1] != (SIGHASH_ALL | SIGHASH_FORKID) || public_key.len() != 33 {
        return Err(BenchError::SigningError);
    }
    let mut tx = build_unsigned(info);
    assert(tx.inputs@.len() == tx@.inputs.len());
    add_signature_for_tx_index(&mut tx, 0, signature, public_key);
    Ok(tx)
}

/// The structure of a transaction: everything but its unlocking scripts, which
/// are left empty.
pub open spec fn structure_of(tx: TxView) -> TxView {
    TxView {
        inputs: tx.inputs.map_values(|i: InputView| InputView { unlock_script: Seq::empty(), ..i }),
        ..tx
    }
}

/// Whatever signatures and public keys two workers finalize with, the
/// transactions they build from one description have the same structure:
/// version, input reference, output amount and script, and lock time, all as
/// the template has them.
pub proof fn signed_structure_is_fixed(
    info: BitcoinTxInfo,
    sig1: Seq<u8>,
    key1: Seq<u8>,
    sig2: Seq<u8>,
    key2: Seq<u8>,
)
    ensures
        structure_of(signed_of(info, sig1, key1)) == structure_of(signed_of(info, sig2, key2)),
        structure_of(signed_of(info, sig1, key1)) == template_of(info),
{
    assert(structure_of(signed_of(info, sig1, key1)).inputs =~= template_of(info).inputs);
    assert(structure_of(signed_of(info, sig2, key2)).inputs =~= template_of(info).inputs);
}

/// A secret that is not 64 hexadecimal digits stops a run at key derivation,
/// before any other part of the configuration is looked at.
pub proof fn malformed_secret_is_refused(conf: Config)
    requires
        !is_hex_text(conf.wallet.private_key_for_instance@)
            || conf.wallet.private_key_for_instance@.len() != 64,
    ensures
        info_failure(conf) == Some(BenchError::KeyError),
{
}

} // verus!
