use bitcoin_tx_test::config::{
    BenchError, Config, Service, TestParams, TransactionInputs, TransactionOutputs, Wallet,
};
use bitcoin_tx_test::encoding::decode_hexstr;
use bitcoin_tx_test::explorer::broadcast_body;
use bitcoin_tx_test::signing::{
    add_signature_for_tx_index, build_unsigned, create_tx_out, create_tx_vin, digest_request,
    reverse_bytes, sign_with, BitcoinTxInfo,
};
use bitcoin_tx_test::tx::{append_data, create_unlock_script, copy_bytes, SEQUENCE_FINAL};

const SECRET_ONE: &str = "0000000000000000000000000000000000000000000000000000000000000001";
const TX_HASH: &str = "d1c789a4e5b2c3f60718293a4b5c6d7e8f90a1b2c3d4e5f60718293a4b5c6d7d";
const P2PKH: &str = "76a91489abcdefabbaabbaabbaabbaabbaabbaabbaabba88ac";

fn config(tx_hash: &str, script: &str, out_amount: u64) -> Config {
    Config {
        wallet: Wallet { private_key_for_instance: SECRET_ONE.to_string() },
        testparams: TestParams { thread_count: 2, iteration_count: 1 },
        service: Service { network: "testnet".to_string() },
        transactioninputs: TransactionInputs {
            tx_hash: tx_hash.to_string(),
            tx_pos: 0,
            amount: 1_000_000,
        },
        transactionoutputs: TransactionOutputs {
            scriptpubkey: script.to_string(),
            amount: out_amount,
        },
    }
}

fn signature(len: usize) -> Vec<u8> {
    let mut s = vec![0x30u8; len - 1];
    s.push(0x41);
    s
}

#[test]
fn description_reads_the_configuration() {
    let info = BitcoinTxInfo::new(&config(TX_HASH, P2PKH, 999_000)).unwrap();
    let mut id = decode_hexstr(TX_HASH).unwrap();
    id.reverse();
    assert_eq!(info.prev_hash, id);
    assert_eq!(info.prev_hash[0], 0x7d);
    assert_eq!(info.prev_hash[31], 0xd1);
    assert_eq!(info.tx_hash, TX_HASH);
    assert_eq!(info.tx_pos, 0);
    assert_eq!(info.input_sats, 1_000_000);
    assert_eq!(info.amt_sats, 999_000);
    assert_eq!(info.script_pub_key, decode_hexstr(P2PKH).unwrap());
    assert!(info.script_sig.is_empty());
}

#[test]
fn malformed_locking_script_is_a_build_error() {
    let r = BitcoinTxInfo::new(&config(TX_HASH, "76a9zz", 999_000));
    assert_eq!(r.err(), Some(BenchError::TransactionBuildError));
}

#[test]
fn short_transaction_id_is_a_build_error() {
    let r = BitcoinTxInfo::new(&config("d1c7", P2PKH, 999_000));
    assert_eq!(r.err(), Some(BenchError::TransactionBuildError));
}

#[test]
fn output_amount_beyond_signed_range_is_a_build_error() {
    let r = BitcoinTxInfo::new(&config(TX_HASH, P2PKH, u64::MAX));
    assert_eq!(r.err(), Some(BenchError::TransactionBuildError));
    assert!(BitcoinTxInfo::new(&config(TX_HASH, P2PKH, i64::MAX as u64)).is_ok());
}

#[test]
fn malformed_secret_stops_before_anything_else() {
    let mut c = config("bad", "bad", u64::MAX);
    c.wallet.private_key_for_instance = "12".to_string();
    assert_eq!(BitcoinTxInfo::new(&c).err(), Some(BenchError::KeyError));
}

#[test]
fn template_has_fixed_shape() {
    let info = BitcoinTxInfo::new(&config(TX_HASH, P2PKH, 999_000)).unwrap();
    let tx = build_unsigned(&info);
    assert_eq!(tx.version, 1);
    assert_eq!(tx.lock_time, 0);
    assert_eq!(tx.inputs.len(), 1);
    assert_eq!(tx.outputs.len(), 1);
    assert_eq!(tx.inputs[0].prev_hash, info.prev_hash);
    assert_eq!(tx.inputs[0].prev_index, 0);
    assert_eq!(tx.inputs[0].sequence, SEQUENCE_FINAL);
    assert!(tx.inputs[0].unlock_script.is_empty());
    assert_eq!(tx.outputs[0].satoshis, 999_000);
    assert_eq!(tx.outputs[0].lock_script, info.script_pub_key);
}

#[test]
fn push_data_uses_the_shortest_prefix() {
    let mut s = vec![9u8];
    append_data(&mut s, &vec![]);
    assert_eq!(s, vec![9, 0]);
    let mut s = Vec::new();
    append_data(&mut s, &vec![7u8; 75]);
    assert_eq!(s[0], 75);
    assert_eq!(s.len(), 76);
    let mut s = Vec::new();
    append_data(&mut s, &vec![7u8; 80]);
    assert_eq!(&s[..2], &[76, 80]);
    assert_eq!(s.len(), 82);
    let mut s = Vec::new();
    append_data(&mut s, &vec![7u8; 300]);
    assert_eq!(&s[..3], &[77, 44, 1]);
    assert_eq!(s.len(), 303);
    let mut s = Vec::new();
    append_data(&mut s, &vec![7u8; 70000]);
    assert_eq!(&s[..5], &[78, 0x70, 0x11, 0x01, 0x00]);
    assert_eq!(s.len(), 70005);
}

#[test]
fn unlock_script_pushes_signature_then_key() {
    let sig = signature(72);
    let pk = vec![2u8; 33];
    let script = create_unlock_script(&sig, &pk);
    let mut expected = vec![72u8];
    expected.extend_from_slice(&sig);
    expected.push(33);
    expected.extend_from_slice(&pk);
    assert_eq!(script, expected);
}

#[test]
fn adding_a_signature_changes_only_that_input() {
    let info = BitcoinTxInfo::new(&config(TX_HASH, P2PKH, 999_000)).unwrap();
    let mut tx = build_unsigned(&info);
    let before = build_unsigned(&info);
    add_signature_for_tx_index(&mut tx, 0, &signature(71), &vec![3u8; 33]);
    assert_eq!(tx.inputs[0].unlock_script, create_unlock_script(&signature(71), &vec![3u8; 33]));
    assert_eq!(tx.inputs[0].prev_hash, before.inputs[0].prev_hash);
    assert_eq!(tx.inputs[0].sequence, before.inputs[0].sequence);
    assert_eq!(tx.outputs[0].lock_script, before.outputs[0].lock_script);
}

#[test]
fn signing_refuses_a_signature_without_flags() {
    let info = BitcoinTxInfo::new(&config(TX_HASH, P2PKH, 999_000)).unwrap();
    let pk = info.priv_key.get_public_key().unwrap();
    let mut bad = signature(71);
    bad[70] = 0x01;
    assert_eq!(sign_with(&info, &bad, &pk).err(), Some(BenchError::SigningError));
    assert_eq!(sign_with(&info, &vec![], &pk).err(), Some(BenchError::SigningError));
    assert_eq!(sign_with(&info, &signature(71), &vec![2u8; 32]).err(), Some(BenchError::SigningError));
}

#[test]
fn signed_structure_does_not_depend_on_the_signature() {
    let info = BitcoinTxInfo::new(&config(TX_HASH, P2PKH, 999_000)).unwrap();
    let pk = info.priv_key.get_public_key().unwrap();
    let a = sign_with(&info, &signature(71), &pk).unwrap();
    let b = sign_with(&info, &signature(72), &pk).unwrap();
    assert_ne!(a.inputs[0].unlock_script, b.inputs[0].unlock_script);
    assert_eq!(a.version, b.version);
    assert_eq!(a.lock_time, b.lock_time);
    assert_eq!(a.inputs[0].prev_hash, b.inputs[0].prev_hash);
    assert_eq!(a.inputs[0].prev_index, b.inputs[0].prev_index);
    assert_eq!(a.outputs[0].satoshis, b.outputs[0].satoshis);
    assert_eq!(a.outputs[0].lock_script, b.outputs[0].lock_script);
}

#[test]
fn digest_covers_the_spent_amount() {
    let info = BitcoinTxInfo::new(&config(TX_HASH, P2PKH, 999_000)).unwrap();
    let d = digest_request(&info);
    assert_eq!(d.input_index, 0);
    assert_eq!(d.amount, 1_000_000);
    assert_eq!(d.flags, 0x41);
    assert_eq!(d.subscript, info.script_pub_key);
}

#[test]
fn small_helpers_keep_their_inputs() {
    let out = create_tx_out(5, vec![1, 2]);
    assert_eq!(out.satoshis, 5);
    assert_eq!(out.lock_script, vec![1, 2]);
    assert_eq!(copy_bytes(&vec![4, 5]), vec![4, 5]);
    assert_eq!(reverse_bytes(&vec![1, 2, 3]), vec![3, 2, 1]);
    let info = BitcoinTxInfo::new(&config(TX_HASH, P2PKH, 999_000)).unwrap();
    let tx = create_tx_vin(build_unsigned(&info));
    assert_eq!(tx.inputs.len(), 1);
    assert_eq!(broadcast_body("abcd").txhex, "abcd");
}
