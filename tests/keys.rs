use bitcoin_tx_test::config::{
    resolve_network, BenchError, Config, Network, Service, TestParams, TransactionInputs,
    TransactionOutputs, Wallet,
};
use bitcoin_tx_test::encoding::{decode_hexstr, text_equals};
use bitcoin_tx_test::key::{load_key_info, KeyInfo};

const SECRET_ONE: &str = "0000000000000000000000000000000000000000000000000000000000000001";
const GENERATOR: &str = "0279be667ef9dcbbac55a06295ce870b07029bfcdb2dce28d959f2815b16f81798";

fn config(secret: &str, network: &str) -> Config {
    Config {
        wallet: Wallet { private_key_for_instance: secret.to_string() },
        testparams: TestParams { thread_count: 2, iteration_count: 1 },
        service: Service { network: network.to_string() },
        transactioninputs: TransactionInputs {
            tx_hash: "00".repeat(32),
            tx_pos: 0,
            amount: 1_000_000,
        },
        transactionoutputs: TransactionOutputs { scriptpubkey: "51".to_string(), amount: 999_000 },
    }
}

#[test]
fn hex_decodes_both_cases() {
    assert_eq!(decode_hexstr("00ff"), Some(vec![0x00, 0xff]));
    assert_eq!(decode_hexstr("ABcd"), Some(vec![0xab, 0xcd]));
    assert_eq!(decode_hexstr(""), Some(vec![]));
}

#[test]
fn hex_refuses_odd_length_and_bad_digits() {
    assert_eq!(decode_hexstr("abc"), None);
    assert_eq!(decode_hexstr("zz"), None);
    assert_eq!(decode_hexstr("0g"), None);
    assert_eq!(decode_hexstr("é0"), None);
}

#[test]
fn text_comparison_is_exact() {
    assert!(text_equals("mainnet", "mainnet"));
    assert!(!text_equals("mainnet", "Mainnet"));
    assert!(!text_equals("main", "mainnet"));
    assert!(text_equals("", ""));
}

#[test]
fn network_tags_match_exactly() {
    assert_eq!(resolve_network("mainnet"), Ok(Network::Mainnet));
    assert_eq!(resolve_network("testnet"), Ok(Network::Testnet));
    assert_eq!(resolve_network("Mainnet"), Err(BenchError::ConfigError));
    assert_eq!(resolve_network("regtest"), Err(BenchError::ConfigError));
    assert_eq!(resolve_network(""), Err(BenchError::ConfigError));
}

#[test]
fn key_is_derived_from_a_valid_secret() {
    let k = KeyInfo::new(&config(SECRET_ONE, "testnet")).unwrap();
    assert_eq!(k.get_network(), Network::Testnet);
    let mut expected = vec![0u8; 32];
    expected[31] = 1;
    assert_eq!(k.get_private_key().unwrap(), expected);
}

#[test]
fn public_key_of_secret_one_is_the_generator() {
    let k = KeyInfo::new(&config(SECRET_ONE, "mainnet")).unwrap();
    let pk = k.get_public_key().unwrap();
    assert_eq!(pk.len(), 33);
    assert_eq!(pk, decode_hexstr(GENERATOR).unwrap());
    assert_eq!(k.get_public_key().unwrap(), pk);
}

#[test]
fn address_depends_on_the_network() {
    let main = KeyInfo::new(&config(SECRET_ONE, "mainnet")).unwrap();
    assert_eq!(main.get_p2pkh().unwrap(), "1BgGZ9tcN4rm9KBzDn7KprQz87SZ26SAMH");
    let test = KeyInfo::new(&config(SECRET_ONE, "testnet")).unwrap();
    let a = test.get_p2pkh().unwrap();
    assert!(a.starts_with('m') || a.starts_with('n'));
    assert_ne!(a, main.get_p2pkh().unwrap());
}

#[test]
fn secret_of_wrong_length_is_a_key_error() {
    assert_eq!(KeyInfo::new(&config("0001", "testnet")).err(), Some(BenchError::KeyError));
    assert_eq!(
        KeyInfo::new(&config(&"11".repeat(33), "testnet")).err(),
        Some(BenchError::KeyError)
    );
}

#[test]
fn secret_with_bad_digits_is_a_key_error() {
    let bad = format!("{}zz", "00".repeat(31));
    assert_eq!(KeyInfo::new(&config(&bad, "testnet")).err(), Some(BenchError::KeyError));
    assert_eq!(load_key_info(config(&bad, "mainnet")).err(), Some(BenchError::KeyError));
}

#[test]
fn secret_is_checked_before_the_network() {
    assert_eq!(KeyInfo::new(&config("xyz", "nowhere")).err(), Some(BenchError::KeyError));
    assert_eq!(KeyInfo::new(&config(SECRET_ONE, "nowhere")).err(), Some(BenchError::ConfigError));
}

#[test]
fn zero_secret_is_no_key() {
    let k = KeyInfo::new(&config(&"00".repeat(32), "testnet")).unwrap();
    assert_eq!(k.get_private_key(), Err(BenchError::KeyError));
    assert_eq!(k.get_public_key(), Err(BenchError::KeyError));
    assert_eq!(k.get_p2pkh(), Err(BenchError::KeyError));
}
