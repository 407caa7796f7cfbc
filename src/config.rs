use vstd::prelude::*;
use crate::encoding::text_equals;

verus! {

/// The wallet section: the secret key of the signing instance, as hexadecimal text.
#[derive(Clone, Debug)]
pub struct Wallet {
    pub private_key_for_instance: String,
}

/// How many workers run per wave (0: one per physical core) and how many waves run.
#[derive(Clone, Debug)]
pub struct TestParams {
    pub thread_count: i32,
    pub iteration_count: i32,
}

/// The network the keys and addresses belong to ("mainnet" or "testnet").
#[derive(Clone, Debug)]
pub struct Service {
    pub network: String,
}

/// The prior output that the transaction spends: its transaction id (hexadecimal,
/// display order), its index and its amount in the smallest unit.
#[derive(Clone, Debug)]
pub struct TransactionInputs {
    pub tx_hash: String,
    pub tx_pos: u32,
    pub amount: i64,
}

/// The single output: its locking script (hexadecimal) and its amount.
#[derive(Clone, Debug)]
pub struct TransactionOutputs {
    pub scriptpubkey: String,
    pub amount: u64,
}

/// The whole benchmark configuration.
#[derive(Clone, Debug)]
pub struct Config {
    pub wallet: Wallet,
    pub testparams: TestParams,
    pub service: Service,
    pub transactioninputs: TransactionInputs,
    pub transactionoutputs: TransactionOutputs,
}

/// The failures of a benchmark run; each one ends the run.
#[derive(PartialEq, Eq, Structural, Clone, Copy, Debug)]
pub enum BenchError {
    /// The configuration is unusable (an unknown network tag, a negative count).
    ConfigError,
    /// The secret is not hexadecimal, does not spell 32 bytes, or is no valid key.
    KeyError,
    /// The locking script or the prior transaction id is malformed, or an amount does not fit.
    TransactionBuildError,
    /// The digest or the signature could not be computed.
    SigningError,
    /// A worker failed, or a wave delivered the wrong number of samples.
    ConcurrencyError,
}

/// The networks a key can belong to.
#[derive(PartialEq, Eq, Structural, Clone, Copy, Debug)]
pub enum Network {
    Mainnet,
    Testnet,
}

/// The network that a tag names: an exact match, with no fallback.
pub open spec fn network_of_tag(tag: Seq<char>) -> Option<Network> {
    if tag == "mainnet"@ {
        Some(Network::Mainnet)
    } else if tag == "testnet"@ {
        Some(Network::Testnet)
    } else {
        None
    }
}

/// Resolves a network tag; any tag but "mainnet" and "testnet" is a configuration error.
pub fn resolve_network(tag: &str) -> (r: Result<Network, BenchError>)
    ensures
        network_of_tag(tag@) matches Some(n) ==> r == Ok::<Network, BenchError>(n),
        network_of_tag(tag@) is None ==> r == Err::<Network, BenchError>(BenchError::ConfigError),
{
    if text_equals(tag, "mainnet") {
        Ok(Network::Mainnet)
    } else if text_equals(tag, "testnet") {
        Ok(Network::Testnet)
    } else {
        Err(BenchError::ConfigError)
    }
}

} // verus!
