use vstd::prelude::*;
use crate::config::{network_of_tag, resolve_network, BenchError, Config, Network};
use crate::encoding::{decode_hexstr, hex_bytes, is_hex_text};

verus! {

/// Whether bitcoin's `PrivateKey::from_slice` accepts `secret` as a secret key.
pub uninterp spec fn secret_accepted(secret: Seq<u8>) -> bool;

/// The serialized compressed public key that belongs to `secret`.
pub uninterp spec fn public_key_of(secret: Seq<u8>) -> Seq<u8>;

/// The pay-to-public-key-hash address text of the key `secret` on a network.
pub uninterp spec fn p2pkh_address_of(secret: Seq<u8>, mainnet: bool) -> Seq<char>;

/// Relies on bitcoin's `PrivateKey::from_slice` and `PrivateKey::to_bytes`: a
/// secret is accepted only when it is 32 bytes long, and the key keeps its bytes.
#[verifier::external_body]
fn private_key_bytes(secret: &Vec<u8>, mainnet: bool) -> (r: Option<Vec<u8>>)
    ensures
        r.is_some() <==> secret_accepted(secret@),
        r.is_some() ==> secret@.len() == 32,
        r matches Some(v) ==> v@ == secret@,
{
    let net = if mainnet { bitcoin::Network::Bitcoin } else { bitcoin::Network::Testnet };
    bitcoin::PrivateKey::from_slice(secret, net).ok().map(|k| k.to_bytes())
}

/// Relies on bitcoin's `PrivateKey::from_slice` and `PrivateKey::public_key`: the
/// compressed public key, 33 bytes, depends on the secret alone.
#[verifier::external_body]
fn public_key_bytes(secret: &Vec<u8>) -> (r: Option<Vec<u8>>)
    ensures
        r.is_some() <==> secret_accepted(secret@),
        r matches Some(v) ==> v@ == public_key_of(secret@) && v@.len() == 33,
{
    let secp = bitcoin::secp256k1::Secp256k1::new();
    bitcoin::PrivateKey::from_slice(secret, bitcoin::Network::Testnet)
        .ok()
        .map(|k| k.public_key(&secp).to_bytes())
}

/// Relies on bitcoin's `Address::p2pkh`: the address text of the key's public key
/// on the given network.
#[verifier::external_body]
fn p2pkh_address_text(secret: &Vec<u8>, mainnet: bool) -> (r: Option<String>)
    ensures
        r.is_some() <==> secret_accepted(secret@),
        r matches Some(a) ==> a@ == p2pkh_address_of(secret@, mainnet),
{
    let net = if mainnet { bitcoin::Network::Bitcoin } else { bitcoin::Network::Testnet };
    let secp = bitcoin::secp256k1::Secp256k1::new();
    bitcoin::PrivateKey::from_slice(secret, net)
        .ok()
        .map(|k| bitcoin::Address::p2pkh(&k.public_key(&secp), net).to_string())
}

/// The secret of a key and the network it belongs to. It is fixed once made; the
/// public key and the address are derived again on every request.
#[derive(Clone, Debug)]
pub struct KeyInfo {
    privatekey: Vec<u8>,
    network: Network,
}

/// Why a configured secret and network tag give no key: `None` where they give one.
pub open spec fn key_failure(secret: Seq<char>, network: Seq<char>) -> Option<BenchError> {
    if !is_hex_text(secret) || secret.len() != 64 {
        Some(BenchError::KeyError)
    } else if network_of_tag(network) is None {
        Some(BenchError::ConfigError)
    } else {
        None
    }
}

impl KeyInfo {
    /// The secret's bytes.
    pub closed spec fn secret(&self) -> Seq<u8> {
        self.privatekey@
    }

    /// The network of the key.
    pub closed spec fn spec_network(&self) -> Network {
        self.network
    }

    /// The secret is always 32 bytes.
    pub closed spec fn wf(&self) -> bool {
        self.privatekey@.len() == 32
    }

    /// Derives the key of a configuration: the secret must be 64 hexadecimal
    /// digits (32 bytes) and the network tag "mainnet" or "testnet".
    pub fn new(conf: &Config) -> (r: Result<KeyInfo, BenchError>)
        ensures
            key_failure(conf.wallet.private_key_for_instance@, conf.service.network@) matches Some(e)
                ==> r == Err::<KeyInfo, BenchError>(e),
            key_failure(conf.wallet.private_key_for_instance@, conf.service.network@) is None
                ==> r is Ok,
            r matches Ok(k) ==> k.wf() && k.secret() == hex_bytes(conf.wallet.private_key_for_instance@)
                && Some(k.spec_network()) == network_of_tag(conf.service.network@),
    {
        let secret = match decode_hexstr(conf.wallet.private_key_for_instance.as_str()) {
            Some(b) => b,
            None => {
                return Err(BenchError::KeyError);
            },
        };
        if secret.len() != 32 {
            return Err(BenchError::KeyError);
        }
        let network = resolve_network(conf.service.network.as_str())?;
        Ok(KeyInfo { privatekey: secret, network })
    }

    /// The network the key belongs to.
    pub fn get_network(&self) -> (r: Network)
        ensures
            r == self.spec_network(),
    {
        self.network
    }

    /// The secret key's 32 bytes, once the curve has accepted them as a key.
    pub fn get_private_key(&self) -> (r: Result<Vec<u8>, BenchError>)
        ensures
            r is Ok <==> secret_accepted(self.secret()),
            r matches Ok(v) ==> v@ == self.secret(),
            r matches Err(e) ==> e == BenchError::KeyError,
    {
        match private_key_bytes(&self.privatekey, self.network == Network::Mainnet) {
            Some(v) => Ok(v),
            None => Err(BenchError::KeyError),
        }
    }

    /// The compressed public key (33 bytes) of the secret.
    pub fn get_public_key(&self) -> (r: Result<Vec<u8>, BenchError>)
        ensures
            r is Ok <==> secret_accepted(self.secret()),
            r matches Ok(v) ==> v@ == public_key_of(self.secret()) && v@.len() == 33,
            r matches Err(e) ==> e == BenchError::KeyError,
    {
        match public_key_bytes(&self.privatekey) {
            Some(v) => Ok(v),
            None => Err(BenchError::KeyError),
        }
    }

    /// The pay-to-public-key-hash address of the key on its network.
    pub fn get_p2pkh(&self) -> (r: Result<String, BenchError>)
        ensures
            r is Ok <==> secret_accepted(self.secret()),
            r matches Ok(a) ==> a@ == p2pkh_address_of(
                self.secret(),
                self.spec_network() == Network::Mainnet,
            ),
            r matches Err(e) ==> e == BenchError::KeyError,
    {
        match p2pkh_address_text(&self.privatekey, self.network == Network::Mainnet) {
            Some(a) => Ok(a),
            None => Err(BenchError::KeyError),
        }
    }
}

/// Derives the key of a configuration, as `KeyInfo::new` does.
pub fn load_key_info(conf: Config) -> (r: Result<KeyInfo, BenchError>)
    ensures
        key_failure(conf.wallet.private_key_for_instance@, conf.service.network@) matches Some(e)
            ==> r == Err::<KeyInfo, BenchError>(e),
        key_failure(conf.wallet.private_key_for_instance@, conf.service.network@) is None
            ==> r is Ok,
        r matches Ok(k) ==> k.wf() && k.secret() == hex_bytes(conf.wallet.private_key_for_instance@)
            && Some(k.spec_network()) == network_of_tag(conf.service.network@),
{
    KeyInfo::new(&conf)
}

} // verus!
