//! From a secret to a master key, from a master key to the signing key and
//! the address of each account.
//!
//! The hashing and the elliptic-curve work are done by outside crates. Each
//! of their results is a function of the bytes handed in, and is given a
//! name here; what the wallet builds from those results is proved.

use sha2::Digest;
use vstd::prelude::*;
use vstd::slice::*;
use vstd::string::*;
use crate::codec::{
    address_text, decimal_text, is_address_text, lemma_address_text_is_address,
    lemma_decimal_text_len_u32, push_decimal, push_hex,
};
use crate::error::WalletError;

verus! {

/// The SHA-256 digest of a byte string.
pub uninterp spec fn sha256_digest(data: Seq<u8>) -> Seq<u8>;

/// The Keccak-256 digest of a byte string.
pub uninterp spec fn keccak256_digest(data: Seq<u8>) -> Seq<u8>;

/// The 64-byte seed that the recovery phrase of `entropy` stretches to, with
/// an empty passphrase.
pub uninterp spec fn bip39_seed(entropy: Seq<u8>) -> Seq<u8>;

/// The encoded master extended private key of a seed, if there is one.
pub uninterp spec fn bip32_master(seed: Seq<u8>) -> Option<Seq<u8>>;

/// The encoded extended private key of the child that `path` names under
/// the encoded extended private key `master`, if the key decodes, the path
/// parses and the child exists.
pub uninterp spec fn bip32_child(master: Seq<u8>, path: Seq<char>) -> Option<Seq<u8>>;

/// The encoded extended public key that belongs to an encoded extended
/// private key, if the key decodes.
pub uninterp spec fn bip32_public(key: Seq<u8>) -> Option<Seq<u8>>;

/// The uncompressed public key of a secret key, if the bytes are a secret
/// key.
pub uninterp spec fn secp256k1_public_key(secret: Seq<u8>) -> Option<Seq<u8>>;

/// The contents of optional bytes.
pub open spec fn bytes_of(r: Option<Vec<u8>>) -> Option<Seq<u8>> {
    match r {
        Some(v) => Some(v@),
        None => None,
    }
}

/// Whether the bytes have the shape of an encoded master key: 78 bytes with
/// a depth of zero.
pub open spec fn is_master_encoding(key: Seq<u8>) -> bool {
    key.len() == 78 && key[4] == 0
}

/// The entropy lengths, in bytes, from which a recovery phrase can be made.
pub open spec fn accepted_entropy_len(n: nat) -> bool {
    n == 16 || n == 20 || n == 24 || n == 28 || n == 32
}

/// `sha2::Sha256::digest`. Believed: the result is the SHA-256 digest of the
/// input, which has 32 bytes.
#[verifier::external_body]
fn sha256(data: &[u8]) -> (r: Vec<u8>)
    ensures
        r@ == sha256_digest(data@),
        r@.len() == 32,
{
    sha2::Sha256::digest(data).to_vec()
}

/// `sha3::Keccak256::digest`. Believed: the result is the Keccak-256 digest
/// of the input, which has 32 bytes.
#[verifier::external_body]
fn keccak256(data: &[u8]) -> (r: Vec<u8>)
    ensures
        r@ == keccak256_digest(data@),
        r@.len() == 32,
{
    sha3::Keccak256::digest(data).to_vec()
}

/// `bip39::Mnemonic::from_entropy`, then `bip39::Mnemonic::to_seed` with an
/// empty passphrase, on the English word list.
///
/// Believed: a phrase is made exactly from 16, 20, 24, 28 or 32 bytes of
/// entropy, and the seed, 64 bytes long, depends on the entropy alone.
#[verifier::external_body]
fn mnemonic_seed(entropy: &[u8]) -> (r: Option<Vec<u8>>)
    ensures
        r.is_some() == accepted_entropy_len(entropy@.len()),
        r.is_some() ==> r.unwrap()@ == bip39_seed(entropy@) && r.unwrap()@.len() == 64,
{
    match bip39::Mnemonic::from_entropy(entropy) {
        Ok(mnemonic) => Some(mnemonic.to_seed("").to_vec()),
        Err(_) => None,
    }
}

/// `bitcoin::util::bip32::ExtendedPrivKey::new_master` on the main network,
/// its result written out with `ExtendedPrivKey::encode`.
///
/// Believed: whether a master key exists, and which, depends on the seed
/// alone; its encoding has 78 bytes, of which the fifth, the depth, is zero.
#[verifier::external_body]
fn master_key_bytes(seed: &[u8]) -> (r: Option<Vec<u8>>)
    ensures
        bytes_of(r) == bip32_master(seed@),
        r.is_some() ==> is_master_encoding(r.unwrap()@),
{
    match bitcoin::util::bip32::ExtendedPrivKey::new_master(bitcoin::Network::Bitcoin, seed) {
        Ok(key) => Some(key.encode().to_vec()),
        Err(_) => None,
    }
}

/// `bitcoin::util::bip32::ExtendedPrivKey::derive_priv`, on a key read with
/// `ExtendedPrivKey::decode` and a path read with `str::parse` as a
/// `DerivationPath`; the child is written out with `ExtendedPrivKey::encode`.
///
/// Believed: the outcome depends on the encoded key and the path text alone,
/// is `None` where the key does not decode or the path does not parse, and
/// has 78 bytes otherwise. The key has to be a master key and the path
/// short, so that the depth of the child, which grows by one with each step
/// of the path, fits the byte that holds it. The outside code gives up,
/// rather than return, on a child whose key would be zero or beyond the
/// curve order, which no known input reaches.
#[verifier::external_body]
fn derive_child(master: &[u8], path: &str) -> (r: Option<Vec<u8>>)
    requires
        is_master_encoding(master@),
        path@.len() <= 40,
    ensures
        bytes_of(r) == bip32_child(master@, path@),
        r.is_some() ==> r.unwrap()@.len() == 78,
{
    let key = bitcoin::util::bip32::ExtendedPrivKey::decode(master).ok()?;
    let path = path.parse::<bitcoin::util::bip32::DerivationPath>().ok()?;
    let child = key.derive_priv(&secp256k1::Secp256k1::new(), &path).ok()?;
    Some(child.encode().to_vec())
}

/// `bitcoin::util::bip32::ExtendedPubKey::from_priv`, on a key read with
/// `ExtendedPrivKey::decode`; the public key is written out with
/// `ExtendedPubKey::encode`.
///
/// Believed: the outcome depends on the encoded private key alone, is `None`
/// where it does not decode, and has 78 bytes otherwise.
#[verifier::external_body]
fn extended_public_key(key: &[u8]) -> (r: Option<Vec<u8>>)
    ensures
        bytes_of(r) == bip32_public(key@),
        r.is_some() ==> r.unwrap()@.len() == 78,
{
    let key = bitcoin::util::bip32::ExtendedPrivKey::decode(key).ok()?;
    let curve = secp256k1::Secp256k1::new();
    Some(bitcoin::util::bip32::ExtendedPubKey::from_priv(&curve, &key).encode().to_vec())
}

/// `secp256k1::PublicKey::from_secret_key`, on a key read with
/// `SecretKey::from_slice`, written out with `serialize_uncompressed`.
///
/// Believed: the outcome depends on the secret bytes alone, is `None` where
/// they are no secret key, and has 65 bytes otherwise.
#[verifier::external_body]
fn public_key_bytes(secret: &[u8]) -> (r: Option<Vec<u8>>)
    ensures
        bytes_of(r) == secp256k1_public_key(secret@),
        r.is_some() ==> r.unwrap()@.len() == 65,
{
    let key = secp256k1::SecretKey::from_slice(secret).ok()?;
    let public = secp256k1::PublicKey::from_secret_key(&secp256k1::Secp256k1::new(), &key);
    Some(public.serialize_uncompressed().to_vec())
}

/// The master key of a wallet: an encoded extended private key. It is made
/// once and never changes.
pub struct MasterKey {
    bytes: Vec<u8>,
}

impl MasterKey {
    #[verifier::type_invariant]
    spec fn encodes_a_master_key(self) -> bool {
        is_master_encoding(self.bytes@)
    }
}

impl View for MasterKey {
    type V = Seq<u8>;

    closed spec fn view(&self) -> Seq<u8> {
        self.bytes@
    }
}

/// What [`master_key_from_entropy`] makes of entropy: it is the entropy of
/// a recovery phrase, the phrase is stretched to a seed, and the seed gives
/// the master key. Entropy of another length than a phrase can have is
/// refused.
pub open spec fn master_key_of_entropy(entropy: Seq<u8>) -> Result<Seq<u8>, WalletError> {
    if !accepted_entropy_len(entropy.len()) {
        Err(WalletError::InvalidSecret)
    } else {
        match bip32_master(bip39_seed(entropy)) {
            Some(key) => Ok(key),
            None => Err(WalletError::KeyDerivationError),
        }
    }
}

/// What [`derive_master_key`] makes of a secret: the digest of the secret is
/// the entropy.
pub open spec fn master_key_of(secret: Seq<u8>) -> Result<Seq<u8>, WalletError> {
    master_key_of_entropy(sha256_digest(secret))
}

/// The path of the child wallet with the given index.
pub open spec fn child_wallet_path(index: u32) -> Seq<char> {
    "m/44'/0'/0'/0/"@ + decimal_text(index as nat)
}

/// The canonical path of the account with the given index.
pub open spec fn derivation_path(index: u32) -> Seq<char> {
    "m/44'/60'/0'/0/"@ + decimal_text(index as nat)
}

/// The address that belongs to an uncompressed public key: the format byte
/// is dropped, the other bytes are hashed, and the last twenty bytes of the
/// digest are written in hexadecimal behind `0x`.
pub open spec fn public_key_address(public_key: Seq<u8>) -> Seq<char> {
    address_text(
        keccak256_digest(public_key.subrange(1, public_key.len() as int)).subrange(12, 32),
    )
}

/// The secret key inside an encoded extended private key: its last 32
/// bytes.
pub open spec fn secret_part(key: Seq<u8>) -> Seq<u8> {
    key.subrange(46, 78)
}

/// The signing key of the account at `index` under `master`, if it exists:
/// the secret key of the child at the account's path.
pub open spec fn signing_key_of(master: Seq<u8>, index: u32) -> Option<Seq<u8>> {
    match bip32_child(master, derivation_path(index)) {
        Some(child) => Some(secret_part(child)),
        None => None,
    }
}

/// The encoded extended public key of the child wallet at `index` under
/// `master`, if it exists.
pub open spec fn child_wallet_of(master: Seq<u8>, index: u32) -> Option<Seq<u8>> {
    match bip32_child(master, child_wallet_path(index)) {
        Some(child) => bip32_public(child),
        None => None,
    }
}

/// The address of the account at `index` under `master`, if it exists.
pub open spec fn address_of(master: Seq<u8>, index: u32) -> Option<Seq<char>> {
    match signing_key_of(master, index) {
        None => None,
        Some(secret) => match secp256k1_public_key(secret) {
            None => None,
            Some(public_key) => Some(public_key_address(public_key)),
        },
    }
}

/// Derives the master key of a secret.
pub fn derive_master_key(secret: &[u8]) -> (r: Result<MasterKey, WalletError>)
    ensures
        match master_key_of(secret@) {
            Ok(key) => r.is_ok() && r.unwrap()@ == key,
            Err(e) => r matches Err(x) && x == e,
        },
{
    let entropy = sha256(secret);
    master_key_from_entropy(entropy.as_slice())
}

/// Derives the master key that belongs to the entropy of a recovery phrase.
pub fn master_key_from_entropy(entropy: &[u8]) -> (r: Result<MasterKey, WalletError>)
    ensures
        match master_key_of_entropy(entropy@) {
            Ok(key) => r.is_ok() && r.unwrap()@ == key,
            Err(e) => r matches Err(x) && x == e,
        },
{
    match mnemonic_seed(entropy) {
        None => Err(WalletError::InvalidSecret),
        Some(seed) => match master_key_bytes(seed.as_slice()) {
            Some(bytes) => Ok(MasterKey { bytes }),
            None => Err(WalletError::KeyDerivationError),
        },
    }
}

/// Writes the canonical path of an account index.
pub fn derivation_path_text(index: u32) -> (r: String)
    ensures
        r@ == derivation_path(index),
        r@.len() <= 25,
{
    let mut path = String::from_str("m/44'/60'/0'/0/");
    push_decimal(&mut path, index);
    proof {
        reveal_strlit("m/44'/60'/0'/0/");
        lemma_decimal_text_len_u32(index);
    }
    path
}

/// Writes the path of a child wallet index.
pub fn child_wallet_path_text(index: u32) -> (r: String)
    ensures
        r@ == child_wallet_path(index),
        r@.len() <= 24,
{
    let mut path = String::from_str("m/44'/0'/0'/0/");
    push_decimal(&mut path, index);
    proof {
        reveal_strlit("m/44'/0'/0'/0/");
        lemma_decimal_text_len_u32(index);
    }
    path
}

/// Turns an uncompressed public key into its address. A key that does not
/// have 65 bytes is refused.
pub fn public_key_to_eth_address(public_key: &[u8]) -> (r: Result<String, WalletError>)
    ensures
        public_key@.len() == 65 ==> r.is_ok() && r.unwrap()@ == public_key_address(public_key@),
        r.is_ok() ==> is_address_text(r.unwrap()@),
        public_key@.len() != 65 ==> r == Err::<String, WalletError>(
            WalletError::KeyDerivationError,
        ),
{
    if public_key.len() != 65 {
        return Err(WalletError::KeyDerivationError);
    }
    let hash = keccak256(slice_subrange(public_key, 1, 65));
    let mut text = String::from_str("0x");
    proof {
        reveal_strlit("0x");
        assert(text@ =~= seq!['0', 'x']);
    }
    push_hex(&mut text, slice_subrange(hash.as_slice(), 12, 32));
    proof {
        lemma_address_text_is_address(hash@.subrange(12, 32));
    }
    Ok(text)
}

impl MasterKey {
    /// The signing key of the account at `index`.
    pub fn signing_key(&self, index: u32) -> (r: Result<Vec<u8>, WalletError>)
        ensures
            match signing_key_of(self@, index) {
                Some(key) => r.is_ok() && r.unwrap()@ == key,
                None => r matches Err(x) && x == WalletError::KeyDerivationError,
            },
    {
        proof {
            use_type_invariant(self);
        }
        let path = derivation_path_text(index);
        match derive_child(self.bytes.as_slice(), path.as_str()) {
            Some(child) => Ok(slice_to_vec(slice_subrange(child.as_slice(), 46, 78))),
            None => Err(WalletError::KeyDerivationError),
        }
    }

    /// The encoded extended public key of the child wallet at `index`.
    pub fn child_wallet(&self, index: u32) -> (r: Result<Vec<u8>, WalletError>)
        ensures
            match child_wallet_of(self@, index) {
                Some(key) => r.is_ok() && r.unwrap()@ == key,
                None => r matches Err(x) && x == WalletError::KeyDerivationError,
            },
    {
        proof {
            use_type_invariant(self);
        }
        let path = child_wallet_path_text(index);
        match derive_child(self.bytes.as_slice(), path.as_str()) {
            Some(child) => match extended_public_key(child.as_slice()) {
                Some(key) => Ok(key),
                None => Err(WalletError::KeyDerivationError),
            },
            None => Err(WalletError::KeyDerivationError),
        }
    }

    /// The address of the account at `index`.
    pub fn address(&self, index: u32) -> (r: Result<String, WalletError>)
        ensures
            match address_of(self@, index) {
                Some(a) => r.is_ok() && r.unwrap()@ == a,
                None => r matches Err(x) && x == WalletError::KeyDerivationError,
            },
            r.is_ok() ==> is_address_text(r.unwrap()@),
    {
        let secret = self.signing_key(index)?;
        match public_key_bytes(secret.as_slice()) {
            Some(public_key) => public_key_to_eth_address(public_key.as_slice()),
            None => Err(WalletError::KeyDerivationError),
        }
    }
}

/// The master key is a function of the secret: two derivations from equal
/// secrets agree, and so do the signing key and the address of every
/// account under them.
pub proof fn lemma_master_key_deterministic(first: Seq<u8>, second: Seq<u8>, index: u32)
    requires
        first == second,
    ensures
        master_key_of(first) == master_key_of(second),
        master_key_of(first) matches Ok(key) ==> {
            &&& signing_key_of(key, index) == signing_key_of(master_key_of(second).unwrap(), index)
            &&& address_of(key, index) == address_of(master_key_of(second).unwrap(), index)
        },
{
}

} // verus!
