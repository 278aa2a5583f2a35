//! The generate → derive → encode pipeline: entropy to mnemonic phrase, seed,
//! leaf key, public key and candidate address.

use vstd::prelude::*;
use crate::address::{eth_address_from_pubkey, eth_address_of, is_eth_address};
use crate::derivation::{
    derivation_ok_of, derive_eth_leaf_xprv, derived_xprv_of, eth_derivation_path,
    secret_key_bytes, secret_key_of_xprv,
};

verus! {

/// Number of entropy bytes drawn for each candidate wallet.
pub const ENTROPY_BYTES: usize = 16;

/// An entropy length that the mnemonic word list defines: a whole number of
/// 32-bit groups, between 128 and 256 bits.
pub open spec fn valid_entropy_len(n: nat) -> bool {
    n % 4 == 0 && 16 <= n <= 32
}

/// The English mnemonic phrase of an entropy buffer, by name only: a pure
/// function of the entropy bytes.
pub uninterp spec fn phrase_of(entropy: Seq<u8>) -> Seq<char>;

/// The 64-byte seed that the mnemonic of an entropy buffer expands to under
/// the given passphrase, by name only: a pure function of both.
pub uninterp spec fn seed_of(entropy: Seq<u8>, passphrase: Seq<char>) -> Seq<u8>;

/// The uncompressed SEC1 encoding of the public key of a secret scalar, by
/// name only: a pure function of the 32 secret-key bytes.
pub uninterp spec fn pubkey_of(secret_key: Seq<u8>) -> Seq<u8>;

/// Whether 32 bytes are a valid non-zero secret scalar, by name only: a
/// deterministic fact of the bytes, and exactly the condition under which a
/// signing key can be built from them.
pub uninterp spec fn scalar_ok_of(secret_key: Seq<u8>) -> bool;

/// Relies on rand::thread_rng and RngCore::fill_bytes: a thread-local
/// cryptographically secure generator fills the buffer. Nothing is promised
/// of the bytes themselves.
#[verifier::external_body]
fn fill_random_bytes(n: usize) -> (r: Vec<u8>)
    ensures
        r@.len() == n,
{
    let mut rng = rand::thread_rng();
    let mut buf = vec![0u8; n];
    rand::RngCore::fill_bytes(&mut rng, &mut buf);
    buf
}

/// Relies on bip39::Mnemonic::from_entropy_in with the English word list and
/// the Display impl of Mnemonic: the words of the mnemonic of the entropy,
/// joined by single spaces. With a valid entropy length the construction
/// cannot fail.
#[verifier::external_body]
fn mnemonic_phrase(entropy: &Vec<u8>) -> (r: String)
    requires
        valid_entropy_len(entropy@.len()),
    ensures
        r@ == phrase_of(entropy@),
{
    let m = bip39::Mnemonic::from_entropy_in(bip39::Language::English, entropy.as_slice())
        .unwrap();
    m.to_string()
}

/// Relies on bip39::Mnemonic::from_entropy_in with the English word list and
/// Mnemonic::to_seed: the 64-byte seed that PBKDF2 stretches the mnemonic to
/// under the given passphrase. With a valid entropy length the construction
/// cannot fail.
#[verifier::external_body]
fn seed_from_entropy(entropy: &Vec<u8>, passphrase: &str) -> (r: Vec<u8>)
    requires
        valid_entropy_len(entropy@.len()),
    ensures
        r@ == seed_of(entropy@, passphrase@),
        r@.len() == 64,
{
    let m = bip39::Mnemonic::from_entropy_in(bip39::Language::English, entropy.as_slice())
        .unwrap();
    m.to_seed(passphrase).to_vec()
}

/// Relies on k256::ecdsa::SigningKey::from_slice, SigningKey::verifying_key
/// and VerifyingKey::to_encoded_point with compression off: the SEC1
/// uncompressed encoding of the public key, 65 bytes starting with the tag
/// byte 4. Errs exactly when the bytes are not a valid non-zero secret
/// scalar, which depends on the bytes alone.
#[verifier::external_body]
fn uncompressed_pubkey(secret_key: &Vec<u8>) -> (r: Option<Vec<u8>>)
    requires
        secret_key@.len() == 32,
    ensures
        r is Some <==> scalar_ok_of(secret_key@),
        r matches Some(p) ==> p@ == pubkey_of(secret_key@) && p@.len() == 65 && p@[0] == 4u8,
{
    let key = match k256::ecdsa::SigningKey::from_slice(secret_key.as_slice()) {
        Ok(k) => k,
        Err(_) => return None,
    };
    let point = key.verifying_key().to_encoded_point(false);
    Some(point.as_bytes().to_vec())
}

/// One candidate wallet: its textual address and the mnemonic phrase that
/// recovers it.
pub struct Candidate {
    pub address: String,
    pub phrase: String,
}

/// The address that the whole pipeline assigns to an entropy buffer:
/// entropy to seed (empty passphrase), seed along m/44'/60'/0'/0/0 to the
/// leaf secret key, its uncompressed public key, and that key's address.
pub open spec fn candidate_address_of(entropy: Seq<u8>) -> Seq<char> {
    eth_address_of(
        pubkey_of(
            secret_key_of_xprv(
                derived_xprv_of(seed_of(entropy, Seq::<char>::empty()), eth_derivation_path()),
            ),
        ),
    )
}

/// Whether the whole pipeline succeeds on an entropy buffer: every step of
/// the derivation walk accepts its scalar, and the leaf secret key is a
/// valid signing scalar.
pub open spec fn candidate_ok_of(entropy: Seq<u8>) -> bool {
    let seed = seed_of(entropy, Seq::<char>::empty());
    derivation_ok_of(seed, eth_derivation_path()) && scalar_ok_of(
        secret_key_of_xprv(derived_xprv_of(seed, eth_derivation_path())),
    )
}

/// Run the pipeline on one entropy buffer. Returns `None` exactly when a
/// derivation step rejects its scalar, in which case the candidate is
/// discarded and the caller draws new entropy.
pub fn candidate_from_entropy(entropy: &Vec<u8>) -> (r: Option<Candidate>)
    requires
        entropy@.len() == ENTROPY_BYTES,
    ensures
        r is Some <==> candidate_ok_of(entropy@),
        r matches Some(c) ==> c.address@ == candidate_address_of(entropy@)
            && c.phrase@ == phrase_of(entropy@) && is_eth_address(c.address@),
{
    let seed = seed_from_entropy(entropy, "");
    proof {
        reveal_strlit("");
        assert(""@ =~= Seq::<char>::empty());
    }
    let xprv = match derive_eth_leaf_xprv(&seed) {
        Some(x) => x,
        None => {
            return None;
        },
    };
    let secret_key = secret_key_bytes(&xprv);
    let pubkey = match uncompressed_pubkey(&secret_key) {
        Some(p) => p,
        None => {
            return None;
        },
    };
    let address = eth_address_from_pubkey(pubkey.as_slice());
    let phrase = mnemonic_phrase(entropy);
    Some(Candidate { address, phrase })
}

/// Draw fresh entropy and run the pipeline once. Every address handed back
/// is well formed and is the pipeline's address of some 16-byte entropy
/// buffer, whose phrase accompanies it; nothing is handed back only when the
/// pipeline rejects the drawn buffer.
pub fn fresh_candidate() -> (r: Option<Candidate>)
    ensures
        r matches Some(c) ==> is_eth_address(c.address@) && (exists|e: Seq<u8>|
            e.len() == ENTROPY_BYTES && candidate_ok_of(e) && c.address@
                == candidate_address_of(e) && c.phrase@ == phrase_of(e)),
        r is None ==> (exists|e: Seq<u8>| e.len() == ENTROPY_BYTES && !candidate_ok_of(e)),
{
    let entropy = fill_random_bytes(ENTROPY_BYTES);
    let r = candidate_from_entropy(&entropy);
    proof {
        if r is Some {
            let c = r->Some_0;
            assert(entropy@.len() == ENTROPY_BYTES && candidate_ok_of(entropy@) && c.address@
                == candidate_address_of(entropy@) && c.phrase@ == phrase_of(entropy@));
        } else {
            assert(entropy@.len() == ENTROPY_BYTES && !candidate_ok_of(entropy@));
        }
    }
    r
}

/// Determinism of the pipeline: the address and phrase that the pipeline
/// assigns to an entropy buffer are unique — two derivations from the same
/// entropy agree in every component.
pub proof fn lemma_derivation_deterministic(
    e: Seq<u8>,
    a1: Seq<char>,
    p1: Seq<char>,
    a2: Seq<char>,
    p2: Seq<char>,
)
    requires
        a1 == candidate_address_of(e),
        p1 == phrase_of(e),
        a2 == candidate_address_of(e),
        p2 == phrase_of(e),
    ensures
        a1 == a2,
        p1 == p2,
{
}

} // verus!
