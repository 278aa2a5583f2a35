//! Hierarchical-deterministic key derivation along the fixed path
//! m/44'/60'/0'/0/0.
//!
//! An extended private key is carried as 64 plain bytes: the 32 secret-key
//! bytes followed by the 32 chain-code bytes, the serialized form that
//! hdwallet uses.

use vstd::prelude::*;
use hdwallet::traits::{Deserialize, Serialize};

verus! {

/// Raw child index from which derivation is hardened.
pub const HARDENED_START: u32 = 2147483648;

/// The serialized master extended private key that BIP-32 assigns to a seed,
/// by name only: a pure function of the seed bytes.
pub uninterp spec fn master_xprv_of(seed: Seq<u8>) -> Seq<u8>;

/// The serialized child extended private key that BIP-32 derives from a
/// parent extended private key and a raw child index, by name only: a pure
/// function of the parent bytes and the index. Indices at or above
/// `HARDENED_START` derive hardened children, the rest normal children.
pub uninterp spec fn child_xprv_of(xprv: Seq<u8>, index: u32) -> Seq<u8>;

/// Whether BIP-32 assigns a master key to a seed, by name only: the
/// construction fails exactly when the left half of the seed's HMAC is not a
/// valid secret scalar, a deterministic fact of the seed bytes.
pub uninterp spec fn master_ok_of(seed: Seq<u8>) -> bool;

/// Whether BIP-32 derives a child of a parent extended private key at a raw
/// index, by name only: the step fails exactly when the derived scalar is
/// invalid, a deterministic fact of the parent bytes and the index.
pub uninterp spec fn child_ok_of(xprv: Seq<u8>, index: u32) -> bool;

/// Relies on hdwallet::ExtendedPrivKey::with_seed and its Serialize impl:
/// the master key of the seed as 32 secret-key bytes followed by the 32
/// chain-code bytes. Errs exactly when the HMAC of the seed is not a valid
/// secret scalar, which depends on the seed bytes alone.
#[verifier::external_body]
fn master_xprv(seed: &Vec<u8>) -> (r: Option<Vec<u8>>)
    ensures
        r is Some <==> master_ok_of(seed@),
        r matches Some(m) ==> m@ == master_xprv_of(seed@) && m@.len() == 64,
{
    match hdwallet::ExtendedPrivKey::with_seed(seed.as_slice()) {
        Ok(k) => Some(k.serialize()),
        Err(_) => None,
    }
}

/// Relies on hdwallet::ExtendedPrivKey::derive_private_key together with its
/// Deserialize and Serialize impls and KeyIndex::from_index: the child
/// extended private key of the given parent at the given raw index, in the
/// same 64-byte serialized form. Errs exactly when the derived scalar is
/// invalid, which depends on the parent bytes and the index alone.
#[verifier::external_body]
fn child_xprv(xprv: &Vec<u8>, index: u32) -> (r: Option<Vec<u8>>)
    requires
        xprv@.len() == 64,
    ensures
        r is Some <==> child_ok_of(xprv@, index),
        r matches Some(c) ==> c@ == child_xprv_of(xprv@, index) && c@.len() == 64,
{
    let parent = match hdwallet::ExtendedPrivKey::deserialize(xprv.as_slice()) {
        Ok(k) => k,
        Err(_) => return None,
    };
    let key_index = match hdwallet::KeyIndex::from_index(index) {
        Ok(i) => i,
        Err(_) => return None,
    };
    match parent.derive_private_key(key_index) {
        Ok(c) => Some(c.serialize()),
        Err(_) => None,
    }
}

/// The fixed derivation path m/44'/60'/0'/0/0 as raw indices: purpose,
/// coin-type and account are hardened, change and address-index are normal.
pub open spec fn eth_derivation_path() -> Seq<u32> {
    seq![
        (HARDENED_START + 44) as u32,
        (HARDENED_START + 60) as u32,
        HARDENED_START,
        0u32,
        0u32,
    ]
}

/// The serialized extended private key reached by walking the given raw
/// indices in order from the master key of the seed.
pub open spec fn derived_xprv_of(seed: Seq<u8>, path: Seq<u32>) -> Seq<u8>
    decreases path.len(),
{
    if path.len() == 0 {
        master_xprv_of(seed)
    } else {
        child_xprv_of(derived_xprv_of(seed, path.drop_last()), path.last())
    }
}

/// Whether every step of walking the given raw indices from the seed's
/// master key succeeds: the master construction accepts the seed and each
/// child step in order accepts its parent and index.
pub open spec fn derivation_ok_of(seed: Seq<u8>, path: Seq<u32>) -> bool
    decreases path.len(),
{
    if path.len() == 0 {
        master_ok_of(seed)
    } else {
        derivation_ok_of(seed, path.drop_last()) && child_ok_of(
            derived_xprv_of(seed, path.drop_last()),
            path.last(),
        )
    }
}

/// A walk that succeeds along a path succeeds along every prefix of it.
proof fn lemma_derivation_ok_prefix(seed: Seq<u8>, path: Seq<u32>, k: int)
    requires
        0 <= k <= path.len(),
        derivation_ok_of(seed, path),
    ensures
        derivation_ok_of(seed, path.take(k)),
    decreases path.len(),
{
    if k == path.len() {
        assert(path.take(k) =~= path);
    } else {
        lemma_derivation_ok_prefix(seed, path.drop_last(), k);
        assert(path.drop_last().take(k) =~= path.take(k));
    }
}

/// Walk the fixed path m/44'/60'/0'/0/0 from the seed's master key. Returns
/// the serialized leaf extended private key; returns `None` exactly when
/// some step of the walk rejects its scalar, which the caller treats as
/// "discard this candidate".
pub fn derive_eth_leaf_xprv(seed: &Vec<u8>) -> (r: Option<Vec<u8>>)
    ensures
        r is Some <==> derivation_ok_of(seed@, eth_derivation_path()),
        r matches Some(k) ==> k@ == derived_xprv_of(seed@, eth_derivation_path())
            && k@.len() == 64,
{
    let mut path: Vec<u32> = Vec::new();
    path.push(HARDENED_START + 44);
    path.push(HARDENED_START + 60);
    path.push(HARDENED_START);
    path.push(0);
    path.push(0);
    proof {
        assert(path@ =~= eth_derivation_path());
    }
    let mut cur = match master_xprv(seed) {
        Some(m) => m,
        None => {
            proof {
                if derivation_ok_of(seed@, path@) {
                    lemma_derivation_ok_prefix(seed@, path@, 0);
                    assert(path@.take(0) =~= Seq::<u32>::empty());
                    assert(false);
                }
            }
            return None;
        },
    };
    let mut i: usize = 0;
    while i < path.len()
        invariant
            i <= path@.len(),
            path@ == eth_derivation_path(),
            derivation_ok_of(seed@, path@.take(i as int)),
            cur@ == derived_xprv_of(seed@, path@.take(i as int)),
            cur@.len() == 64,
        decreases path@.len() - i,
    {
        proof {
            assert(path@.take(i + 1).drop_last() =~= path@.take(i as int));
            assert(path@.take(i + 1).last() == path@[i as int]);
        }
        let next = match child_xprv(&cur, path[i]) {
            Some(c) => c,
            None => {
                proof {
                    if derivation_ok_of(seed@, path@) {
                        lemma_derivation_ok_prefix(seed@, path@, i + 1);
                        assert(false);
                    }
                }
                return None;
            },
        };
        cur = next;
        i = i + 1;
    }
    proof {
        assert(path@.take(path@.len() as int) =~= eth_derivation_path());
    }
    Some(cur)
}

/// The secret-key half of a serialized extended private key: its first 32
/// bytes.
pub open spec fn secret_key_of_xprv(xprv: Seq<u8>) -> Seq<u8> {
    xprv.subrange(0, 32)
}

/// Extract the 32 secret-key bytes from a serialized extended private key.
pub fn secret_key_bytes(xprv: &Vec<u8>) -> (r: Vec<u8>)
    requires
        xprv@.len() == 64,
    ensures
        r@ == secret_key_of_xprv(xprv@),
        r@.len() == 32,
{
    let key_slice = vstd::slice::slice_subrange(xprv.as_slice(), 0, 32);
    let r = vstd::slice::slice_to_vec(key_slice);
    proof {
        assert(r@ =~= secret_key_of_xprv(xprv@));
    }
    r
}

} // verus!
