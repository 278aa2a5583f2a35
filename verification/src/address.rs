//! Candidate Ethereum addresses from uncompressed public keys.

use vstd::prelude::*;
use vstd::string::StringExecFns;
use crate::hexcode::{
    hex_lower, hex_lower_seq, is_hex_lower_char, lemma_hex_lower_seq_chars,
    lemma_hex_lower_seq_len,
};

verus! {

/// Number of bytes of an uncompressed SEC1 public-key encoding: one tag byte
/// followed by the 32-byte X and Y coordinates.
pub const UNCOMPRESSED_PUBKEY_BYTES: usize = 65;

/// The Keccak-256 digest of a byte string, by name only: the digest is a pure
/// function of the input bytes that takes pages to state.
pub uninterp spec fn keccak256_of(data: Seq<u8>) -> Seq<u8>;

/// Relies on tiny_keccak::Keccak::v256 with Hasher::update and
/// Hasher::finalize: the 32-byte Keccak-256 digest of the input bytes.
#[verifier::external_body]
fn keccak256(data: &[u8]) -> (r: Vec<u8>)
    ensures
        r@ == keccak256_of(data@),
        r@.len() == 32,
{
    let mut hasher = tiny_keccak::Keccak::v256();
    let mut out = [0u8; 32];
    tiny_keccak::Hasher::update(&mut hasher, data);
    tiny_keccak::Hasher::finalize(hasher, &mut out);
    out.to_vec()
}

/// The textual address of an uncompressed public key: `0x` followed by the
/// lowercase hex encoding of the last 20 bytes of the Keccak-256 digest of
/// the 64 coordinate bytes (the leading tag byte is excluded).
pub open spec fn eth_address_of(pubkey: Seq<u8>) -> Seq<char> {
    seq!['0', 'x'] + hex_lower_seq(keccak256_of(pubkey.skip(1)).skip(12))
}

/// A well-formed candidate address: `0x` followed by exactly 40 lowercase
/// hexadecimal characters.
pub open spec fn is_eth_address(s: Seq<char>) -> bool {
    s.len() == 42 && s[0] == '0' && s[1] == 'x' && (forall|i: int|
        2 <= i < 42 ==> is_hex_lower_char(#[trigger] s[i]))
}

/// Encode the address of an uncompressed public key.
pub fn eth_address_from_pubkey(pubkey: &[u8]) -> (r: String)
    requires
        pubkey@.len() == UNCOMPRESSED_PUBKEY_BYTES,
    ensures
        r@ == eth_address_of(pubkey@),
        is_eth_address(r@),
{
    let coords = vstd::slice::slice_subrange(pubkey, 1, 65);
    let digest = keccak256(coords);
    let tail = vstd::slice::slice_subrange(digest.as_slice(), 12, 32);
    let hex_part = hex_lower(tail);
    let mut addr = "0x".to_owned();
    addr.append(hex_part.as_str());
    proof {
        reveal_strlit("0x");
        assert(coords@ =~= pubkey@.skip(1));
        assert(tail@ =~= keccak256_of(pubkey@.skip(1)).skip(12));
        lemma_hex_lower_seq_len(tail@);
        lemma_hex_lower_seq_chars(tail@);
        assert(addr@ =~= eth_address_of(pubkey@));
    }
    addr
}

} // verus!
