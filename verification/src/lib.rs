//! Brute-force search for aesthetically pleasing Ethereum addresses.
//!
//! Each candidate wallet is produced by one pass of a fixed pipeline: draw
//! fresh entropy, expand it to a mnemonic phrase and seed, walk the fixed
//! hierarchical derivation path to a leaf private key, encode the matching
//! public key as a textual address, and test the address against the active
//! search criterion. The surrounding program fans this pipeline out over a
//! worker pool and owns the shared progress counter and cancellation flag;
//! the decisions those workers take are the library's.

pub mod address;
pub mod coordinator;
pub mod derivation;
pub mod hexcode;
pub mod matcher;
pub mod wallet;
