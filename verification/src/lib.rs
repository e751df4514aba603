//! Deterministic bitcoin commitments: binding a message to a secp256k1 public
//! key, a script or a whole transaction output by deterministically tweaking
//! elliptic-curve key material, so that the tweaked object is
//! indistinguishable from an untweaked one without the original key.

pub mod bytes;
pub mod hashes;
pub mod keys;
pub mod lnpbp1;
pub mod script;
pub mod container;
pub mod spk;
pub mod pubkey;
pub mod lockscript;
pub mod taproot;
pub mod txout;
pub mod session;
