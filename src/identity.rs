use vstd::prelude::*;

verus! {

/// A 32-byte account identity (a wallet, an admin, a raffle account), held
/// as four little-endian 64-bit words: bytes `8*i .. 8*i+8` make word `i`.
#[derive(Clone, Copy, Debug, PartialEq, Eq, Structural)]
pub struct Pubkey {
    pub w0: u64,
    pub w1: u64,
    pub w2: u64,
    pub w3: u64,
}

} // verus!
