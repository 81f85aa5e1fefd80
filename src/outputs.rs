//! The shapes in which encrypted values come back from a computation.
use vstd::prelude::*;

verus! {

/// Ciphertexts that both the caller and the network can decrypt, with the
/// caller's public key and the nonce they were encrypted under.
#[derive(Clone, Copy, Debug)]
pub struct SharedEncryptedStruct<const LEN: usize> {
    pub encryption_key: [u8; 32],
    pub nonce: u128,
    pub ciphertexts: [[u8; 32]; LEN],
}

/// Ciphertexts that only the network can decrypt, with their nonce.
#[derive(Clone, Copy, Debug)]
pub struct MXEEncryptedStruct<const LEN: usize> {
    pub nonce: u128,
    pub ciphertexts: [[u8; 32]; LEN],
}

/// Bare ciphertexts.
#[derive(Clone, Copy, Debug)]
pub struct EncDataStruct<const LEN: usize> {
    pub ciphertexts: [[u8; 32]; LEN],
}

/// What a computation handed to its callback: its outputs, or a failure.
#[derive(Clone, Copy, Debug)]
pub enum ComputationOutputs<O> {
    Success(O),
    Failure,
}

} // verus!
