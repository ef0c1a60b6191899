//! Merkle-proof token airdrop: the verified core of an on-chain program that
//! stores one Merkle root per airdrop and lets each listed wallet claim a fixed
//! amount once, by proving its membership.

pub mod bytes;
pub mod hashing;
pub mod merkle;
pub mod state;
pub mod instructions;
pub mod laws;
