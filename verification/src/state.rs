//! The program's accounts, events and errors, and the plain views of the
//! accounts each instruction reads and writes.

use vstd::prelude::*;

verus! {

/// An account address or mint: 32 bytes.
pub type Pubkey = [u8; 32];

/// The state of one airdrop.
#[derive(Clone, Copy, Debug, PartialEq, Eq)]
pub struct Airdrop {
    pub authority: Pubkey,
    pub mint: Pubkey,
    pub amount_per_claim: u64,
    pub max_claims: u64,
    pub total_claimed: u64,
    pub merkle_root: [u8; 32],
    pub active: bool,
    pub bump: u8,
    /// The first moment (Unix seconds) at which claims are accepted.
    pub claim_start: i64,
    /// The last moment (Unix seconds) at which claims are accepted.
    pub claim_end: i64,
}

/// The record written for a claimer when its claim is paid.
#[derive(Clone, Copy, Debug, PartialEq, Eq)]
pub struct ClaimRecord {
    pub airdrop: Pubkey,
    pub claimer: Pubkey,
    pub amount: u64,
    pub claimed_at: i64,
    pub bump: u8,
}

/// Emitted when an airdrop is created.
#[derive(Clone, Copy, Debug, PartialEq, Eq)]
pub struct AirdropCreated {
    pub airdrop: Pubkey,
    pub authority: Pubkey,
    pub mint: Pubkey,
    pub merkle_root: [u8; 32],
    pub max_claims: u64,
}

/// Emitted when a claim is paid to the claimer's token account.
#[derive(Clone, Copy, Debug, PartialEq, Eq)]
pub struct AirdropClaimed {
    pub airdrop: Pubkey,
    pub claimer: Pubkey,
    pub amount: u64,
    pub total_claimed: u64,
}

/// Emitted when a claim is paid into a vesting schedule.
#[derive(Clone, Copy, Debug, PartialEq, Eq)]
pub struct AirdropClaimedWithVesting {
    pub airdrop: Pubkey,
    pub claimer: Pubkey,
    pub amount: u64,
    pub total_claimed: u64,
    pub cliff_ts: i64,
    pub end_ts: i64,
}

/// Why a claim is refused.
#[derive(Clone, Copy, Debug, PartialEq, Eq)]
pub enum AirdropError {
    NotActive,
    MaxClaimsReached,
    InvalidProof,
    Overflow,
    OutsideClaimWindow,
}

/// The token accounts that instructions move tokens between.
#[derive(Clone, Copy, Debug, PartialEq, Eq)]
pub enum TokenAccountRole {
    /// The authority's token account of the airdrop's mint.
    AuthorityTokenAccount,
    /// The airdrop's vault, owned by the airdrop account.
    Vault,
    /// The claimer's token account of the airdrop's mint.
    ClaimerTokenAccount,
    /// The intermediary token account owned by the airdrop account.
    AirdropTokenAccount,
}

/// Who signs a token transfer.
#[derive(Clone, Copy, Debug, PartialEq, Eq)]
pub enum TransferSigner {
    /// The airdrop's authority, a signer of the transaction.
    Authority,
    /// The airdrop account, signing with its seeds (see `airdrop_signer_seeds`).
    AirdropAccount,
}

/// A checked token transfer that the program makes through the token program.
#[derive(Clone, Copy, Debug, PartialEq, Eq)]
pub struct TokenTransfer {
    pub from: TokenAccountRole,
    pub to: TokenAccountRole,
    pub signer: TransferSigner,
    pub amount: u64,
    pub decimals: u8,
}

/// A vesting schedule that the program asks the vesting program to create,
/// for the claimer, funded from the intermediary token account.
#[derive(Clone, Copy, Debug, PartialEq, Eq)]
pub struct VestingGrant {
    pub beneficiary: Pubkey,
    pub amount: u64,
    pub start_ts: i64,
    pub cliff_ts: i64,
    pub end_ts: i64,
}

/// What `create_airdrop` reads and writes: the signer, the mint, the new
/// airdrop account's address and bump, and the account itself.
#[derive(Clone, Copy, Debug, PartialEq, Eq)]
pub struct CreateAirdrop {
    pub authority: Pubkey,
    pub mint: Pubkey,
    pub airdrop_key: Pubkey,
    pub airdrop_bump: u8,
    pub airdrop: Airdrop,
}

/// What `fund_airdrop` reads: the signer, the airdrop and the mint's decimals.
#[derive(Clone, Copy, Debug, PartialEq, Eq)]
pub struct FundAirdrop {
    pub authority: Pubkey,
    pub airdrop: Airdrop,
    pub mint_decimals: u8,
}

/// What `claim` reads and writes: the claimer, the airdrop account and its
/// address, the mint's decimals, and the new claim record and its bump.
#[derive(Clone, Copy, Debug, PartialEq, Eq)]
pub struct Claim {
    pub claimer: Pubkey,
    pub airdrop_key: Pubkey,
    pub airdrop: Airdrop,
    pub mint_decimals: u8,
    pub claim_record: ClaimRecord,
    pub claim_record_bump: u8,
}

/// What `claim_with_vesting` reads and writes; the same accounts as `Claim`.
#[derive(Clone, Copy, Debug, PartialEq, Eq)]
pub struct ClaimWithVesting {
    pub claimer: Pubkey,
    pub airdrop_key: Pubkey,
    pub airdrop: Airdrop,
    pub mint_decimals: u8,
    pub claim_record: ClaimRecord,
    pub claim_record_bump: u8,
}

/// What `close_airdrop` reads and writes: the signer, the airdrop, the
/// vault's balance and the mint's decimals.
#[derive(Clone, Copy, Debug, PartialEq, Eq)]
pub struct CloseAirdrop {
    pub authority: Pubkey,
    pub airdrop: Airdrop,
    pub vault_amount: u64,
    pub mint_decimals: u8,
}

} // verus!
