//! The decisions of the program's five instructions.
//!
//! Each function takes the plain view of the accounts that the instruction
//! reads, updates the accounts that it writes, and returns the token
//! transfers (and vesting schedule) that the program then performs through
//! other programs. A transaction is atomic: when such a call fails, the
//! updates made here are discarded with the rest of the transaction.

use vstd::prelude::*;
use crate::hashing::sha256_hashv;
use crate::merkle::{fold_proof, proves_membership, verify_proof};
use crate::state::{
    Airdrop, AirdropClaimed, AirdropClaimedWithVesting, AirdropCreated, AirdropError, Claim,
    ClaimRecord, ClaimWithVesting, CloseAirdrop, CreateAirdrop, FundAirdrop, Pubkey,
    TokenAccountRole, TokenTransfer, TransferSigner, VestingGrant,
};

verus! {

broadcast use vstd::array::array_len_matches_n;

/// The state of a newly created airdrop.
pub open spec fn new_airdrop(
    authority: Pubkey,
    mint: Pubkey,
    amount_per_claim: u64,
    max_claims: u64,
    merkle_root: [u8; 32],
    claim_start: i64,
    claim_end: i64,
    bump: u8,
) -> Airdrop {
    Airdrop {
        authority,
        mint,
        amount_per_claim,
        max_claims,
        total_claimed: 0,
        merkle_root,
        active: true,
        bump,
        claim_start,
        claim_end,
    }
}

/// `now` lies in the airdrop's claim window, both ends included.
pub open spec fn in_claim_window(airdrop: Airdrop, now: i64) -> bool {
    airdrop.claim_start <= now <= airdrop.claim_end
}

/// Why a claim by `claimer` with `proof` at time `now` is refused, if it is:
/// the airdrop is closed, or `now` is outside its claim window, or all its
/// claims are paid, or the proof does not lead from the claimer's leaf to the
/// airdrop's root; checked in that order.
pub open spec fn claim_refusal(
    airdrop: Airdrop,
    claimer: Seq<u8>,
    proof: Seq<[u8; 32]>,
    now: i64,
) -> Option<AirdropError> {
    if !airdrop.active {
        Some(AirdropError::NotActive)
    } else if !in_claim_window(airdrop, now) {
        Some(AirdropError::OutsideClaimWindow)
    } else if airdrop.total_claimed >= airdrop.max_claims {
        Some(AirdropError::MaxClaimsReached)
    } else if !proves_membership(claimer, proof, airdrop.merkle_root@) {
        Some(AirdropError::InvalidProof)
    } else {
        None
    }
}

/// The airdrop after one more paid claim.
pub open spec fn after_claim(airdrop: Airdrop) -> Airdrop {
    Airdrop { total_claimed: (airdrop.total_claimed + 1) as u64, ..airdrop }
}

/// The airdrop after it is closed.
pub open spec fn after_close(airdrop: Airdrop) -> Airdrop {
    Airdrop { active: false, ..airdrop }
}

/// The payment of one claim out of the vault, signed by the airdrop account.
pub open spec fn claim_payment(airdrop: Airdrop, to: TokenAccountRole, decimals: u8) -> TokenTransfer {
    TokenTransfer {
        from: TokenAccountRole::Vault,
        to,
        signer: TransferSigner::AirdropAccount,
        amount: airdrop.amount_per_claim,
        decimals,
    }
}

/// The bytes of the word "airdrop", the first seed of an airdrop account.
pub open spec fn airdrop_seed() -> Seq<u8> {
    seq![97u8, 105u8, 114u8, 100u8, 114u8, 111u8, 112u8]
}

/// The seeds with which the airdrop account signs: "airdrop", the
/// authority, the mint and the bump.
pub open spec fn signer_seeds(airdrop: Airdrop) -> Seq<Seq<u8>> {
    seq![airdrop_seed(), airdrop.authority@, airdrop.mint@, seq![airdrop.bump]]
}

/// The bytes of the word "vault", the first seed of an airdrop's vault.
pub open spec fn vault_seed() -> Seq<u8> {
    seq![118u8, 97u8, 117u8, 108u8, 116u8]
}

/// The bytes of the word "claim", the first seed of a claim record.
pub open spec fn claim_seed() -> Seq<u8> {
    seq![99u8, 108u8, 97u8, 105u8, 109u8]
}

/// The seeds of an airdrop account's address: "airdrop", its authority and
/// its mint; one airdrop per authority and mint.
pub open spec fn airdrop_address_seeds(authority: Seq<u8>, mint: Seq<u8>) -> Seq<Seq<u8>> {
    seq![airdrop_seed(), authority, mint]
}

/// The seeds of an airdrop's vault address: "vault" and the airdrop's address.
pub open spec fn vault_address_seeds(airdrop_key: Seq<u8>) -> Seq<Seq<u8>> {
    seq![vault_seed(), airdrop_key]
}

/// The seeds of a claim record's address: "claim", the airdrop's address and
/// the claimer. The record is created by the claim that pays it, and an
/// address can be created only once.
pub open spec fn claim_record_address_seeds(airdrop_key: Seq<u8>, claimer: Seq<u8>) -> Seq<Seq<u8>> {
    seq![claim_seed(), airdrop_key, claimer]
}

/// Checks a claim before it is paid.
fn check_claim(airdrop: &Airdrop, claimer: &Pubkey, proof: &Vec<[u8; 32]>, now: i64) -> (res: Result<
    (),
    AirdropError,
>)
    ensures
        res is Err <==> claim_refusal(*airdrop, claimer@, proof@, now) is Some,
        res matches Err(e) ==> claim_refusal(*airdrop, claimer@, proof@, now) == Some(e),
{
    if !airdrop.active {
        return Err(AirdropError::NotActive);
    }
    if now < airdrop.claim_start || now > airdrop.claim_end {
        return Err(AirdropError::OutsideClaimWindow);
    }
    if !(airdrop.total_claimed < airdrop.max_claims) {
        return Err(AirdropError::MaxClaimsReached);
    }
    if !verify_proof(claimer, proof, &airdrop.merkle_root) {
        return Err(AirdropError::InvalidProof);
    }
    Ok(())
}

/// Creates an airdrop of `amount_per_claim` tokens for each of up to
/// `max_claims` claimers listed under `merkle_root`, owned by the signer,
/// whose claims are accepted from `claim_start` to `claim_end` (Unix seconds,
/// both included; a window that ends before it starts accepts none).
pub fn create_airdrop(
    ctx: &mut CreateAirdrop,
    amount_per_claim: u64,
    max_claims: u64,
    merkle_root: [u8; 32],
    claim_start: i64,
    claim_end: i64,
) -> (event: AirdropCreated)
    ensures
        final(ctx).airdrop == new_airdrop(
            old(ctx).authority,
            old(ctx).mint,
            amount_per_claim,
            max_claims,
            merkle_root,
            claim_start,
            claim_end,
            old(ctx).airdrop_bump,
        ),
        final(ctx).authority == old(ctx).authority,
        final(ctx).mint == old(ctx).mint,
        final(ctx).airdrop_key == old(ctx).airdrop_key,
        final(ctx).airdrop_bump == old(ctx).airdrop_bump,
        final(ctx).airdrop.authority == old(ctx).authority,
        final(ctx).airdrop.mint == old(ctx).mint,
        final(ctx).airdrop.amount_per_claim == amount_per_claim,
        final(ctx).airdrop.max_claims == max_claims,
        final(ctx).airdrop.total_claimed == 0,
        final(ctx).airdrop.merkle_root == merkle_root,
        final(ctx).airdrop.active,
        final(ctx).airdrop.bump == old(ctx).airdrop_bump,
        final(ctx).airdrop.claim_start == claim_start,
        final(ctx).airdrop.claim_end == claim_end,
        event == (AirdropCreated {
            airdrop: old(ctx).airdrop_key,
            authority: old(ctx).authority,
            mint: old(ctx).mint,
            merkle_root,
            max_claims,
        }),
{
    ctx.airdrop.authority = ctx.authority;
    ctx.airdrop.mint = ctx.mint;
    ctx.airdrop.amount_per_claim = amount_per_claim;
    ctx.airdrop.max_claims = max_claims;
    ctx.airdrop.total_claimed = 0;
    ctx.airdrop.merkle_root = merkle_root;
    ctx.airdrop.active = true;
    ctx.airdrop.bump = ctx.airdrop_bump;
    ctx.airdrop.claim_start = claim_start;
    ctx.airdrop.claim_end = claim_end;
    AirdropCreated {
        airdrop: ctx.airdrop_key,
        authority: ctx.airdrop.authority,
        mint: ctx.airdrop.mint,
        merkle_root,
        max_claims,
    }
}

/// Moves `amount` tokens from the authority's token account into the vault.
pub fn fund_airdrop(ctx: &FundAirdrop, amount: u64) -> (transfer: TokenTransfer)
    ensures
        transfer == (TokenTransfer {
            from: TokenAccountRole::AuthorityTokenAccount,
            to: TokenAccountRole::Vault,
            signer: TransferSigner::Authority,
            amount,
            decimals: ctx.mint_decimals,
        }),
{
    let decimals = ctx.mint_decimals;
    TokenTransfer {
        from: TokenAccountRole::AuthorityTokenAccount,
        to: TokenAccountRole::Vault,
        signer: TransferSigner::Authority,
        amount,
        decimals,
    }
}

/// Pays a claim into the claimer's token account, if the airdrop is active,
/// `claimed_at` (the current time) lies in its claim window, it has claims
/// left, and `proof` leads from the claimer's leaf to its root.
/// On success it writes the claim record, stamped `claimed_at`, counts the
/// claim, and returns the payment out of the vault and the event to emit;
/// on refusal it changes nothing.
pub fn claim(ctx: &mut Claim, proof: &Vec<[u8; 32]>, claimed_at: i64) -> (res: Result<
    (TokenTransfer, AirdropClaimed),
    AirdropError,
>)
    ensures
        res is Err <==> claim_refusal(old(ctx).airdrop, old(ctx).claimer@, proof@, claimed_at) is Some,
        res matches Err(e) ==> claim_refusal(old(ctx).airdrop, old(ctx).claimer@, proof@, claimed_at) == Some(
            e,
        ) && *final(ctx) == *old(ctx),
        res is Ok <==> ({
            &&& old(ctx).airdrop.active
            &&& old(ctx).airdrop.claim_start <= claimed_at <= old(ctx).airdrop.claim_end
            &&& old(ctx).airdrop.total_claimed < old(ctx).airdrop.max_claims
            &&& fold_proof(sha256_hashv(seq![old(ctx).claimer@]), proof@) == old(ctx).airdrop.merkle_root@
        }),
        res matches Ok((transfer, event)) ==> {
            &&& transfer.from == TokenAccountRole::Vault
            &&& transfer.to == TokenAccountRole::ClaimerTokenAccount
            &&& transfer.signer == TransferSigner::AirdropAccount
            &&& transfer.amount == old(ctx).airdrop.amount_per_claim
            &&& transfer.decimals == old(ctx).mint_decimals
            &&& final(ctx).airdrop.total_claimed == old(ctx).airdrop.total_claimed + 1
            &&& final(ctx).airdrop == (Airdrop {
                total_claimed: final(ctx).airdrop.total_claimed,
                ..old(ctx).airdrop
            })
            &&& *final(ctx) == (Claim {
                airdrop: after_claim(old(ctx).airdrop),
                claim_record: ClaimRecord {
                    airdrop: old(ctx).airdrop_key,
                    claimer: old(ctx).claimer,
                    amount: old(ctx).airdrop.amount_per_claim,
                    claimed_at,
                    bump: old(ctx).claim_record_bump,
                },
                ..*old(ctx)
            })
            &&& transfer == claim_payment(
                old(ctx).airdrop,
                TokenAccountRole::ClaimerTokenAccount,
                old(ctx).mint_decimals,
            )
            &&& event == (AirdropClaimed {
                airdrop: old(ctx).airdrop_key,
                claimer: old(ctx).claimer,
                amount: old(ctx).airdrop.amount_per_claim,
                total_claimed: (old(ctx).airdrop.total_claimed + 1) as u64,
            })
        },
{
    match check_claim(&ctx.airdrop, &ctx.claimer, proof, claimed_at) {
        Ok(()) => {},
        Err(e) => return Err(e),
    }
    let transfer = TokenTransfer {
        from: TokenAccountRole::Vault,
        to: TokenAccountRole::ClaimerTokenAccount,
        signer: TransferSigner::AirdropAccount,
        amount: ctx.airdrop.amount_per_claim,
        decimals: ctx.mint_decimals,
    };
    let total_claimed = match ctx.airdrop.total_claimed.checked_add(1) {
        Some(total) => total,
        None => return Err(AirdropError::Overflow),
    };
    ctx.claim_record = ClaimRecord {
        airdrop: ctx.airdrop_key,
        claimer: ctx.claimer,
        amount: ctx.airdrop.amount_per_claim,
        claimed_at,
        bump: ctx.claim_record_bump,
    };
    ctx.airdrop.total_claimed = total_claimed;
    let event = AirdropClaimed {
        airdrop: ctx.airdrop_key,
        claimer: ctx.claimer,
        amount: ctx.airdrop.amount_per_claim,
        total_claimed: ctx.airdrop.total_claimed,
    };
    Ok((transfer, event))
}

/// Pays a claim into a vesting schedule: if the airdrop is active,
/// `claimed_at` (the current time) lies in its claim window, it has claims
/// left, and `proof` leads from the claimer's leaf to its root, it writes the
/// claim record, stamped `claimed_at`, counts the claim, and returns the
/// payment out of the vault into the intermediary token account, the vesting
/// schedule to create for the claimer from `start_ts`, `cliff_ts` and
/// `end_ts` (handed on as they are), and the event to emit; on refusal it
/// changes nothing.
pub fn claim_with_vesting(
    ctx: &mut ClaimWithVesting,
    proof: &Vec<[u8; 32]>,
    start_ts: i64,
    cliff_ts: i64,
    end_ts: i64,
    claimed_at: i64,
) -> (res: Result<(TokenTransfer, VestingGrant, AirdropClaimedWithVesting), AirdropError>)
    ensures
        res is Err <==> claim_refusal(old(ctx).airdrop, old(ctx).claimer@, proof@, claimed_at) is Some,
        res matches Err(e) ==> claim_refusal(old(ctx).airdrop, old(ctx).claimer@, proof@, claimed_at) == Some(
            e,
        ) && *final(ctx) == *old(ctx),
        res is Ok <==> ({
            &&& old(ctx).airdrop.active
            &&& old(ctx).airdrop.claim_start <= claimed_at <= old(ctx).airdrop.claim_end
            &&& old(ctx).airdrop.total_claimed < old(ctx).airdrop.max_claims
            &&& fold_proof(sha256_hashv(seq![old(ctx).claimer@]), proof@) == old(ctx).airdrop.merkle_root@
        }),
        res matches Ok((transfer, grant, event)) ==> {
            &&& transfer.from == TokenAccountRole::Vault
            &&& transfer.to == TokenAccountRole::AirdropTokenAccount
            &&& transfer.signer == TransferSigner::AirdropAccount
            &&& transfer.amount == old(ctx).airdrop.amount_per_claim
            &&& grant.amount == old(ctx).airdrop.amount_per_claim
            &&& transfer.amount == grant.amount
            &&& transfer.decimals == old(ctx).mint_decimals
            &&& final(ctx).airdrop.total_claimed == old(ctx).airdrop.total_claimed + 1
            &&& final(ctx).airdrop == (Airdrop {
                total_claimed: final(ctx).airdrop.total_claimed,
                ..old(ctx).airdrop
            })
            &&& *final(ctx) == (ClaimWithVesting {
                airdrop: after_claim(old(ctx).airdrop),
                claim_record: ClaimRecord {
                    airdrop: old(ctx).airdrop_key,
                    claimer: old(ctx).claimer,
                    amount: old(ctx).airdrop.amount_per_claim,
                    claimed_at,
                    bump: old(ctx).claim_record_bump,
                },
                ..*old(ctx)
            })
            &&& transfer == claim_payment(
                old(ctx).airdrop,
                TokenAccountRole::AirdropTokenAccount,
                old(ctx).mint_decimals,
            )
            &&& grant == (VestingGrant {
                beneficiary: old(ctx).claimer,
                amount: old(ctx).airdrop.amount_per_claim,
                start_ts,
                cliff_ts,
                end_ts,
            })
            &&& event == (AirdropClaimedWithVesting {
                airdrop: old(ctx).airdrop_key,
                claimer: old(ctx).claimer,
                amount: old(ctx).airdrop.amount_per_claim,
                total_claimed: (old(ctx).airdrop.total_claimed + 1) as u64,
                cliff_ts,
                end_ts,
            })
        },
{
    match check_claim(&ctx.airdrop, &ctx.claimer, proof, claimed_at) {
        Ok(()) => {},
        Err(e) => return Err(e),
    }
    let amount = ctx.airdrop.amount_per_claim;
    let transfer = TokenTransfer {
        from: TokenAccountRole::Vault,
        to: TokenAccountRole::AirdropTokenAccount,
        signer: TransferSigner::AirdropAccount,
        amount,
        decimals: ctx.mint_decimals,
    };
    let grant = VestingGrant { beneficiary: ctx.claimer, amount, start_ts, cliff_ts, end_ts };
    let total_claimed = match ctx.airdrop.total_claimed.checked_add(1) {
        Some(total) => total,
        None => return Err(AirdropError::Overflow),
    };
    ctx.claim_record = ClaimRecord {
        airdrop: ctx.airdrop_key,
        claimer: ctx.claimer,
        amount,
        claimed_at,
        bump: ctx.claim_record_bump,
    };
    ctx.airdrop.total_claimed = total_claimed;
    let event = AirdropClaimedWithVesting {
        airdrop: ctx.airdrop_key,
        claimer: ctx.claimer,
        amount,
        total_claimed: ctx.airdrop.total_claimed,
        cliff_ts,
        end_ts,
    };
    Ok((transfer, grant, event))
}

/// Closes the airdrop, so that it refuses every later claim, and returns
/// the transfer of the vault's whole balance back to the authority's token
/// account when that balance is not zero.
pub fn close_airdrop(ctx: &mut CloseAirdrop) -> (refund: Option<TokenTransfer>)
    ensures
        *final(ctx) == (CloseAirdrop { airdrop: after_close(old(ctx).airdrop), ..*old(ctx) }),
        !final(ctx).airdrop.active,
        final(ctx).airdrop == (Airdrop { active: false, ..old(ctx).airdrop }),
        final(ctx).vault_amount == old(ctx).vault_amount,
        refund is Some <==> old(ctx).vault_amount > 0,
        refund matches Some(transfer) ==> transfer == (TokenTransfer {
            from: TokenAccountRole::Vault,
            to: TokenAccountRole::AuthorityTokenAccount,
            signer: TransferSigner::AirdropAccount,
            amount: old(ctx).vault_amount,
            decimals: old(ctx).mint_decimals,
        }),
{
    ctx.airdrop.active = false;
    let remaining = ctx.vault_amount;
    if remaining > 0 {
        Some(
            TokenTransfer {
                from: TokenAccountRole::Vault,
                to: TokenAccountRole::AuthorityTokenAccount,
                signer: TransferSigner::AirdropAccount,
                amount: remaining,
                decimals: ctx.mint_decimals,
            },
        )
    } else {
        None
    }
}

/// A copy of a 32-byte key as a vector.
fn key_to_vec(key: &Pubkey) -> (bytes: Vec<u8>)
    ensures
        bytes@ == key@,
{
    let mut bytes: Vec<u8> = Vec::new();
    let mut i: usize = 0;
    while i < 32
        invariant
            0 <= i <= 32,
            key@.len() == 32,
            bytes@ == key@.take(i as int),
        decreases 32 - i,
    {
        bytes.push(key[i]);
        i = i + 1;
        assert(bytes@ =~= key@.take(i as int));
    }
    assert(key@.take(32) =~= key@);
    bytes
}

/// The seeds with which the airdrop account signs the transfers out of the
/// vault: "airdrop", the authority, the mint and the bump.
pub fn airdrop_signer_seeds(airdrop: &Airdrop) -> (seeds: Vec<Vec<u8>>)
    ensures
        seeds@.len() == 4,
        forall|i: int| 0 <= i < 4 ==> #[trigger] seeds@[i]@ == signer_seeds(*airdrop)[i],
        seeds@[0]@ == seq![97u8, 105u8, 114u8, 100u8, 114u8, 111u8, 112u8],
        seeds@[1]@ == airdrop.authority@,
        seeds@[2]@ == airdrop.mint@,
        seeds@[3]@ == seq![airdrop.bump],
{
    let mut seeds: Vec<Vec<u8>> = Vec::new();
    seeds.push(vec![97u8, 105u8, 114u8, 100u8, 114u8, 111u8, 112u8]);
    seeds.push(key_to_vec(&airdrop.authority));
    seeds.push(key_to_vec(&airdrop.mint));
    seeds.push(vec![airdrop.bump]);
    proof {
        assert(seeds@[0]@ =~= airdrop_seed());
        assert(seeds@[3]@ =~= seq![airdrop.bump]);
    }
    seeds
}

} // verus!
