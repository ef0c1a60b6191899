use solana_airdrop::bytes::{key_eq, key_le};
use solana_airdrop::instructions::{
    airdrop_signer_seeds, claim, claim_with_vesting, close_airdrop, create_airdrop, fund_airdrop,
};
use solana_airdrop::merkle::{combine_node, compute_root, leaf_hash, verify_proof};
use solana_airdrop::state::{
    Airdrop, AirdropClaimed, AirdropClaimedWithVesting, AirdropCreated, AirdropError, Claim,
    ClaimRecord, ClaimWithVesting, CloseAirdrop, CreateAirdrop, FundAirdrop, TokenAccountRole,
    TokenTransfer, TransferSigner, VestingGrant,
};

fn key(b: u8) -> [u8; 32] {
    let mut k = [0u8; 32];
    k[0] = b;
    k[31] = b.wrapping_mul(7);
    k
}

fn hex(bytes: &[u8]) -> String {
    bytes.iter().map(|b| format!("{:02x}", b)).collect()
}

fn leaf(k: &[u8; 32]) -> [u8; 32] {
    solana_program::hash::hash(k).to_bytes()
}

fn pair(a: &[u8; 32], b: &[u8; 32]) -> [u8; 32] {
    if a <= b {
        solana_program::hash::hashv(&[a, b]).to_bytes()
    } else {
        solana_program::hash::hashv(&[b, a]).to_bytes()
    }
}

/// A tree of four claimers: root, and each claimer's proof.
fn four_leaf_tree(claimers: &[[u8; 32]; 4]) -> ([u8; 32], Vec<Vec<[u8; 32]>>) {
    let l: Vec<[u8; 32]> = claimers.iter().map(leaf).collect();
    let n01 = pair(&l[0], &l[1]);
    let n23 = pair(&l[2], &l[3]);
    let root = pair(&n01, &n23);
    let proofs = vec![
        vec![l[1], n23],
        vec![l[0], n23],
        vec![l[3], n01],
        vec![l[2], n01],
    ];
    (root, proofs)
}

fn airdrop_with(root: [u8; 32], max_claims: u64) -> Airdrop {
    Airdrop {
        authority: key(1),
        mint: key(2),
        amount_per_claim: 500,
        max_claims,
        total_claimed: 0,
        merkle_root: root,
        active: true,
        bump: 254,
        claim_start: 0,
        claim_end: 2_000_000_000,
    }
}

fn empty_record() -> ClaimRecord {
    ClaimRecord { airdrop: [0; 32], claimer: [0; 32], amount: 0, claimed_at: 0, bump: 0 }
}

fn claim_ctx(airdrop: Airdrop, claimer: [u8; 32]) -> Claim {
    Claim {
        claimer,
        airdrop_key: key(9),
        airdrop,
        mint_decimals: 6,
        claim_record: empty_record(),
        claim_record_bump: 253,
    }
}

#[test]
fn leaf_hash_is_sha256_of_key() {
    let zero = [0u8; 32];
    let l = leaf_hash(&zero);
    assert_eq!(hex(&l), "66687aadf862bd776c8fc18b8e9f8e20089714856ee233b3902a591d0d5f2925");
    assert_ne!(l, zero);
}

#[test]
fn combine_node_hashes_smaller_first() {
    let zero = [0u8; 32];
    assert_eq!(
        hex(&combine_node(&zero, &zero)),
        "f5a5fd42d16a20302798ef6ed309979b43003d2320d9f0e8ea9831a92759fb4b"
    );
    let a = key(3);
    let b = key(200);
    let expected = solana_program::hash::hashv(&[&a, &b]).to_bytes();
    assert_eq!(combine_node(&a, &b), expected);
    assert_eq!(combine_node(&b, &a), expected);
}

#[test]
fn key_order_is_lexicographic() {
    let mut a = [5u8; 32];
    let mut b = [5u8; 32];
    assert!(key_le(&a, &b));
    assert!(key_eq(&a, &b));
    a[10] = 4;
    b[31] = 0;
    assert!(key_le(&a, &b));
    assert!(!key_le(&b, &a));
    assert!(!key_eq(&a, &b));
    a[0] = 6;
    assert!(!key_le(&a, &b));
    assert!(key_le(&b, &a));
}

#[test]
fn empty_proof_root_is_leaf() {
    let c = key(7);
    assert_eq!(compute_root(&c, &vec![]), leaf(&c));
    assert!(verify_proof(&c, &vec![], &leaf(&c)));
    assert!(!verify_proof(&c, &vec![], &c));
}

#[test]
fn two_leaf_tree_both_sides_verify() {
    let x = key(11);
    let z = key(12);
    let root_x = compute_root(&x, &vec![leaf(&z)]);
    let root_z = compute_root(&z, &vec![leaf(&x)]);
    assert_eq!(root_x, root_z);
    assert_eq!(root_x, pair(&leaf(&x), &leaf(&z)));
}

#[test]
fn every_leaf_of_four_leaf_tree_verifies() {
    let claimers = [key(20), key(21), key(22), key(23)];
    let (root, proofs) = four_leaf_tree(&claimers);
    for i in 0..4 {
        assert_eq!(compute_root(&claimers[i], &proofs[i]), root);
        assert!(verify_proof(&claimers[i], &proofs[i], &root));
        assert!(!verify_proof(&claimers[(i + 1) % 4], &proofs[i], &root));
    }
}

#[test]
fn create_airdrop_initialises_state() {
    let mut ctx = CreateAirdrop {
        authority: key(1),
        mint: key(2),
        airdrop_key: key(9),
        airdrop_bump: 254,
        airdrop: Airdrop {
            authority: [0; 32],
            mint: [0; 32],
            amount_per_claim: 0,
            max_claims: 0,
            total_claimed: 0,
            merkle_root: [0; 32],
            active: false,
            bump: 0,
            claim_start: 0,
            claim_end: 0,
        },
    };
    let root = key(42);
    let event = create_airdrop(&mut ctx, 500, 3, root, 0, 2_000_000_000);
    assert_eq!(ctx.airdrop, airdrop_with(root, 3));
    assert_eq!(
        event,
        AirdropCreated { airdrop: key(9), authority: key(1), mint: key(2), merkle_root: root, max_claims: 3 }
    );
}

#[test]
fn fund_airdrop_moves_amount_into_vault() {
    let ctx = FundAirdrop { authority: key(1), airdrop: airdrop_with(key(42), 3), mint_decimals: 9 };
    assert_eq!(
        fund_airdrop(&ctx, 1_000_000),
        TokenTransfer {
            from: TokenAccountRole::AuthorityTokenAccount,
            to: TokenAccountRole::Vault,
            signer: TransferSigner::Authority,
            amount: 1_000_000,
            decimals: 9,
        }
    );
}

#[test]
fn claim_pays_listed_claimer() {
    let claimers = [key(20), key(21), key(22), key(23)];
    let (root, proofs) = four_leaf_tree(&claimers);
    let mut ctx = claim_ctx(airdrop_with(root, 3), claimers[2]);
    let (transfer, event) = claim(&mut ctx, &proofs[2], 1_700_000_000).unwrap();
    assert_eq!(
        transfer,
        TokenTransfer {
            from: TokenAccountRole::Vault,
            to: TokenAccountRole::ClaimerTokenAccount,
            signer: TransferSigner::AirdropAccount,
            amount: 500,
            decimals: 6,
        }
    );
    assert_eq!(event, AirdropClaimed { airdrop: key(9), claimer: claimers[2], amount: 500, total_claimed: 1 });
    assert_eq!(ctx.airdrop.total_claimed, 1);
    assert_eq!(
        ctx.claim_record,
        ClaimRecord { airdrop: key(9), claimer: claimers[2], amount: 500, claimed_at: 1_700_000_000, bump: 253 }
    );
}

#[test]
fn claim_with_wrong_proof_is_refused() {
    let claimers = [key(20), key(21), key(22), key(23)];
    let (root, proofs) = four_leaf_tree(&claimers);
    let mut ctx = claim_ctx(airdrop_with(root, 3), claimers[0]);
    let before = ctx;
    assert_eq!(claim(&mut ctx, &proofs[1], 5), Err(AirdropError::InvalidProof));
    assert_eq!(ctx, before);
    let mut outsider = claim_ctx(airdrop_with(root, 3), key(99));
    assert_eq!(claim(&mut outsider, &proofs[0], 5), Err(AirdropError::InvalidProof));
}

#[test]
fn claim_on_closed_airdrop_is_refused() {
    let claimers = [key(20), key(21), key(22), key(23)];
    let (root, proofs) = four_leaf_tree(&claimers);
    let mut airdrop = airdrop_with(root, 3);
    airdrop.active = false;
    let mut ctx = claim_ctx(airdrop, claimers[0]);
    assert_eq!(claim(&mut ctx, &proofs[0], 5), Err(AirdropError::NotActive));
    // Not active is checked before the cap and the proof.
    ctx.airdrop.total_claimed = 3;
    assert_eq!(claim(&mut ctx, &vec![], 5), Err(AirdropError::NotActive));
}

#[test]
fn claims_stop_at_max_claims() {
    let claimers = [key(20), key(21), key(22), key(23)];
    let (root, proofs) = four_leaf_tree(&claimers);
    let mut airdrop = airdrop_with(root, 2);
    for i in 0..2 {
        let mut ctx = claim_ctx(airdrop, claimers[i]);
        assert!(claim(&mut ctx, &proofs[i], 5).is_ok());
        airdrop = ctx.airdrop;
    }
    assert_eq!(airdrop.total_claimed, 2);
    let mut ctx = claim_ctx(airdrop, claimers[2]);
    assert_eq!(claim(&mut ctx, &proofs[2], 5), Err(AirdropError::MaxClaimsReached));
    // The cap is checked before the proof.
    assert_eq!(claim(&mut ctx, &vec![], 5), Err(AirdropError::MaxClaimsReached));
    let mut none_allowed = claim_ctx(airdrop_with(root, 0), claimers[0]);
    assert_eq!(claim(&mut none_allowed, &proofs[0], 5), Err(AirdropError::MaxClaimsReached));
}

#[test]
fn claim_near_counter_limit_does_not_overflow() {
    let claimers = [key(20), key(21), key(22), key(23)];
    let (root, proofs) = four_leaf_tree(&claimers);
    let mut airdrop = airdrop_with(root, u64::MAX);
    airdrop.total_claimed = u64::MAX - 1;
    let mut ctx = claim_ctx(airdrop, claimers[3]);
    let (_, event) = claim(&mut ctx, &proofs[3], 5).unwrap();
    assert_eq!(event.total_claimed, u64::MAX);
    assert_eq!(claim(&mut ctx, &proofs[3], 5), Err(AirdropError::MaxClaimsReached));
}

#[test]
fn claim_with_vesting_pays_into_schedule() {
    let claimers = [key(20), key(21), key(22), key(23)];
    let (root, proofs) = four_leaf_tree(&claimers);
    let mut ctx = ClaimWithVesting {
        claimer: claimers[1],
        airdrop_key: key(9),
        airdrop: airdrop_with(root, 3),
        mint_decimals: 6,
        claim_record: empty_record(),
        claim_record_bump: 250,
    };
    let (transfer, grant, event) = claim_with_vesting(&mut ctx, &proofs[1], 100, 200, 300, 150).unwrap();
    assert_eq!(
        transfer,
        TokenTransfer {
            from: TokenAccountRole::Vault,
            to: TokenAccountRole::AirdropTokenAccount,
            signer: TransferSigner::AirdropAccount,
            amount: 500,
            decimals: 6,
        }
    );
    assert_eq!(
        grant,
        VestingGrant { beneficiary: claimers[1], amount: 500, start_ts: 100, cliff_ts: 200, end_ts: 300 }
    );
    assert_eq!(
        event,
        AirdropClaimedWithVesting {
            airdrop: key(9),
            claimer: claimers[1],
            amount: 500,
            total_claimed: 1,
            cliff_ts: 200,
            end_ts: 300,
        }
    );
    assert_eq!(
        ctx.claim_record,
        ClaimRecord { airdrop: key(9), claimer: claimers[1], amount: 500, claimed_at: 150, bump: 250 }
    );
    let before = ctx;
    assert_eq!(
        claim_with_vesting(&mut ctx, &proofs[0], 100, 200, 300, 150),
        Err(AirdropError::InvalidProof)
    );
    assert_eq!(ctx, before);
}

#[test]
fn close_returns_remaining_tokens() {
    let mut ctx = CloseAirdrop { authority: key(1), airdrop: airdrop_with(key(42), 3), vault_amount: 750, mint_decimals: 6 };
    let refund = close_airdrop(&mut ctx);
    assert!(!ctx.airdrop.active);
    assert_eq!(
        refund,
        Some(TokenTransfer {
            from: TokenAccountRole::Vault,
            to: TokenAccountRole::AuthorityTokenAccount,
            signer: TransferSigner::AirdropAccount,
            amount: 750,
            decimals: 6,
        })
    );
    ctx.vault_amount = 0;
    assert_eq!(close_airdrop(&mut ctx), None);
    assert!(!ctx.airdrop.active);
}

#[test]
fn closed_airdrop_refuses_every_claim() {
    let claimers = [key(20), key(21), key(22), key(23)];
    let (root, proofs) = four_leaf_tree(&claimers);
    let mut close = CloseAirdrop { authority: key(1), airdrop: airdrop_with(root, 3), vault_amount: 0, mint_decimals: 6 };
    close_airdrop(&mut close);
    for i in 0..4 {
        let mut ctx = claim_ctx(close.airdrop, claimers[i]);
        assert_eq!(claim(&mut ctx, &proofs[i], 5), Err(AirdropError::NotActive));
    }
}

#[test]
fn signer_seeds_are_airdrop_authority_mint_bump() {
    let airdrop = airdrop_with(key(42), 3);
    let seeds = airdrop_signer_seeds(&airdrop);
    assert_eq!(seeds, vec![b"airdrop".to_vec(), key(1).to_vec(), key(2).to_vec(), vec![254u8]]);
}

#[test]
fn claims_outside_window_are_refused() {
    let claimers = [key(20), key(21), key(22), key(23)];
    let (root, proofs) = four_leaf_tree(&claimers);
    let mut airdrop = airdrop_with(root, 3);
    airdrop.claim_start = 1_000;
    airdrop.claim_end = 2_000;
    let mut ctx = claim_ctx(airdrop, claimers[0]);
    let before = ctx;
    assert_eq!(claim(&mut ctx, &proofs[0], 999), Err(AirdropError::OutsideClaimWindow));
    assert_eq!(claim(&mut ctx, &proofs[0], 2_001), Err(AirdropError::OutsideClaimWindow));
    assert_eq!(ctx, before);
    // The window is checked after the active flag and before the cap and the proof.
    assert_eq!(claim(&mut ctx, &vec![], 3_000), Err(AirdropError::OutsideClaimWindow));
    ctx.airdrop.total_claimed = 3;
    assert_eq!(claim(&mut ctx, &vec![], 3_000), Err(AirdropError::OutsideClaimWindow));
    ctx.airdrop.active = false;
    assert_eq!(claim(&mut ctx, &vec![], 3_000), Err(AirdropError::NotActive));
    // Both ends of the window are included.
    let mut first = claim_ctx(airdrop, claimers[0]);
    assert!(claim(&mut first, &proofs[0], 1_000).is_ok());
    let mut last = claim_ctx(airdrop, claimers[1]);
    assert!(claim(&mut last, &proofs[1], 2_000).is_ok());
    let mut vesting = ClaimWithVesting {
        claimer: claimers[2],
        airdrop_key: key(9),
        airdrop,
        mint_decimals: 6,
        claim_record: empty_record(),
        claim_record_bump: 250,
    };
    assert_eq!(
        claim_with_vesting(&mut vesting, &proofs[2], 0, 10, 20, 2_500),
        Err(AirdropError::OutsideClaimWindow)
    );
}

#[test]
fn create_airdrop_stores_claim_window() {
    let mut ctx = CreateAirdrop {
        authority: key(1),
        mint: key(2),
        airdrop_key: key(9),
        airdrop_bump: 7,
        airdrop: airdrop_with([0; 32], 0),
    };
    create_airdrop(&mut ctx, 10, 4, key(5), 100, 200);
    assert_eq!(ctx.airdrop.claim_start, 100);
    assert_eq!(ctx.airdrop.claim_end, 200);
    assert!(ctx.airdrop.active);
    assert_eq!(ctx.airdrop.total_claimed, 0);
    assert_eq!(ctx.airdrop.bump, 7);
}
