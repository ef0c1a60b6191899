//! Properties that hold across the program's instructions.

use vstd::prelude::*;
use crate::hashing::sha256_hashv;
use crate::instructions::{
    after_claim, after_close, airdrop_address_seeds, claim_payment, claim_record_address_seeds,
    claim_refusal, new_airdrop, signer_seeds, vault_address_seeds,
};
use crate::merkle::fold_proof;
use crate::state::{TokenAccountRole, TransferSigner};
use crate::merkle::proves_membership;
use crate::state::{Airdrop, AirdropError, Pubkey};

verus! {

/// One claim attempt: the claimer's key, its proof, and the time of the claim.
pub type ClaimAttempt = (Seq<u8>, Seq<[u8; 32]>, i64);

/// The airdrop after a run of claim attempts made in order: accepted attempts are counted, refused ones change
/// nothing.
pub open spec fn run_claims(airdrop: Airdrop, attempts: Seq<ClaimAttempt>) -> Airdrop
    decreases attempts.len(),
{
    if attempts.len() == 0 {
        airdrop
    } else {
        let before = run_claims(airdrop, attempts.drop_last());
        let (claimer, proof, now) = attempts.last();
        if claim_refusal(before, claimer, proof, now) is None {
            after_claim(before)
        } else {
            before
        }
    }
}

/// How many attempts of the run are accepted.
pub open spec fn paid_claims(airdrop: Airdrop, attempts: Seq<ClaimAttempt>) -> nat
    decreases attempts.len(),
{
    if attempts.len() == 0 {
        0
    } else {
        let before = run_claims(airdrop, attempts.drop_last());
        let (claimer, proof, now) = attempts.last();
        paid_claims(airdrop, attempts.drop_last()) + if claim_refusal(before, claimer, proof, now) is None {
            1nat
        } else {
            0nat
        }
    }
}

/// A new airdrop is open, has paid no claim, and refuses a claim only
/// outside its claim window, when it allows none, or when the proof is wrong.
pub proof fn lemma_new_airdrop_is_open(
    authority: Pubkey,
    mint: Pubkey,
    amount_per_claim: u64,
    max_claims: u64,
    merkle_root: [u8; 32],
    claim_start: i64,
    claim_end: i64,
    bump: u8,
    claimer: Seq<u8>,
    proof: Seq<[u8; 32]>,
    now: i64,
)
    ensures
        ({
            let airdrop = new_airdrop(
                authority,
                mint,
                amount_per_claim,
                max_claims,
                merkle_root,
                claim_start,
                claim_end,
                bump,
            );
            &&& airdrop.active
            &&& airdrop.total_claimed == 0
            &&& airdrop.total_claimed <= airdrop.max_claims
            &&& claim_refusal(airdrop, claimer, proof, now) == if !(claim_start <= now <= claim_end) {
                Some(AirdropError::OutsideClaimWindow)
            } else if max_claims == 0 {
                Some(AirdropError::MaxClaimsReached)
            } else if !proves_membership(claimer, proof, merkle_root@) {
                Some(AirdropError::InvalidProof)
            } else {
                None
            }
        }),
{
}

/// An accepted claim counts one more claim, never past `max_claims`, and
/// so never overflows the counter; nothing else of the airdrop changes.
pub proof fn lemma_accepted_claim_within_cap(
    airdrop: Airdrop,
    claimer: Seq<u8>,
    proof: Seq<[u8; 32]>,
    now: i64,
)
    requires
        claim_refusal(airdrop, claimer, proof, now) is None,
    ensures
        after_claim(airdrop).total_claimed == airdrop.total_claimed + 1,
        after_claim(airdrop).total_claimed <= airdrop.max_claims,
        airdrop.total_claimed + 1 <= u64::MAX,
        after_claim(airdrop) == (Airdrop { total_claimed: after_claim(airdrop).total_claimed, ..airdrop }),
{
}

/// A claim is never refused for overflow.
pub proof fn lemma_no_overflow_refusal(airdrop: Airdrop, claimer: Seq<u8>, proof: Seq<[u8; 32]>, now: i64)
    ensures
        claim_refusal(airdrop, claimer, proof, now) != Some(AirdropError::Overflow),
{
}

/// A closed airdrop refuses every claim as not active, whatever the proof
/// and the time.
pub proof fn lemma_closed_airdrop_refuses_claims(
    airdrop: Airdrop,
    claimer: Seq<u8>,
    proof: Seq<[u8; 32]>,
    now: i64,
)
    ensures
        claim_refusal(after_close(airdrop), claimer, proof, now) == Some(AirdropError::NotActive),
{
}

/// Closing changes only the airdrop's `active` flag, and closing twice is
/// closing once.
pub proof fn lemma_close_idempotent(airdrop: Airdrop)
    ensures
        after_close(after_close(airdrop)) == after_close(airdrop),
        after_close(airdrop) == (Airdrop { active: false, ..airdrop }),
{
}

/// However many claims are attempted, the counter grows by the number
/// accepted, never passes `max_claims`, and the tokens paid out, at
/// `amount_per_claim` each, never exceed `max_claims * amount_per_claim`;
/// the airdrop's other fields stay as they were.
pub proof fn lemma_claims_never_exceed_cap(airdrop: Airdrop, attempts: Seq<ClaimAttempt>)
    requires
        airdrop.total_claimed <= airdrop.max_claims,
    ensures
        run_claims(airdrop, attempts).total_claimed == airdrop.total_claimed + paid_claims(airdrop, attempts),
        run_claims(airdrop, attempts).total_claimed <= airdrop.max_claims,
        run_claims(airdrop, attempts) == (Airdrop {
            total_claimed: run_claims(airdrop, attempts).total_claimed,
            ..airdrop
        }),
        paid_claims(airdrop, attempts) * airdrop.amount_per_claim <= airdrop.max_claims
            * airdrop.amount_per_claim,
    decreases attempts.len(),
{
    if attempts.len() > 0 {
        lemma_claims_never_exceed_cap(airdrop, attempts.drop_last());
    }
    let paid = paid_claims(airdrop, attempts);
    let max = airdrop.max_claims;
    let amount = airdrop.amount_per_claim;
    assert(paid * amount <= max * amount) by (nonlinear_arith)
        requires
            paid <= max,
            0 <= amount,
    ;
}

/// A run of claim attempts against the airdrop at `airdrop_key`, where, as
/// on chain, an attempt is also refused when the claimer's claim record
/// already exists: the airdrop after the run, the claim records created
/// (by their address seeds), and the claimers paid, in order.
pub open spec fn run_claims_with_records(
    airdrop: Airdrop,
    airdrop_key: Seq<u8>,
    records: Set<Seq<Seq<u8>>>,
    attempts: Seq<ClaimAttempt>,
) -> (Airdrop, Set<Seq<Seq<u8>>>, Seq<Seq<u8>>)
    decreases attempts.len(),
{
    if attempts.len() == 0 {
        (airdrop, records, Seq::empty())
    } else {
        let (a, recs, paid) = run_claims_with_records(airdrop, airdrop_key, records, attempts.drop_last());
        let (claimer, proof, now) = attempts.last();
        let record = claim_record_address_seeds(airdrop_key, claimer);
        if !recs.contains(record) && claim_refusal(a, claimer, proof, now) is None {
            (after_claim(a), recs.insert(record), paid.push(claimer))
        } else {
            (a, recs, paid)
        }
    }
}

/// Each claimer has a claim record of its own: the record's address seeds
/// determine the airdrop and the claimer, and they differ from the seeds of
/// every airdrop and every vault.
pub proof fn lemma_claim_record_per_claimer(
    airdrop_key: Seq<u8>,
    claimer: Seq<u8>,
    other_key: Seq<u8>,
    other_claimer: Seq<u8>,
    authority: Seq<u8>,
    mint: Seq<u8>,
)
    ensures
        claim_record_address_seeds(airdrop_key, claimer) == claim_record_address_seeds(
            other_key,
            other_claimer,
        ) ==> airdrop_key == other_key && claimer == other_claimer,
        claim_record_address_seeds(airdrop_key, claimer) != airdrop_address_seeds(authority, mint),
        claim_record_address_seeds(airdrop_key, claimer) != vault_address_seeds(other_key),
{
    if claim_record_address_seeds(airdrop_key, claimer) == claim_record_address_seeds(
        other_key,
        other_claimer,
    ) {
        assert(claim_record_address_seeds(airdrop_key, claimer)[1] == airdrop_key);
        assert(claim_record_address_seeds(other_key, other_claimer)[2] == other_claimer);
    }
    assert(claim_record_address_seeds(airdrop_key, claimer)[0][0] == 99u8);
    assert(airdrop_address_seeds(authority, mint)[0][0] == 97u8);
    assert(vault_address_seeds(other_key)[0][0] == 118u8);
}

/// No claimer is paid twice: starting from an airdrop with no claim records,
/// the claimers paid in any run of attempts are all different, a claimer has
/// a record exactly when it has been paid, and each payment is counted.
pub proof fn lemma_no_double_claim(
    airdrop: Airdrop,
    airdrop_key: Seq<u8>,
    attempts: Seq<ClaimAttempt>,
)
    ensures
        ({
            let (after, records, paid) = run_claims_with_records(
                airdrop,
                airdrop_key,
                Set::empty(),
                attempts,
            );
            &&& paid.no_duplicates()
            &&& forall|c: Seq<u8>| #[trigger] records.contains(claim_record_address_seeds(airdrop_key, c))
                <==> paid.contains(c)
            &&& forall|r: Seq<Seq<u8>>| #[trigger] records.contains(r) ==> exists|c: Seq<u8>|
                paid.contains(c) && r == claim_record_address_seeds(airdrop_key, c)
            &&& airdrop.total_claimed <= airdrop.max_claims ==> after.total_claimed
                == airdrop.total_claimed + paid.len()
        }),
    decreases attempts.len(),
{
    if attempts.len() > 0 {
        lemma_no_double_claim(airdrop, airdrop_key, attempts.drop_last());
        let (a, recs, paid) = run_claims_with_records(
            airdrop,
            airdrop_key,
            Set::empty(),
            attempts.drop_last(),
        );
        let (claimer, proof, now) = attempts.last();
        let record = claim_record_address_seeds(airdrop_key, claimer);
        if !recs.contains(record) && claim_refusal(a, claimer, proof, now) is None {
            let paid2 = paid.push(claimer);
            let recs2 = recs.insert(record);
            assert(!paid.contains(claimer));
            assert forall|i: int, j: int| 0 <= i < j < paid2.len() implies paid2[i] != paid2[j] by {
                if j == paid.len() {
                    assert(paid.contains(paid2[i]));
                }
            }
            assert forall|c: Seq<u8>| #[trigger] recs2.contains(claim_record_address_seeds(airdrop_key, c))
                <==> paid2.contains(c) by {
                if c == claimer {
                    assert(paid2[paid.len() as int] == c);
                } else {
                    lemma_claim_record_per_claimer(airdrop_key, c, airdrop_key, claimer, c, c);
                    if paid2.contains(c) {
                        let k = choose|k: int| 0 <= k < paid2.len() && paid2[k] == c;
                        assert(paid[k] == c);
                    }
                    if paid.contains(c) {
                        let k = choose|k: int| 0 <= k < paid.len() && paid[k] == c;
                        assert(paid2[k] == c);
                    }
                }
            }
            assert forall|r: Seq<Seq<u8>>| #[trigger] recs2.contains(r) implies exists|c: Seq<u8>|
                paid2.contains(c) && r == claim_record_address_seeds(airdrop_key, c) by {
                if r == record {
                    assert(paid2[paid.len() as int] == claimer);
                } else {
                    let c = choose|c: Seq<u8>| paid.contains(c) && r == claim_record_address_seeds(airdrop_key, c);
                    let k = choose|k: int| 0 <= k < paid.len() && paid[k] == c;
                    assert(paid2[k] == c);
                }
            }
        }
    }
}

/// What an instruction does to one airdrop's state: funding leaves it as it
/// is, a claim (paid to the claimer or into a vesting schedule) counts one
/// more claim when it is accepted and changes nothing when refused, and
/// closing clears `active`.
pub enum AirdropStep {
    Fund,
    Claim(ClaimAttempt),
    ClaimWithVesting(ClaimAttempt),
    Close,
}

/// The airdrop after one instruction.
pub open spec fn apply_step(airdrop: Airdrop, step: AirdropStep) -> Airdrop {
    match step {
        AirdropStep::Fund => airdrop,
        AirdropStep::Claim((claimer, proof, now)) | AirdropStep::ClaimWithVesting((claimer, proof, now)) => {
            if claim_refusal(airdrop, claimer, proof, now) is None {
                after_claim(airdrop)
            } else {
                airdrop
            }
        },
        AirdropStep::Close => after_close(airdrop),
    }
}

/// The airdrop after a run of instructions, in order.
pub open spec fn apply_steps(airdrop: Airdrop, steps: Seq<AirdropStep>) -> Airdrop
    decreases steps.len(),
{
    if steps.len() == 0 {
        airdrop
    } else {
        apply_step(apply_steps(airdrop, steps.drop_last()), steps.last())
    }
}

/// Once closed, an airdrop stays closed: after closing, whatever funding,
/// claims and closings follow, the airdrop is exactly as closing left it
/// (nothing reopens it, no claim is counted), and every later claim, paid
/// directly or into a vesting schedule, is refused as not active, whatever
/// the claimer, proof and time.
pub proof fn lemma_closed_airdrop_stays_closed(airdrop: Airdrop, steps: Seq<AirdropStep>)
    ensures
        apply_steps(after_close(airdrop), steps) == after_close(airdrop),
        forall|claimer: Seq<u8>, proof: Seq<[u8; 32]>, now: i64|
            #[trigger] claim_refusal(apply_steps(after_close(airdrop), steps), claimer, proof, now)
                == Some(AirdropError::NotActive),
    decreases steps.len(),
{
    if steps.len() > 0 {
        lemma_closed_airdrop_stays_closed(airdrop, steps.drop_last());
    }
}

/// A new airdrop holds exactly what it was created with: the authority,
/// mint, amount per claim, cap, root, window and bump as given, no claim
/// paid, and open.
pub proof fn lemma_new_airdrop_keeps_its_terms(
    authority: Pubkey,
    mint: Pubkey,
    amount_per_claim: u64,
    max_claims: u64,
    merkle_root: [u8; 32],
    claim_start: i64,
    claim_end: i64,
    bump: u8,
)
    ensures
        ({
            let a = new_airdrop(
                authority,
                mint,
                amount_per_claim,
                max_claims,
                merkle_root,
                claim_start,
                claim_end,
                bump,
            );
            &&& a.authority == authority
            &&& a.mint == mint
            &&& a.amount_per_claim == amount_per_claim
            &&& a.max_claims == max_claims
            &&& a.total_claimed == 0
            &&& a.merkle_root == merkle_root
            &&& a.active
            &&& a.bump == bump
            &&& a.claim_start == claim_start
            &&& a.claim_end == claim_end
        }),
{
}

/// Why a claim is refused, in terms of the airdrop's fields: a closed
/// airdrop refuses as not active; an open one refuses a claim made before
/// `claim_start` or after `claim_end` as outside the window; within the
/// window, one whose claims are all paid refuses as such; otherwise the claim
/// is refused exactly when following the whole proof from the digest of the
/// claimer's key does not reach the stored root.
pub proof fn lemma_claim_refusal_reasons(airdrop: Airdrop, claimer: Seq<u8>, proof: Seq<[u8; 32]>, now: i64)
    ensures
        !airdrop.active ==> claim_refusal(airdrop, claimer, proof, now) == Some(AirdropError::NotActive),
        airdrop.active && (now < airdrop.claim_start || now > airdrop.claim_end) ==> claim_refusal(
            airdrop,
            claimer,
            proof,
            now,
        ) == Some(AirdropError::OutsideClaimWindow),
        airdrop.active && airdrop.claim_start <= now <= airdrop.claim_end && airdrop.total_claimed
            >= airdrop.max_claims ==> claim_refusal(airdrop, claimer, proof, now) == Some(
            AirdropError::MaxClaimsReached,
        ),
        airdrop.active && airdrop.claim_start <= now <= airdrop.claim_end && airdrop.total_claimed
            < airdrop.max_claims ==> (claim_refusal(airdrop, claimer, proof, now) == if fold_proof(
            sha256_hashv(seq![claimer]),
            proof,
        ) == airdrop.merkle_root@ {
            None
        } else {
            Some(AirdropError::InvalidProof)
        }),
{
}

/// A paid claim moves exactly the airdrop's amount per claim out of the
/// vault, signed by the airdrop account, into the account it is paid to,
/// with the mint's decimals.
pub proof fn lemma_claim_payment_is_amount_per_claim(airdrop: Airdrop, to: TokenAccountRole, decimals: u8)
    ensures
        claim_payment(airdrop, to, decimals).amount == airdrop.amount_per_claim,
        claim_payment(airdrop, to, decimals).from == TokenAccountRole::Vault,
        claim_payment(airdrop, to, decimals).to == to,
        claim_payment(airdrop, to, decimals).signer == TransferSigner::AirdropAccount,
        claim_payment(airdrop, to, decimals).decimals == decimals,
{
}

/// Counting a claim adds one to the counter and changes nothing else.
pub proof fn lemma_after_claim_counts_one(airdrop: Airdrop)
    requires
        airdrop.total_claimed < u64::MAX,
    ensures
        after_claim(airdrop).total_claimed == airdrop.total_claimed + 1,
        after_claim(airdrop) == (Airdrop { total_claimed: after_claim(airdrop).total_claimed, ..airdrop }),
{
}

/// The airdrop account signs with the bytes of "airdrop", its authority, its
/// mint and its bump, in that order; vaults and claim records are addressed
/// by "vault" and "claim".
pub proof fn lemma_seed_bytes(airdrop: Airdrop, airdrop_key: Seq<u8>, claimer: Seq<u8>)
    ensures
        signer_seeds(airdrop) == seq![
            seq![97u8, 105u8, 114u8, 100u8, 114u8, 111u8, 112u8],
            airdrop.authority@,
            airdrop.mint@,
            seq![airdrop.bump],
        ],
        airdrop_address_seeds(airdrop.authority@, airdrop.mint@) == seq![
            seq![97u8, 105u8, 114u8, 100u8, 114u8, 111u8, 112u8],
            airdrop.authority@,
            airdrop.mint@,
        ],
        vault_address_seeds(airdrop_key) == seq![seq![118u8, 97u8, 117u8, 108u8, 116u8], airdrop_key],
        claim_record_address_seeds(airdrop_key, claimer) == seq![
            seq![99u8, 108u8, 97u8, 105u8, 109u8],
            airdrop_key,
            claimer,
        ],
{
}

} // verus!
