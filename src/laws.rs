//! Properties of the rotation protocol and of match settlement, proved over the models the
//! operations' contracts are stated in.

use vstd::prelude::*;

use crate::darkpool_core::{
    blinder_of, proof_gate, root_and_nullify, rotation, signed_rotation, verification_guard,
    wallet_leaf, Ledger, DEVNET_CHAIN_ID,
};
use crate::error::CoreError;
use crate::flows::{
    match_checks, match_settle_outcome, new_wallet_outcome, offline_fee_checks, offline_fee_outcome, redeem_fee_outcome,
    relayer_fee_outcome, update_wallet_outcome,
};
use crate::scalar::{scalar_of, Scalar};
use crate::statements::{
    MatchPayload, PublicSigningKey, ValidFeeRedemptionStatement, ValidMatchSettleStatement,
    ValidOfflineFeeSettlementStatement, ValidRelayerFeeSettlementStatement,
    ValidWalletCreateStatement, ValidWalletUpdateStatement,
};
use crate::transcript::{CallV, VkeyKind};

verus! {

/// Whether the next question of a transcript is answered `true`.
pub open spec fn next_answer_is(l: Ledger, a: bool) -> bool {
    l.tx.taken < l.tx.answers.len() && l.tx.answers[l.tx.taken as int] == a
}

/// Once a rotation citing nullifier `n` has succeeded, with verification on or off, every later
/// rotation citing `n`, signed or not, from any ledger that still holds the nullifiers spent
/// so far, fails; when its blinder is fresh and its root is accepted (or not asked about,
/// with verification off), it fails with `NullifierSpent`.
pub proof fn lemma_nullifier_single_use(
    l: Ledger,
    n: Scalar,
    root: Scalar,
    commitment: Scalar,
    shares: Seq<Scalar>,
    later: Ledger,
    root2: Scalar,
    commitment2: Scalar,
    shares2: Seq<Scalar>,
    signature2: Seq<u8>,
    pk2: PublicSigningKey,
)
    requires
        rotation(l, n, root, commitment, shares).1 is Ok,
        rotation(l, n, root, commitment, shares).0.nullifiers.subset_of(later.nullifiers),
        later.config == l.config,
    ensures
        rotation(later, n, root2, commitment2, shares2).1 is Err,
        signed_rotation(later, n, root2, commitment2, shares2, signature2, pk2).1 is Err,
        !later.blinders.contains(blinder_of(shares2)) && (!later.config.verification_enabled
            || next_answer_is(later, true)) ==> (
        rotation(later, n, root2, commitment2, shares2).1 == Err::<(), CoreError>(
            CoreError::NullifierSpent,
        ) && signed_rotation(later, n, root2, commitment2, shares2, signature2, pk2).1 == Err::<
            (),
            CoreError,
        >(CoreError::NullifierSpent)),
{
    assert(rotation(l, n, root, commitment, shares).0.nullifiers.contains(n));
    assert(later.nullifiers.contains(n));
}

/// Spent nullifiers stay spent: no rotation, signed or not, takes one out of the registry.
pub proof fn lemma_rotations_keep_nullifiers(
    l: Ledger,
    n: Scalar,
    root: Scalar,
    commitment: Scalar,
    shares: Seq<Scalar>,
    signature: Seq<u8>,
    pk: PublicSigningKey,
)
    ensures
        l.nullifiers.subset_of(root_and_nullify(l, n, root).0.nullifiers),
        l.nullifiers.subset_of(rotation(l, n, root, commitment, shares).0.nullifiers),
        l.nullifiers.subset_of(
            signed_rotation(l, n, root, commitment, shares, signature, pk).0.nullifiers,
        ),
{
}

proof fn lemma_update_wallet_keeps_nullifiers(
    l: Ledger,
    proof: Seq<u8>,
    s: ValidWalletUpdateStatement,
    signature: Seq<u8>,
    aux: Seq<u8>,
)
    ensures
        l.nullifiers.subset_of(update_wallet_outcome(l, proof, s, signature, aux).0.nullifiers),
{
    let (l1, _) = proof_gate(l, VkeyKind::WalletUpdate, proof, s.words());
    lemma_rotations_keep_nullifiers(
        l1,
        s.old_shares_nullifier,
        s.merkle_root,
        s.new_private_shares_commitment,
        s.new_public_shares@,
        signature,
        s.old_pk_root,
    );
}

proof fn lemma_match_settle_keeps_nullifiers(
    l: Ledger,
    p0: MatchPayload,
    p1: MatchPayload,
    s: ValidMatchSettleStatement,
    proofs: Seq<u8>,
    linking_proofs: Seq<u8>,
)
    ensures
        l.nullifiers.subset_of(match_settle_outcome(l, p0, p1, s, proofs, linking_proofs).0.nullifiers),
{
    let (l1, _) = if l.config.verification_enabled {
        match_checks(l, p0, p1, s, proofs, linking_proofs)
    } else {
        (l, verification_guard(l.config))
    };
    let r0 = p0.valid_reblind_statement;
    let r1s = p1.valid_reblind_statement;
    lemma_rotations_keep_nullifiers(
        l1,
        r0.original_shares_nullifier,
        r0.merkle_root,
        r0.reblinded_private_shares_commitment,
        s.party0_modified_shares@,
        Seq::empty(),
        arbitrary(),
    );
    let (l2, _) = rotation(
        l1,
        r0.original_shares_nullifier,
        r0.merkle_root,
        r0.reblinded_private_shares_commitment,
        s.party0_modified_shares@,
    );
    lemma_rotations_keep_nullifiers(
        l2,
        r1s.original_shares_nullifier,
        r1s.merkle_root,
        r1s.reblinded_private_shares_commitment,
        s.party1_modified_shares@,
        Seq::empty(),
        arbitrary(),
    );
}

proof fn lemma_relayer_fee_keeps_nullifiers(
    l: Ledger,
    proof: Seq<u8>,
    s: ValidRelayerFeeSettlementStatement,
    signature: Seq<u8>,
)
    ensures
        l.nullifiers.subset_of(relayer_fee_outcome(l, proof, s, signature).0.nullifiers),
{
    let (l1, _) = proof_gate(l, VkeyKind::RelayerFeeSettlement, proof, s.words());
    lemma_rotations_keep_nullifiers(
        l1,
        s.sender_nullifier,
        s.sender_root,
        s.sender_wallet_commitment,
        s.sender_updated_public_shares@,
        signature,
        s.recipient_pk_root,
    );
    let (l2, _) = rotation(
        l1,
        s.sender_nullifier,
        s.sender_root,
        s.sender_wallet_commitment,
        s.sender_updated_public_shares@,
    );
    lemma_rotations_keep_nullifiers(
        l2,
        s.recipient_nullifier,
        s.recipient_root,
        s.recipient_wallet_commitment,
        s.recipient_updated_public_shares@,
        signature,
        s.recipient_pk_root,
    );
}

proof fn lemma_offline_fee_keeps_nullifiers(
    l: Ledger,
    proof: Seq<u8>,
    s: ValidOfflineFeeSettlementStatement,
)
    ensures
        l.nullifiers.subset_of(offline_fee_outcome(l, proof, s).0.nullifiers),
{
    let (l1, _) = if l.config.verification_enabled {
        offline_fee_checks(l, proof, s)
    } else {
        (l, verification_guard(l.config))
    };
    lemma_rotations_keep_nullifiers(
        l1,
        s.nullifier,
        s.merkle_root,
        s.updated_wallet_commitment,
        s.updated_wallet_public_shares@,
        Seq::empty(),
        arbitrary(),
    );
}

proof fn lemma_redeem_fee_keeps_nullifiers(
    l: Ledger,
    proof: Seq<u8>,
    s: ValidFeeRedemptionStatement,
    signature: Seq<u8>,
)
    ensures
        l.nullifiers.subset_of(redeem_fee_outcome(l, proof, s, signature).0.nullifiers),
{
    let (l1, _) = proof_gate(l, VkeyKind::FeeRedemption, proof, s.words());
    lemma_rotations_keep_nullifiers(
        l1,
        s.nullifier,
        s.wallet_root,
        s.new_wallet_commitment,
        s.new_wallet_public_shares@,
        signature,
        s.old_pk_root,
    );
    let (l2, _) = signed_rotation(
        l1,
        s.nullifier,
        s.wallet_root,
        s.new_wallet_commitment,
        s.new_wallet_public_shares@,
        signature,
        s.old_pk_root,
    );
    lemma_rotations_keep_nullifiers(
        l2,
        s.note_nullifier,
        s.note_root,
        s.new_wallet_commitment,
        s.new_wallet_public_shares@,
        signature,
        s.old_pk_root,
    );
}

/// Spent nullifiers stay spent: no flow, failed or not, takes one out of the registry, so a
/// ledger reached later still holds every nullifier spent before.
pub proof fn lemma_flows_keep_nullifiers(
    l: Ledger,
    proof: Seq<u8>,
    signature: Seq<u8>,
    aux: Seq<u8>,
    create: ValidWalletCreateStatement,
    update: ValidWalletUpdateStatement,
    p0: MatchPayload,
    p1: MatchPayload,
    settle: ValidMatchSettleStatement,
    relayer: ValidRelayerFeeSettlementStatement,
    offline: ValidOfflineFeeSettlementStatement,
    redemption: ValidFeeRedemptionStatement,
)
    ensures
        l.nullifiers.subset_of(new_wallet_outcome(l, proof, create).0.nullifiers),
        l.nullifiers.subset_of(update_wallet_outcome(l, proof, update, signature, aux).0.nullifiers),
        l.nullifiers.subset_of(match_settle_outcome(l, p0, p1, settle, proof, aux).0.nullifiers),
        l.nullifiers.subset_of(relayer_fee_outcome(l, proof, relayer, signature).0.nullifiers),
        l.nullifiers.subset_of(offline_fee_outcome(l, proof, offline).0.nullifiers),
        l.nullifiers.subset_of(redeem_fee_outcome(l, proof, redemption, signature).0.nullifiers),
{
    lemma_update_wallet_keeps_nullifiers(l, proof, update, signature, aux);
    lemma_match_settle_keeps_nullifiers(l, p0, p1, settle, proof, aux);
    lemma_relayer_fee_keeps_nullifiers(l, proof, relayer, signature);
    lemma_offline_fee_keeps_nullifiers(l, proof, offline);
    lemma_redeem_fee_keeps_nullifiers(l, proof, redemption, signature);
}

/// A successful rotation or wallet creation marks the blinder of its new shares used, and
/// finds it unused before; once a blinder is marked, every rotation whose new shares end in
/// it fails with `BlinderReused` and changes nothing, whatever the other checks would say,
/// and every wallet creation whose shares end in it fails.
pub proof fn lemma_blinder_single_use(
    l: Ledger,
    n: Scalar,
    root: Scalar,
    commitment: Scalar,
    shares: Seq<Scalar>,
    signature: Seq<u8>,
    pk: PublicSigningKey,
    proof: Seq<u8>,
    create: ValidWalletCreateStatement,
)
    ensures
        new_wallet_outcome(l, proof, create).1 is Ok ==> !l.blinders.contains(
            blinder_of(create.public_wallet_shares@),
        ) && new_wallet_outcome(l, proof, create).0.blinders.contains(
            blinder_of(create.public_wallet_shares@),
        ),
        l.blinders.contains(blinder_of(create.public_wallet_shares@)) ==> new_wallet_outcome(
            l,
            proof,
            create,
        ).1 is Err,
        rotation(l, n, root, commitment, shares).1 is Ok ==> !l.blinders.contains(
            blinder_of(shares),
        ),
        rotation(l, n, root, commitment, shares).1 is Ok ==> rotation(
            l,
            n,
            root,
            commitment,
            shares,
        ).0.blinders.contains(blinder_of(shares)),
        l.blinders.contains(blinder_of(shares)) ==> rotation(l, n, root, commitment, shares) == (
        l,
        Err::<(), CoreError>(CoreError::BlinderReused),
        ),
        l.blinders.contains(blinder_of(shares)) ==> signed_rotation(
            l,
            n,
            root,
            commitment,
            shares,
            signature,
            pk,
        ) == (l, Err::<(), CoreError>(CoreError::BlinderReused)),
{
}

/// With verification on, a rotation with a fresh blinder whose cited root the history
/// refuses fails with `StaleRoot`. With verification off, a rotation with a fresh blinder
/// fails with `VerificationDisabled` off the development network, and on it, with an unspent
/// nullifier, succeeds without asking anything: the one request it issues is the new leaf.
pub proof fn lemma_root_gating(
    l: Ledger,
    n: Scalar,
    root: Scalar,
    commitment: Scalar,
    shares: Seq<Scalar>,
)
    requires
        !l.blinders.contains(blinder_of(shares)),
    ensures
        l.config.verification_enabled && next_answer_is(l, false) ==> rotation(
            l,
            n,
            root,
            commitment,
            shares,
        ).1 == Err::<(), CoreError>(CoreError::StaleRoot),
        !l.config.verification_enabled && l.config.chain_id != DEVNET_CHAIN_ID ==> rotation(
            l,
            n,
            root,
            commitment,
            shares,
        ).1 == Err::<(), CoreError>(CoreError::VerificationDisabled),
        !l.config.verification_enabled && l.config.chain_id == DEVNET_CHAIN_ID
            && !l.nullifiers.contains(n) ==> ({
            let (l1, r1) = rotation(l, n, root, commitment, shares);
            &&& r1 is Ok
            &&& l1.tx.taken == l.tx.taken
            &&& l1.tx.calls == l.tx.calls.push(
                CallV::InsertShares { shares: wallet_leaf(commitment, shares) },
            )
        }),
{
}

/// With verification on, a match whose statement fee is not the stored protocol fee fails,
/// and leaves the ledger and the transcript as they were: no proof is sent to the verifier.
/// When both share lists are non-empty and the parties' settlement indices agree with the
/// statement, the failure is `InvalidProtocolFee`.
pub proof fn lemma_fee_consistency(
    l: Ledger,
    p0: MatchPayload,
    p1: MatchPayload,
    s: ValidMatchSettleStatement,
    proofs: Seq<u8>,
    linking_proofs: Seq<u8>,
)
    requires
        l.config.verification_enabled,
        scalar_of(l.config.protocol_fee) != Some(s.protocol_fee),
    ensures
        match_settle_outcome(l, p0, p1, s, proofs, linking_proofs).0 == l,
        match_settle_outcome(l, p0, p1, s, proofs, linking_proofs).1 is Err,
        s.party0_modified_shares@.len() > 0 && s.party1_modified_shares@.len() > 0
            && p0.valid_commitments_statement.indices == s.party0_indices
            && p1.valid_commitments_statement.indices == s.party1_indices
            && scalar_of(l.config.protocol_fee) is Some ==> match_settle_outcome(
            l,
            p0,
            p1,
            s,
            proofs,
            linking_proofs,
        ).1 == Err::<(), CoreError>(CoreError::InvalidProtocolFee),
{
}

/// With verification on, a match in which either party's settlement indices differ from
/// those the statement records for it fails and leaves the ledger and the transcript as they
/// were, whatever the verifier would answer and whatever the stored fee: no request reaches
/// the verifier or the tree. With both share lists non-empty the failure is
/// `InvalidOrderSettlementIndices`.
pub proof fn lemma_index_consistency(
    l: Ledger,
    p0: MatchPayload,
    p1: MatchPayload,
    s: ValidMatchSettleStatement,
    proofs: Seq<u8>,
    linking_proofs: Seq<u8>,
)
    requires
        l.config.verification_enabled,
        p0.valid_commitments_statement.indices != s.party0_indices
            || p1.valid_commitments_statement.indices != s.party1_indices,
    ensures
        match_settle_outcome(l, p0, p1, s, proofs, linking_proofs).0 == l,
        match_settle_outcome(l, p0, p1, s, proofs, linking_proofs).1 is Err,
        s.party0_modified_shares@.len() > 0 && s.party1_modified_shares@.len() > 0
            ==> match_settle_outcome(l, p0, p1, s, proofs, linking_proofs).1 == Err::<
            (),
            CoreError,
        >(CoreError::InvalidOrderSettlementIndices),
{
}

} // verus!
