//! The settlement flows: each checks its statement, gates on a proof and drives one or two
//! rotations, with their side effects.

use vstd::prelude::*;

use crate::darkpool_core::{
    answered, blinder_mark, blinder_of, get_public_blinder_from_shares, ledger, proof_gate, proof_query, protocol_key_of, root_and_nullify,
    rotation, settled, signed_rotation, verification_guard, wallet_leaf, with_tx,
    DarkpoolCoreContract, Ledger, Step,
};
use crate::encoding::{postcard_serialize, encoded};
use crate::error::CoreError;
use crate::registry::ScalarSet;
use crate::scalar::{scalar_of, scalar_to_u256, u256_to_scalar, Scalar};
use crate::statements::{
    ExternalTransfer, MatchPayload, PublicSigningKey, ValidCommitmentsStatement,
    ValidFeeRedemptionStatement, ValidMatchSettleStatement, ValidOfflineFeeSettlementStatement,
    ValidReblindStatement, ValidRelayerFeeSettlementStatement, ValidWalletCreateStatement,
    ValidWalletUpdateStatement,
};
use crate::transcript::{asked, emitted, issued, Call, CallV, Event, Session, TranscriptV, VkeyKind};

verus! {

/// Creating a wallet: the proof gate, the mark of its public blinder, then the new leaf and
/// its announcement.
pub open spec fn new_wallet_outcome(l: Ledger, proof: Seq<u8>, s: ValidWalletCreateStatement) -> Step {
    if s.public_wallet_shares@.len() == 0 {
        (l, Err(CoreError::MalformedStatement))
    } else {
        let (l1, r1) = proof_gate(l, VkeyKind::WalletCreate, proof, s.words());
        if r1 is Err {
            (l1, r1)
        } else {
            let (l2, r2) = blinder_mark(l1, blinder_of(s.public_wallet_shares@));
            if r2 is Err {
                (l2, r2)
            } else {
                let leaf = wallet_leaf(s.private_shares_commitment, s.public_wallet_shares@);
                let t = issued(l2.tx, CallV::InsertShares { shares: leaf });
                let blinder = blinder_of(s.public_wallet_shares@).word();
                (
                    with_tx(l2, emitted(t, Event::WalletUpdated { wallet_blinder_share: blinder })),
                    Ok(()),
                )
            }
        }
    }
}

/// Handing a transfer to the transfer executor, with the key and the transfer encoded.
pub open spec fn transfer_dispatch(
    l: Ledger,
    pk: PublicSigningKey,
    t: ExternalTransfer,
    aux: Seq<u8>,
) -> Step {
    (
        with_tx(
            l,
            issued(
                l.tx,
                CallV::ExecuteTransfer {
                    pk_root: encoded(pk.words()),
                    transfer: encoded(t.words()),
                    aux_data: aux,
                },
            ),
        ),
        Ok(()),
    )
}

/// The steps of a wallet update before a failure is settled.
pub open spec fn update_wallet_steps(
    l: Ledger,
    proof: Seq<u8>,
    s: ValidWalletUpdateStatement,
    signature: Seq<u8>,
    aux: Seq<u8>,
) -> Step {
    let (l1, r1) = proof_gate(l, VkeyKind::WalletUpdate, proof, s.words());
    if r1 is Err {
        (l1, r1)
    } else {
        let (l2, r2) = signed_rotation(
            l1,
            s.old_shares_nullifier,
            s.merkle_root,
            s.new_private_shares_commitment,
            s.new_public_shares@,
            signature,
            s.old_pk_root,
        );
        if r2 is Err {
            (l2, r2)
        } else {
            match s.external_transfer {
                None => (l2, Ok(())),
                Some(t) => transfer_dispatch(l2, s.old_pk_root, t, aux),
            }
        }
    }
}

/// Updating a wallet: the proof gate, a signed rotation, then the transfer if there is one.
pub open spec fn update_wallet_outcome(
    l: Ledger,
    proof: Seq<u8>,
    s: ValidWalletUpdateStatement,
    signature: Seq<u8>,
    aux: Seq<u8>,
) -> Step {
    if s.new_public_shares@.len() == 0 {
        (l, Err(CoreError::MalformedStatement))
    } else {
        settled(l, update_wallet_steps(l, proof, s, signature, aux))
    }
}

/// The public inputs of a match: the encodings of both commitments statements, both reblind
/// statements and the settlement statement, in that order.
pub open spec fn match_public_inputs(
    p0: MatchPayload,
    p1: MatchPayload,
    s: ValidMatchSettleStatement,
) -> Seq<u8> {
    encoded(p0.valid_commitments_statement.words()) + encoded(
        p1.valid_commitments_statement.words(),
    ) + encoded(p0.valid_reblind_statement.words()) + encoded(p1.valid_reblind_statement.words())
        + encoded(s.words())
}

/// Asking the verifier about all the proofs of a match in one batch.
pub open spec fn match_proof_query(
    l: Ledger,
    p0: MatchPayload,
    p1: MatchPayload,
    s: ValidMatchSettleStatement,
    proofs: Seq<u8>,
    linking_proofs: Seq<u8>,
) -> Step {
    let (t, a) = asked(
        l.tx,
        CallV::VerifyMatch {
            proofs,
            public_inputs: match_public_inputs(p0, p1, s),
            linking_proofs,
        },
    );
    (with_tx(l, t), answered(a, CoreError::InvalidProof))
}

/// The checks of a match with verification on: the settlement indices of both parties, then
/// the protocol fee, then the proofs.
pub open spec fn match_checks(
    l: Ledger,
    p0: MatchPayload,
    p1: MatchPayload,
    s: ValidMatchSettleStatement,
    proofs: Seq<u8>,
    linking_proofs: Seq<u8>,
) -> Step {
    if p0.valid_commitments_statement.indices != s.party0_indices
        || p1.valid_commitments_statement.indices != s.party1_indices {
        (l, Err(CoreError::InvalidOrderSettlementIndices))
    } else {
        match scalar_of(l.config.protocol_fee) {
            None => (l, Err(CoreError::ScalarConversionFailed)),
            Some(fee) => if s.protocol_fee != fee {
                (l, Err(CoreError::InvalidProtocolFee))
            } else {
                match_proof_query(l, p0, p1, s, proofs, linking_proofs)
            },
        }
    }
}

/// The steps of a match settlement before a failure is settled.
pub open spec fn match_settle_steps(
    l: Ledger,
    p0: MatchPayload,
    p1: MatchPayload,
    s: ValidMatchSettleStatement,
    proofs: Seq<u8>,
    linking_proofs: Seq<u8>,
) -> Step {
    let (l1, r1) = if l.config.verification_enabled {
        match_checks(l, p0, p1, s, proofs, linking_proofs)
    } else {
        (l, verification_guard(l.config))
    };
    if r1 is Err {
        (l1, r1)
    } else {
        let (l2, r2) = rotation(
            l1,
            p0.valid_reblind_statement.original_shares_nullifier,
            p0.valid_reblind_statement.merkle_root,
            p0.valid_reblind_statement.reblinded_private_shares_commitment,
            s.party0_modified_shares@,
        );
        if r2 is Err {
            (l2, r2)
        } else {
            rotation(
                l2,
                p1.valid_reblind_statement.original_shares_nullifier,
                p1.valid_reblind_statement.merkle_root,
                p1.valid_reblind_statement.reblinded_private_shares_commitment,
                s.party1_modified_shares@,
            )
        }
    }
}

/// Settling a match: the checks, then one unsigned rotation per party.
pub open spec fn match_settle_outcome(
    l: Ledger,
    p0: MatchPayload,
    p1: MatchPayload,
    s: ValidMatchSettleStatement,
    proofs: Seq<u8>,
    linking_proofs: Seq<u8>,
) -> Step {
    if s.party0_modified_shares@.len() == 0 || s.party1_modified_shares@.len() == 0 {
        (l, Err(CoreError::MalformedStatement))
    } else {
        settled(l, match_settle_steps(l, p0, p1, s, proofs, linking_proofs))
    }
}

/// The steps of a relayer fee settlement before a failure is settled.
pub open spec fn relayer_fee_steps(
    l: Ledger,
    proof: Seq<u8>,
    s: ValidRelayerFeeSettlementStatement,
    signature: Seq<u8>,
) -> Step {
    let (l1, r1) = proof_gate(l, VkeyKind::RelayerFeeSettlement, proof, s.words());
    if r1 is Err {
        (l1, r1)
    } else {
        let (l2, r2) = rotation(
            l1,
            s.sender_nullifier,
            s.sender_root,
            s.sender_wallet_commitment,
            s.sender_updated_public_shares@,
        );
        if r2 is Err {
            (l2, r2)
        } else {
            signed_rotation(
                l2,
                s.recipient_nullifier,
                s.recipient_root,
                s.recipient_wallet_commitment,
                s.recipient_updated_public_shares@,
                signature,
                s.recipient_pk_root,
            )
        }
    }
}

/// Settling a relayer's fee: the proof gate, an unsigned rotation of the sender and a signed
/// rotation of the relayer's wallet.
pub open spec fn relayer_fee_outcome(
    l: Ledger,
    proof: Seq<u8>,
    s: ValidRelayerFeeSettlementStatement,
    signature: Seq<u8>,
) -> Step {
    if s.sender_updated_public_shares@.len() == 0 || s.recipient_updated_public_shares@.len() == 0 {
        (l, Err(CoreError::MalformedStatement))
    } else {
        settled(l, relayer_fee_steps(l, proof, s, signature))
    }
}

/// The checks of an offline fee settlement with verification on: the protocol key, then
/// the proof.
pub open spec fn offline_fee_checks(
    l: Ledger,
    proof: Seq<u8>,
    s: ValidOfflineFeeSettlementStatement,
) -> Step {
    match protocol_key_of(l.config) {
        Err(e) => (l, Err(e)),
        Ok(key) => if s.protocol_key != key {
            (l, Err(CoreError::InvalidProtocolPubkey))
        } else {
            proof_query(l, VkeyKind::OfflineFeeSettlement, proof, s.words())
        },
    }
}

/// The transcript after a note leaf is appended and announced.
pub open spec fn note_posted(t: TranscriptV, note: Scalar) -> TranscriptV {
    emitted(
        issued(t, CallV::InsertNote { note: note.word() }),
        Event::NotePosted { note_commitment: note.word() },
    )
}

/// The steps of an offline fee settlement before a failure is settled.
pub open spec fn offline_fee_steps(
    l: Ledger,
    proof: Seq<u8>,
    s: ValidOfflineFeeSettlementStatement,
) -> Step {
    let (l1, r1) = if l.config.verification_enabled {
        offline_fee_checks(l, proof, s)
    } else {
        (l, verification_guard(l.config))
    };
    if r1 is Err {
        (l1, r1)
    } else {
        let (l2, r2) = rotation(
            l1,
            s.nullifier,
            s.merkle_root,
            s.updated_wallet_commitment,
            s.updated_wallet_public_shares@,
        );
        if r2 is Err {
            (l2, r2)
        } else {
            (with_tx(l2, note_posted(l2.tx, s.note_commitment)), Ok(()))
        }
    }
}

/// Settling a fee into a note: the checks, an unsigned rotation, then the note.
pub open spec fn offline_fee_outcome(
    l: Ledger,
    proof: Seq<u8>,
    s: ValidOfflineFeeSettlementStatement,
) -> Step {
    if s.updated_wallet_public_shares@.len() == 0 {
        (l, Err(CoreError::MalformedStatement))
    } else {
        settled(l, offline_fee_steps(l, proof, s))
    }
}

/// The steps of a fee redemption before a failure is settled.
pub open spec fn redeem_fee_steps(
    l: Ledger,
    proof: Seq<u8>,
    s: ValidFeeRedemptionStatement,
    signature: Seq<u8>,
) -> Step {
    let (l1, r1) = proof_gate(l, VkeyKind::FeeRedemption, proof, s.words());
    if r1 is Err {
        (l1, r1)
    } else {
        let (l2, r2) = signed_rotation(
            l1,
            s.nullifier,
            s.wallet_root,
            s.new_wallet_commitment,
            s.new_wallet_public_shares@,
            signature,
            s.old_pk_root,
        );
        if r2 is Err {
            (l2, r2)
        } else {
            root_and_nullify(l2, s.note_nullifier, s.note_root)
        }
    }
}

/// Redeeming a fee note: the proof gate, a signed rotation of the wallet, then the note's
/// root check and nullifier spend.
pub open spec fn redeem_fee_outcome(
    l: Ledger,
    proof: Seq<u8>,
    s: ValidFeeRedemptionStatement,
    signature: Seq<u8>,
) -> Step {
    if s.new_wallet_public_shares@.len() == 0 {
        (l, Err(CoreError::MalformedStatement))
    } else {
        settled(l, redeem_fee_steps(l, proof, s, signature))
    }
}

/// Serializes the public inputs of a match: both commitments statements, both reblind
/// statements and the settlement statement, in that order.
pub fn serialize_match_statements_for_verification(
    valid_commitments_0: &ValidCommitmentsStatement,
    valid_commitments_1: &ValidCommitmentsStatement,
    valid_reblind_0: &ValidReblindStatement,
    valid_reblind_1: &ValidReblindStatement,
    valid_match_settle: &ValidMatchSettleStatement,
) -> (r: Result<Vec<u8>, CoreError>)
    ensures
        ({
            let p0 = MatchPayload {
                valid_commitments_statement: *valid_commitments_0,
                valid_reblind_statement: *valid_reblind_0,
            };
            let p1 = MatchPayload {
                valid_commitments_statement: *valid_commitments_1,
                valid_reblind_statement: *valid_reblind_1,
            };
            r is Ok && r->Ok_0@ == match_public_inputs(p0, p1, *valid_match_settle)
        }),
{
    let mut a = postcard_serialize(&valid_commitments_0.public_inputs())?;
    let mut b = postcard_serialize(&valid_commitments_1.public_inputs())?;
    let mut c = postcard_serialize(&valid_reblind_0.public_inputs())?;
    let mut d = postcard_serialize(&valid_reblind_1.public_inputs())?;
    let mut e = postcard_serialize(&valid_match_settle.public_inputs())?;
    a.append(&mut b);
    a.append(&mut c);
    a.append(&mut d);
    a.append(&mut e);
    Ok(a)
}

impl DarkpoolCoreContract {
    /// Puts the saved nullifier registry back when `r` is a failure.
    fn restore_nullifiers_on_error(&mut self, saved: ScalarSet, r: &Result<(), CoreError>)
        ensures
            final(self).config == old(self).config,
            final(self).public_blinder_set@ == old(self).public_blinder_set@,
            final(self).nullifier_set@ == (if r is Ok {
                old(self).nullifier_set@
            } else {
                saved@
            }),
    {
        if r.is_err() {
            self.nullifier_set = saved;
        }
    }

    /// Adds a new wallet to the commitment tree, marking its public blinder used.
    pub fn new_wallet(
        &mut self,
        tx: &mut Session,
        proof: Vec<u8>,
        valid_wallet_create_statement: &ValidWalletCreateStatement,
    ) -> (r: Result<(), CoreError>)
        ensures
            (ledger(*final(self), *final(tx)), r) == new_wallet_outcome(
                ledger(*old(self), *old(tx)),
                proof@,
                *valid_wallet_create_statement,
            ),
    {
        let statement = valid_wallet_create_statement;
        if statement.public_wallet_shares.len() == 0 {
            return Err(CoreError::MalformedStatement);
        }
        let gate = self.gate_on_proof(
            tx,
            VkeyKind::WalletCreate,
            proof,
            &statement.public_inputs(),
        );
        if gate.is_err() {
            return gate;
        }
        let public_blinder = get_public_blinder_from_shares(&statement.public_wallet_shares);
        let marked = self.mark_public_blinder_used(tx, public_blinder);
        if marked.is_err() {
            return marked;
        }
        DarkpoolCoreContract::insert_wallet_commitment_to_merkle_tree(
            tx,
            statement.private_shares_commitment,
            &statement.public_wallet_shares,
        );
        DarkpoolCoreContract::log_wallet_update(tx, &statement.public_wallet_shares);
        Ok(())
    }

    /// The steps of a wallet update, before a failure is settled.
    fn update_wallet_run(
        &mut self,
        tx: &mut Session,
        proof: Vec<u8>,
        statement: &ValidWalletUpdateStatement,
        wallet_commitment_signature: Vec<u8>,
        transfer_aux_data: Vec<u8>,
    ) -> (r: Result<(), CoreError>)
        requires
            statement.new_public_shares@.len() > 0,
        ensures
            (ledger(*final(self), *final(tx)), r) == update_wallet_steps(
                ledger(*old(self), *old(tx)),
                proof@,
                *statement,
                wallet_commitment_signature@,
                transfer_aux_data@,
            ),
    {
        let gate = self.gate_on_proof(tx, VkeyKind::WalletUpdate, proof, &statement.public_inputs());
        if gate.is_err() {
            return gate;
        }
        let rotated = self.rotate_wallet_with_signature(
            tx,
            statement.old_shares_nullifier,
            statement.merkle_root,
            statement.new_private_shares_commitment,
            &statement.new_public_shares,
            wallet_commitment_signature,
            &statement.old_pk_root,
        );
        if rotated.is_err() {
            return rotated;
        }
        match &statement.external_transfer {
            Some(transfer) => self.execute_external_transfer(
                tx,
                &statement.old_pk_root,
                transfer,
                transfer_aux_data,
            ),
            None => Ok(()),
        }
    }

    /// Updates a wallet in the commitment tree, executing its transfer if it carries one.
    pub fn update_wallet(
        &mut self,
        tx: &mut Session,
        proof: Vec<u8>,
        valid_wallet_update_statement: &ValidWalletUpdateStatement,
        wallet_commitment_signature: Vec<u8>,
        transfer_aux_data: Vec<u8>,
    ) -> (r: Result<(), CoreError>)
        ensures
            (ledger(*final(self), *final(tx)), r) == update_wallet_outcome(
                ledger(*old(self), *old(tx)),
                proof@,
                *valid_wallet_update_statement,
                wallet_commitment_signature@,
                transfer_aux_data@,
            ),
    {
        if valid_wallet_update_statement.new_public_shares.len() == 0 {
            return Err(CoreError::MalformedStatement);
        }
        let saved = self.nullifier_set.duplicate();
        let r = self.update_wallet_run(
            tx,
            proof,
            valid_wallet_update_statement,
            wallet_commitment_signature,
            transfer_aux_data,
        );
        self.restore_nullifiers_on_error(saved, &r);
        r
    }

    /// The steps of a match settlement, before a failure is settled.
    fn process_match_settle_run(
        &mut self,
        tx: &mut Session,
        party_0_match_payload: &MatchPayload,
        party_1_match_payload: &MatchPayload,
        statement: &ValidMatchSettleStatement,
        match_proofs: Vec<u8>,
        match_linking_proofs: Vec<u8>,
    ) -> (r: Result<(), CoreError>)
        requires
            statement.party0_modified_shares@.len() > 0,
            statement.party1_modified_shares@.len() > 0,
        ensures
            (ledger(*final(self), *final(tx)), r) == match_settle_steps(
                ledger(*old(self), *old(tx)),
                *party_0_match_payload,
                *party_1_match_payload,
                *statement,
                match_proofs@,
                match_linking_proofs@,
            ),
    {
        if self.config.verification_enabled {
            let party0_same_indices = party_0_match_payload.valid_commitments_statement.indices
                == statement.party0_indices;
            let party1_same_indices = party_1_match_payload.valid_commitments_statement.indices
                == statement.party1_indices;
            if !(party0_same_indices && party1_same_indices) {
                return Err(CoreError::InvalidOrderSettlementIndices);
            }
            // The stored fee is already the fixed-point number the statement carries.
            let protocol_fee = match u256_to_scalar(self.config.protocol_fee) {
                Ok(fee) => fee,
                Err(e) => {
                    return Err(e);
                },
            };
            if statement.protocol_fee != protocol_fee {
                return Err(CoreError::InvalidProtocolFee);
            }
            let verified = self.batch_verify_process_match_settle(
                tx,
                party_0_match_payload,
                party_1_match_payload,
                statement,
                match_proofs,
                match_linking_proofs,
            );
            if verified.is_err() {
                return verified;
            }
        } else {
            let guard = self.check_verification_disabled_allowed();
            if guard.is_err() {
                return guard;
            }
        }
        let rotated = self.rotate_wallet(
            tx,
            party_0_match_payload.valid_reblind_statement.original_shares_nullifier,
            party_0_match_payload.valid_reblind_statement.merkle_root,
            party_0_match_payload.valid_reblind_statement.reblinded_private_shares_commitment,
            &statement.party0_modified_shares,
        );
        if rotated.is_err() {
            return rotated;
        }
        self.rotate_wallet(
            tx,
            party_1_match_payload.valid_reblind_statement.original_shares_nullifier,
            party_1_match_payload.valid_reblind_statement.merkle_root,
            party_1_match_payload.valid_reblind_statement.reblinded_private_shares_commitment,
            &statement.party1_modified_shares,
        )
    }

    /// Settles a match between two parties, committing both parties' updated wallets.
    pub fn process_match_settle(
        &mut self,
        tx: &mut Session,
        party_0_match_payload: &MatchPayload,
        party_1_match_payload: &MatchPayload,
        valid_match_settle_statement: &ValidMatchSettleStatement,
        match_proofs: Vec<u8>,
        match_linking_proofs: Vec<u8>,
    ) -> (r: Result<(), CoreError>)
        ensures
            (ledger(*final(self), *final(tx)), r) == match_settle_outcome(
                ledger(*old(self), *old(tx)),
                *party_0_match_payload,
                *party_1_match_payload,
                *valid_match_settle_statement,
                match_proofs@,
                match_linking_proofs@,
            ),
    {
        if valid_match_settle_statement.party0_modified_shares.len() == 0
            || valid_match_settle_statement.party1_modified_shares.len() == 0 {
            return Err(CoreError::MalformedStatement);
        }
        let saved = self.nullifier_set.duplicate();
        let r = self.process_match_settle_run(
            tx,
            party_0_match_payload,
            party_1_match_payload,
            valid_match_settle_statement,
            match_proofs,
            match_linking_proofs,
        );
        self.restore_nullifiers_on_error(saved, &r);
        r
    }

    /// The steps of a relayer fee settlement, before a failure is settled.
    fn settle_online_relayer_fee_run(
        &mut self,
        tx: &mut Session,
        proof: Vec<u8>,
        statement: &ValidRelayerFeeSettlementStatement,
        relayer_wallet_commitment_signature: Vec<u8>,
    ) -> (r: Result<(), CoreError>)
        requires
            statement.sender_updated_public_shares@.len() > 0,
            statement.recipient_updated_public_shares@.len() > 0,
        ensures
            (ledger(*final(self), *final(tx)), r) == relayer_fee_steps(
                ledger(*old(self), *old(tx)),
                proof@,
                *statement,
                relayer_wallet_commitment_signature@,
            ),
    {
        let gate = self.gate_on_proof(
            tx,
            VkeyKind::RelayerFeeSettlement,
            proof,
            &statement.public_inputs(),
        );
        if gate.is_err() {
            return gate;
        }
        let rotated = self.rotate_wallet(
            tx,
            statement.sender_nullifier,
            statement.sender_root,
            statement.sender_wallet_commitment,
            &statement.sender_updated_public_shares,
        );
        if rotated.is_err() {
            return rotated;
        }
        self.rotate_wallet_with_signature(
            tx,
            statement.recipient_nullifier,
            statement.recipient_root,
            statement.recipient_wallet_commitment,
            &statement.recipient_updated_public_shares,
            relayer_wallet_commitment_signature,
            &statement.recipient_pk_root,
        )
    }

    /// Settles the fee a relayer accrued in a managed wallet into the relayer's own wallet.
    pub fn settle_online_relayer_fee(
        &mut self,
        tx: &mut Session,
        proof: Vec<u8>,
        valid_relayer_fee_settlement_statement: &ValidRelayerFeeSettlementStatement,
        relayer_wallet_commitment_signature: Vec<u8>,
    ) -> (r: Result<(), CoreError>)
        ensures
            (ledger(*final(self), *final(tx)), r) == relayer_fee_outcome(
                ledger(*old(self), *old(tx)),
                proof@,
                *valid_relayer_fee_settlement_statement,
                relayer_wallet_commitment_signature@,
            ),
    {
        let statement = valid_relayer_fee_settlement_statement;
        if statement.sender_updated_public_shares.len() == 0
            || statement.recipient_updated_public_shares.len() == 0 {
            return Err(CoreError::MalformedStatement);
        }
        let saved = self.nullifier_set.duplicate();
        let r = self.settle_online_relayer_fee_run(
            tx,
            proof,
            statement,
            relayer_wallet_commitment_signature,
        );
        self.restore_nullifiers_on_error(saved, &r);
        r
    }

    /// The steps of an offline fee settlement, before a failure is settled.
    fn settle_offline_fee_run(
        &mut self,
        tx: &mut Session,
        proof: Vec<u8>,
        statement: &ValidOfflineFeeSettlementStatement,
    ) -> (r: Result<(), CoreError>)
        requires
            statement.updated_wallet_public_shares@.len() > 0,
        ensures
            (ledger(*final(self), *final(tx)), r) == offline_fee_steps(
                ledger(*old(self), *old(tx)),
                proof@,
                *statement,
            ),
    {
        if self.config.verification_enabled {
            let protocol_pubkey = match self.get_protocol_public_encryption_key() {
                Ok(key) => key,
                Err(e) => {
                    return Err(e);
                },
            };
            if statement.protocol_key != protocol_pubkey {
                return Err(CoreError::InvalidProtocolPubkey);
            }
            let verified = self.verify(
                tx,
                VkeyKind::OfflineFeeSettlement,
                proof,
                &statement.public_inputs(),
            );
            if verified.is_err() {
                return verified;
            }
        } else {
            let guard = self.check_verification_disabled_allowed();
            if guard.is_err() {
                return guard;
            }
        }
        let rotated = self.rotate_wallet(
            tx,
            statement.nullifier,
            statement.merkle_root,
            statement.updated_wallet_commitment,
            &statement.updated_wallet_public_shares,
        );
        if rotated.is_err() {
            return rotated;
        }
        DarkpoolCoreContract::commit_note(tx, statement.note_commitment);
        Ok(())
    }

    /// Settles a fee into an encrypted note committed to the tree.
    pub fn settle_offline_fee(
        &mut self,
        tx: &mut Session,
        proof: Vec<u8>,
        valid_offline_fee_settlement_statement: &ValidOfflineFeeSettlementStatement,
    ) -> (r: Result<(), CoreError>)
        ensures
            (ledger(*final(self), *final(tx)), r) == offline_fee_outcome(
                ledger(*old(self), *old(tx)),
                proof@,
                *valid_offline_fee_settlement_statement,
            ),
    {
        let statement = valid_offline_fee_settlement_statement;
        if statement.updated_wallet_public_shares.len() == 0 {
            return Err(CoreError::MalformedStatement);
        }
        let saved = self.nullifier_set.duplicate();
        let r = self.settle_offline_fee_run(tx, proof, statement);
        self.restore_nullifiers_on_error(saved, &r);
        r
    }

    /// The steps of a fee redemption, before a failure is settled.
    fn redeem_fee_run(
        &mut self,
        tx: &mut Session,
        proof: Vec<u8>,
        statement: &ValidFeeRedemptionStatement,
        recipient_wallet_commitment_signature: Vec<u8>,
    ) -> (r: Result<(), CoreError>)
        requires
            statement.new_wallet_public_shares@.len() > 0,
        ensures
            (ledger(*final(self), *final(tx)), r) == redeem_fee_steps(
                ledger(*old(self), *old(tx)),
                proof@,
                *statement,
                recipient_wallet_commitment_signature@,
            ),
    {
        let gate = self.gate_on_proof(tx, VkeyKind::FeeRedemption, proof, &statement.public_inputs());
        if gate.is_err() {
            return gate;
        }
        let rotated = self.rotate_wallet_with_signature(
            tx,
            statement.nullifier,
            statement.wallet_root,
            statement.new_wallet_commitment,
            &statement.new_wallet_public_shares,
            recipient_wallet_commitment_signature,
            &statement.old_pk_root,
        );
        if rotated.is_err() {
            return rotated;
        }
        self.check_root_and_nullify(tx, statement.note_nullifier, statement.note_root)
    }

    /// Redeems a fee note into its recipient's wallet, spending the note's nullifier.
    pub fn redeem_fee(
        &mut self,
        tx: &mut Session,
        proof: Vec<u8>,
        valid_fee_redemption_statement: &ValidFeeRedemptionStatement,
        recipient_wallet_commitment_signature: Vec<u8>,
    ) -> (r: Result<(), CoreError>)
        ensures
            (ledger(*final(self), *final(tx)), r) == redeem_fee_outcome(
                ledger(*old(self), *old(tx)),
                proof@,
                *valid_fee_redemption_statement,
                recipient_wallet_commitment_signature@,
            ),
    {
        if valid_fee_redemption_statement.new_wallet_public_shares.len() == 0 {
            return Err(CoreError::MalformedStatement);
        }
        let saved = self.nullifier_set.duplicate();
        let r = self.redeem_fee_run(
            tx,
            proof,
            valid_fee_redemption_statement,
            recipient_wallet_commitment_signature,
        );
        self.restore_nullifiers_on_error(saved, &r);
        r
    }

    /// Asks the verifier about all the proofs of a match in one batch; fails unless they hold.
    pub fn batch_verify_process_match_settle(
        &self,
        tx: &mut Session,
        party_0_match_payload: &MatchPayload,
        party_1_match_payload: &MatchPayload,
        valid_match_settle_statement: &ValidMatchSettleStatement,
        match_proofs: Vec<u8>,
        match_linking_proofs: Vec<u8>,
    ) -> (r: Result<(), CoreError>)
        ensures
            (ledger(*self, *final(tx)), r) == match_proof_query(
                ledger(*self, *old(tx)),
                *party_0_match_payload,
                *party_1_match_payload,
                *valid_match_settle_statement,
                match_proofs@,
                match_linking_proofs@,
            ),
    {
        let public_inputs = match serialize_match_statements_for_verification(
            &party_0_match_payload.valid_commitments_statement,
            &party_1_match_payload.valid_commitments_statement,
            &party_0_match_payload.valid_reblind_statement,
            &party_1_match_payload.valid_reblind_statement,
            valid_match_settle_statement,
        ) {
            Ok(bytes) => bytes,
            Err(e) => {
                return Err(e);
            },
        };
        let answer = tx.ask(
            Call::VerifyMatch {
                proofs: match_proofs,
                public_inputs,
                linking_proofs: match_linking_proofs,
            },
        );
        match answer {
            Some(true) => Ok(()),
            Some(false) => Err(CoreError::InvalidProof),
            None => Err(CoreError::Unanswered),
        }
    }

    /// Hands a transfer to the transfer executor, with the signing key and the transfer
    /// encoded.
    pub fn execute_external_transfer(
        &self,
        tx: &mut Session,
        old_pk_root: &PublicSigningKey,
        transfer: &ExternalTransfer,
        transfer_aux_data: Vec<u8>,
    ) -> (r: Result<(), CoreError>)
        ensures
            (ledger(*self, *final(tx)), r) == transfer_dispatch(
                ledger(*self, *old(tx)),
                *old_pk_root,
                *transfer,
                transfer_aux_data@,
            ),
    {
        let pk_root = match postcard_serialize(&old_pk_root.to_words()) {
            Ok(bytes) => bytes,
            Err(e) => {
                return Err(e);
            },
        };
        let transfer_bytes = match postcard_serialize(&transfer.to_words()) {
            Ok(bytes) => bytes,
            Err(e) => {
                return Err(e);
            },
        };
        tx.issue(
            Call::ExecuteTransfer {
                pk_root,
                transfer: transfer_bytes,
                aux_data: transfer_aux_data,
            },
        );
        Ok(())
    }

    /// Appends a note leaf and announces it.
    pub fn commit_note(tx: &mut Session, note_commitment: Scalar)
        ensures
            final(tx)@ == note_posted(old(tx)@, note_commitment),
    {
        let note = scalar_to_u256(note_commitment);
        tx.issue(Call::InsertNote { note });
        tx.emit(Event::NotePosted { note_commitment: note });
    }
}

} // verus!
