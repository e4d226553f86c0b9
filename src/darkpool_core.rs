//! The rotation protocol and the settlement flows.
//!
//! Each flow checks its statement, gates on a proof, and rotates one or two wallets: it
//! marks the new public blinder used, checks the cited root against the root history,
//! spends the old nullifier, announces the new blinder and appends the new leaf. A failed
//! flow leaves the nullifier registry as it found it; the blinders it marked stay used.

use vstd::prelude::*;

use crate::encoding::{postcard_serialize, encoded};
use crate::error::CoreError;
use crate::registry::ScalarSet;
use crate::scalar::{scalar_of, scalar_to_u256, u256_to_scalar, Scalar, U256};
use crate::statements::{scalar_words, PublicEncryptionKey, PublicSigningKey};
use crate::transcript::{asked, emitted, issued, Call, CallV, Event, Session, TranscriptV, VkeyKind};

verus! {

/// The id of the development network, the one network on which verification may be
/// switched off.
pub const DEVNET_CHAIN_ID: u64 = 473474;

/// The process-wide settings the engine reads and never changes.
#[derive(Clone, Copy, Debug, PartialEq, Eq, Structural)]
pub struct CoreConfig {
    /// The protocol fee, a fixed-point number over two to the thirty-second
    pub protocol_fee: U256,
    /// First coordinate of the protocol's public encryption key
    pub protocol_key_x: U256,
    /// Second coordinate of the protocol's public encryption key
    pub protocol_key_y: U256,
    /// Whether proofs, roots and nullifier reuse are checked
    pub verification_enabled: bool,
    /// The network the engine runs on
    pub chain_id: u64,
}

/// The engine's state: its settings and the two one-time-use registries.
pub struct DarkpoolCoreContract {
    pub config: CoreConfig,
    /// Nullifiers of wallet states and notes that were spent
    pub nullifier_set: ScalarSet,
    /// Public blinders of the wallets committed so far
    pub public_blinder_set: ScalarSet,
}

/// The engine's state and the transcript of the current call, as values.
pub struct Ledger {
    pub config: CoreConfig,
    pub nullifiers: Set<Scalar>,
    pub blinders: Set<Scalar>,
    pub tx: TranscriptV,
}

/// The ledger that an engine and a transcript make up.
pub open spec fn ledger(c: DarkpoolCoreContract, tx: Session) -> Ledger {
    Ledger {
        config: c.config,
        nullifiers: c.nullifier_set@,
        blinders: c.public_blinder_set@,
        tx: tx@,
    }
}

/// A ledger after one step, and whether the step succeeded.
pub type Step = (Ledger, Result<(), CoreError>);

/// The ledger with its transcript replaced.
pub open spec fn with_tx(l: Ledger, t: TranscriptV) -> Ledger {
    Ledger { tx: t, ..l }
}

/// With verification switched off, only the development network may go on.
pub open spec fn verification_guard(cfg: CoreConfig) -> Result<(), CoreError> {
    if cfg.chain_id == DEVNET_CHAIN_ID {
        Ok(())
    } else {
        Err(CoreError::VerificationDisabled)
    }
}

/// The outcome of a question: its answer, or the refusal, or no answer yet.
pub open spec fn answered(a: Option<bool>, refusal: CoreError) -> Result<(), CoreError> {
    match a {
        Some(true) => Ok(()),
        Some(false) => Err(refusal),
        None => Err(CoreError::Unanswered),
    }
}

/// The protocol encryption key the settings denote.
pub open spec fn protocol_key_of(cfg: CoreConfig) -> Result<PublicEncryptionKey, CoreError> {
    match (scalar_of(cfg.protocol_key_x), scalar_of(cfg.protocol_key_y)) {
        (Some(x), Some(y)) => Ok(PublicEncryptionKey { x, y }),
        _ => Err(CoreError::ScalarConversionFailed),
    }
}

/// Asking the verifier about a proof of `kind` whose public inputs are `words`.
pub open spec fn proof_query(l: Ledger, kind: VkeyKind, proof: Seq<u8>, words: Seq<U256>) -> Step {
    let (t, a) = asked(l.tx, CallV::Verify { kind, proof, public_inputs: encoded(words) });
    (with_tx(l, t), answered(a, CoreError::InvalidProof))
}

/// The proof gate of a flow: a verified proof when verification is on, the network guard
/// when it is off.
pub open spec fn proof_gate(l: Ledger, kind: VkeyKind, proof: Seq<u8>, words: Seq<U256>) -> Step {
    if l.config.verification_enabled {
        proof_query(l, kind, proof, words)
    } else {
        (l, verification_guard(l.config))
    }
}

/// Asking the tree whether `root` is in its root history.
pub open spec fn root_query(l: Ledger, root: Scalar) -> Step {
    let (t, a) = asked(l.tx, CallV::RootInHistory { root: root.word() });
    (with_tx(l, t), answered(a, CoreError::StaleRoot))
}

/// Marking a public blinder used; it fails when the blinder was used before.
pub open spec fn blinder_mark(l: Ledger, blinder: Scalar) -> Step {
    if l.blinders.contains(blinder) {
        (l, Err(CoreError::BlinderReused))
    } else {
        (Ledger { blinders: l.blinders.insert(blinder), ..l }, Ok(()))
    }
}

/// Spending a nullifier: with verification off, only on the development network; in every
/// mode it fails when the nullifier was spent before.
pub open spec fn nullifier_spend(l: Ledger, nullifier: Scalar) -> Step {
    if !l.config.verification_enabled && verification_guard(l.config) is Err {
        (l, verification_guard(l.config))
    } else if l.nullifiers.contains(nullifier) {
        (l, Err(CoreError::NullifierSpent))
    } else {
        (
            Ledger {
                nullifiers: l.nullifiers.insert(nullifier),
                tx: emitted(l.tx, Event::NullifierSpent { nullifier: nullifier.word() }),
                ..l
            },
            Ok(()),
        )
    }
}

/// Checking the cited root, then spending the nullifier.
pub open spec fn root_and_nullify(l: Ledger, nullifier: Scalar, root: Scalar) -> Step {
    let (l1, r1) = if l.config.verification_enabled {
        root_query(l, root)
    } else {
        (l, verification_guard(l.config))
    };
    if r1 is Err {
        (l1, r1)
    } else {
        nullifier_spend(l1, nullifier)
    }
}

/// The public blinder of a share list: its last element.
pub open spec fn blinder_of(shares: Seq<Scalar>) -> Scalar {
    shares.last()
}

/// The checks of a rotation: the blinder mark, the root check and the nullifier spend, then
/// the announcement of the new blinder.
pub open spec fn rotation_check(l: Ledger, nullifier: Scalar, root: Scalar, shares: Seq<Scalar>) -> Step {
    let (l1, r1) = blinder_mark(l, blinder_of(shares));
    if r1 is Err {
        (l1, r1)
    } else {
        let (l2, r2) = root_and_nullify(l1, nullifier, root);
        if r2 is Err {
            (l2, r2)
        } else {
            (
                with_tx(
                    l2,
                    emitted(
                        l2.tx,
                        Event::WalletUpdated { wallet_blinder_share: blinder_of(shares).word() },
                    ),
                ),
                Ok(()),
            )
        }
    }
}

/// The tree leaf of a wallet: its private-shares commitment, then its public shares.
pub open spec fn wallet_leaf(commitment: Scalar, shares: Seq<Scalar>) -> Seq<U256> {
    seq![commitment.word()] + scalar_words(shares)
}

/// A rotation whose new leaf is appended without a signature.
pub open spec fn rotation(
    l: Ledger,
    nullifier: Scalar,
    root: Scalar,
    commitment: Scalar,
    shares: Seq<Scalar>,
) -> Step {
    let (l1, r1) = rotation_check(l, nullifier, root, shares);
    if r1 is Err {
        (l1, r1)
    } else {
        (
            with_tx(l1, issued(l1.tx, CallV::InsertShares { shares: wallet_leaf(commitment, shares) })),
            Ok(()),
        )
    }
}

/// A rotation whose new leaf the tree appends once it has checked `signature` under `pk`.
pub open spec fn signed_rotation(
    l: Ledger,
    nullifier: Scalar,
    root: Scalar,
    commitment: Scalar,
    shares: Seq<Scalar>,
    signature: Seq<u8>,
    pk: PublicSigningKey,
) -> Step {
    let (l1, r1) = rotation_check(l, nullifier, root, shares);
    if r1 is Err {
        (l1, r1)
    } else {
        (
            with_tx(
                l1,
                issued(
                    l1.tx,
                    CallV::InsertSignedShares {
                        shares: wallet_leaf(commitment, shares),
                        signature,
                        pk_root: pk.words(),
                    },
                ),
            ),
            Ok(()),
        )
    }
}

/// A failed flow leaves the nullifiers as it found them; all else stays as the flow left it.
pub open spec fn settled(start: Ledger, s: Step) -> Step {
    if s.1 is Ok {
        s
    } else {
        (Ledger { nullifiers: start.nullifiers, ..s.0 }, s.1)
    }
}

/// Index of the verdict byte in a reply of the verifier.
pub const VERIFICATION_RESULT_LAST_BYTE_INDEX: usize = 31;

/// Appends the bytes of `src`.
fn append_bytes(out: &mut Vec<u8>, src: &Vec<u8>)
    ensures
        final(out)@ == old(out)@ + src@,
{
    let ghost start = out@;
    let mut i: usize = 0;
    while i < src.len()
        invariant
            i <= src@.len(),
            out@ == start + src@.subrange(0, i as int),
        decreases src@.len() - i,
    {
        out.push(src[i]);
        i += 1;
        assert(out@ =~= start + src@.subrange(0, i as int));
    }
    assert(src@.subrange(0, i as int) =~= src@);
}

/// The bundle the verifier checks for one proof: the verification key, the proof, then the
/// public inputs.
pub fn verification_bundle(vkey: &Vec<u8>, proof: &Vec<u8>, public_inputs: &Vec<u8>) -> (r: Vec<u8>)
    ensures
        r@ == vkey@ + proof@ + public_inputs@,
{
    let mut bundle: Vec<u8> = Vec::new();
    append_bytes(&mut bundle, vkey);
    append_bytes(&mut bundle, proof);
    append_bytes(&mut bundle, public_inputs);
    assert(bundle@ =~= vkey@ + proof@ + public_inputs@);
    bundle
}

/// The bundle the verifier checks for a match: the match verification keys, the proofs, the
/// public inputs, then the linking proofs.
pub fn match_verification_bundle(
    vkeys: &Vec<u8>,
    proofs: &Vec<u8>,
    public_inputs: &Vec<u8>,
    linking_proofs: &Vec<u8>,
) -> (r: Vec<u8>)
    ensures
        r@ == vkeys@ + proofs@ + public_inputs@ + linking_proofs@,
{
    let mut bundle: Vec<u8> = Vec::new();
    append_bytes(&mut bundle, vkeys);
    append_bytes(&mut bundle, proofs);
    append_bytes(&mut bundle, public_inputs);
    append_bytes(&mut bundle, linking_proofs);
    assert(bundle@ =~= vkeys@ + proofs@ + public_inputs@ + linking_proofs@);
    bundle
}

/// The verdict in the verifier's answer: whether its last byte is nonzero. An answer too
/// short to hold one means the verifier is not usable.
pub fn verifier_accepts(response: &Vec<u8>) -> (r: Result<bool, CoreError>)
    ensures
        response@.len() > VERIFICATION_RESULT_LAST_BYTE_INDEX ==> r == Ok::<bool, CoreError>(
            response@[VERIFICATION_RESULT_LAST_BYTE_INDEX as int] != 0,
        ),
        response@.len() <= VERIFICATION_RESULT_LAST_BYTE_INDEX ==> r == Err::<bool, CoreError>(
            CoreError::VerifierUnavailable,
        ),
{
    if response.len() > VERIFICATION_RESULT_LAST_BYTE_INDEX {
        Ok(response[VERIFICATION_RESULT_LAST_BYTE_INDEX] != 0)
    } else {
        Err(CoreError::VerifierUnavailable)
    }
}

/// The public blinder of a share list: its last element.
pub fn get_public_blinder_from_shares(shares: &Vec<Scalar>) -> (r: Scalar)
    requires
        shares@.len() > 0,
    ensures
        r == blinder_of(shares@),
{
    shares[shares.len() - 1]
}

impl DarkpoolCoreContract {
    /// An engine with the given settings and empty registries.
    pub fn new(config: CoreConfig) -> (r: DarkpoolCoreContract)
        ensures
            r.config == config,
            r.nullifier_set@ == Set::<Scalar>::empty(),
            r.public_blinder_set@ == Set::<Scalar>::empty(),
    {
        DarkpoolCoreContract {
            config,
            nullifier_set: ScalarSet::new(),
            public_blinder_set: ScalarSet::new(),
        }
    }

    /// With verification switched off, fails unless the engine runs on the development network.
    pub fn check_verification_disabled_allowed(&self) -> (r: Result<(), CoreError>)
        ensures
            r == verification_guard(self.config),
    {
        if self.config.chain_id == DEVNET_CHAIN_ID {
            Ok(())
        } else {
            Err(CoreError::VerificationDisabled)
        }
    }

    /// The protocol's public encryption key, as field elements.
    pub fn get_protocol_public_encryption_key(&self) -> (r: Result<PublicEncryptionKey, CoreError>)
        ensures
            r == protocol_key_of(self.config),
    {
        let x = u256_to_scalar(self.config.protocol_key_x);
        let y = u256_to_scalar(self.config.protocol_key_y);
        match (x, y) {
            (Ok(x), Ok(y)) => Ok(PublicEncryptionKey { x, y }),
            _ => Err(CoreError::ScalarConversionFailed),
        }
    }

    /// Asks the tree whether `root` is in its root history; fails unless it is.
    pub fn check_root_in_history(&self, tx: &mut Session, root: Scalar) -> (r: Result<(), CoreError>)
        ensures
            (ledger(*self, *final(tx)), r) == root_query(ledger(*self, *old(tx)), root),
    {
        let answer = tx.ask(Call::RootInHistory { root: scalar_to_u256(root) });
        match answer {
            Some(true) => Ok(()),
            Some(false) => Err(CoreError::StaleRoot),
            None => Err(CoreError::Unanswered),
        }
    }

    /// Asks the verifier about a proof of `kind` with the given public inputs; fails unless it
    /// holds.
    pub fn verify(
        &self,
        tx: &mut Session,
        kind: VkeyKind,
        proof: Vec<u8>,
        public_inputs: &Vec<U256>,
    ) -> (r: Result<(), CoreError>)
        ensures
            (ledger(*self, *final(tx)), r) == proof_query(
                ledger(*self, *old(tx)),
                kind,
                proof@,
                public_inputs@,
            ),
    {
        let inputs = match postcard_serialize(public_inputs) {
            Ok(bytes) => bytes,
            Err(e) => {
                return Err(e);
            },
        };
        let answer = tx.ask(Call::Verify { kind, proof, public_inputs: inputs });
        match answer {
            Some(true) => Ok(()),
            Some(false) => Err(CoreError::InvalidProof),
            None => Err(CoreError::Unanswered),
        }
    }

    /// The proof gate of a flow: the verifier's verdict when verification is on, the network
    /// guard when it is off.
    pub(crate) fn gate_on_proof(
        &self,
        tx: &mut Session,
        kind: VkeyKind,
        proof: Vec<u8>,
        public_inputs: &Vec<U256>,
    ) -> (r: Result<(), CoreError>)
        ensures
            (ledger(*self, *final(tx)), r) == proof_gate(
                ledger(*self, *old(tx)),
                kind,
                proof@,
                public_inputs@,
            ),
    {
        if self.config.verification_enabled {
            self.verify(tx, kind, proof, public_inputs)
        } else {
            self.check_verification_disabled_allowed()
        }
    }

    /// Marks the nullifier spent; fails when it was spent before, and, with verification off,
    /// off the development network.
    pub fn mark_nullifier_spent(&mut self, tx: &mut Session, nullifier: Scalar) -> (r: Result<(), CoreError>)
        ensures
            (ledger(*final(self), *final(tx)), r) == nullifier_spend(
                ledger(*old(self), *old(tx)),
                nullifier,
            ),
    {
        if !self.config.verification_enabled {
            let guard = self.check_verification_disabled_allowed();
            if guard.is_err() {
                return guard;
            }
        }
        if self.nullifier_set.contains(nullifier) {
            return Err(CoreError::NullifierSpent);
        }
        self.nullifier_set.insert(nullifier);
        tx.emit(Event::NullifierSpent { nullifier: scalar_to_u256(nullifier) });
        Ok(())
    }

    /// Marks the public blinder used; fails when it was used before.
    pub fn mark_public_blinder_used(&mut self, tx: &Session, blinder: Scalar) -> (r: Result<(), CoreError>)
        ensures
            (ledger(*final(self), *tx), r) == blinder_mark(ledger(*old(self), *tx), blinder),
    {
        if self.public_blinder_set.contains(blinder) {
            return Err(CoreError::BlinderReused);
        }
        self.public_blinder_set.insert(blinder);
        Ok(())
    }

    /// Checks the cited root against the root history, then spends the nullifier.
    pub fn check_root_and_nullify(
        &mut self,
        tx: &mut Session,
        nullifier: Scalar,
        merkle_root: Scalar,
    ) -> (r: Result<(), CoreError>)
        ensures
            (ledger(*final(self), *final(tx)), r) == root_and_nullify(
                ledger(*old(self), *old(tx)),
                nullifier,
                merkle_root,
            ),
    {
        let checked = if self.config.verification_enabled {
            self.check_root_in_history(tx, merkle_root)
        } else {
            self.check_verification_disabled_allowed()
        };
        if checked.is_err() {
            return checked;
        }
        self.mark_nullifier_spent(tx, nullifier)
    }

    /// Announces the public blinder of a newly committed wallet.
    pub fn log_wallet_update(tx: &mut Session, public_wallet_shares: &Vec<Scalar>)
        requires
            public_wallet_shares@.len() > 0,
        ensures
            final(tx)@ == emitted(
                old(tx)@,
                Event::WalletUpdated {
                    wallet_blinder_share: blinder_of(public_wallet_shares@).word(),
                },
            ),
    {
        let blinder = get_public_blinder_from_shares(public_wallet_shares);
        tx.emit(Event::WalletUpdated { wallet_blinder_share: scalar_to_u256(blinder) });
    }

    /// Marks the new public blinder used, checks the cited root, spends the old nullifier and
    /// announces the new blinder.
    pub fn check_wallet_rotation(
        &mut self,
        tx: &mut Session,
        old_wallet_nullifier: Scalar,
        merkle_root: Scalar,
        new_wallet_public_shares: &Vec<Scalar>,
    ) -> (r: Result<(), CoreError>)
        requires
            new_wallet_public_shares@.len() > 0,
        ensures
            (ledger(*final(self), *final(tx)), r) == rotation_check(
                ledger(*old(self), *old(tx)),
                old_wallet_nullifier,
                merkle_root,
                new_wallet_public_shares@,
            ),
    {
        let public_blinder = get_public_blinder_from_shares(new_wallet_public_shares);
        let marked = self.mark_public_blinder_used(tx, public_blinder);
        if marked.is_err() {
            return marked;
        }
        let checked = self.check_root_and_nullify(tx, old_wallet_nullifier, merkle_root);
        if checked.is_err() {
            return checked;
        }
        DarkpoolCoreContract::log_wallet_update(tx, new_wallet_public_shares);
        Ok(())
    }

    /// The tree leaf of a wallet: its private-shares commitment, then its public shares.
    pub fn prepare_wallet_shares_for_insertion(
        private_shares_commitment: Scalar,
        public_wallet_shares: &Vec<Scalar>,
    ) -> (r: Vec<U256>)
        ensures
            r@ == wallet_leaf(private_shares_commitment, public_wallet_shares@),
    {
        let mut total_wallet_shares: Vec<U256> = Vec::new();
        total_wallet_shares.push(scalar_to_u256(private_shares_commitment));
        let mut i: usize = 0;
        while i < public_wallet_shares.len()
            invariant
                i <= public_wallet_shares@.len(),
                total_wallet_shares@ == wallet_leaf(
                    private_shares_commitment,
                    public_wallet_shares@.subrange(0, i as int),
                ),
            decreases public_wallet_shares@.len() - i,
        {
            total_wallet_shares.push(scalar_to_u256(public_wallet_shares[i]));
            i += 1;
            assert(total_wallet_shares@ =~= wallet_leaf(
                private_shares_commitment,
                public_wallet_shares@.subrange(0, i as int),
            ));
        }
        assert(public_wallet_shares@.subrange(0, i as int) =~= public_wallet_shares@);
        total_wallet_shares
    }

    /// Asks the tree to append a wallet leaf.
    pub fn insert_wallet_commitment_to_merkle_tree(
        tx: &mut Session,
        private_shares_commitment: Scalar,
        public_wallet_shares: &Vec<Scalar>,
    )
        ensures
            final(tx)@ == issued(
                old(tx)@,
                CallV::InsertShares {
                    shares: wallet_leaf(private_shares_commitment, public_wallet_shares@),
                },
            ),
    {
        let total_wallet_shares = DarkpoolCoreContract::prepare_wallet_shares_for_insertion(
            private_shares_commitment,
            public_wallet_shares,
        );
        tx.issue(Call::InsertShares { shares: total_wallet_shares });
    }

    /// Asks the tree to append a wallet leaf once it has checked the signature over it.
    pub fn insert_signed_wallet_commitment_to_merkle_tree(
        tx: &mut Session,
        private_shares_commitment: Scalar,
        public_wallet_shares: &Vec<Scalar>,
        wallet_commitment_signature: Vec<u8>,
        old_pk_root: &PublicSigningKey,
    )
        ensures
            final(tx)@ == issued(
                old(tx)@,
                CallV::InsertSignedShares {
                    shares: wallet_leaf(private_shares_commitment, public_wallet_shares@),
                    signature: wallet_commitment_signature@,
                    pk_root: old_pk_root.words(),
                },
            ),
    {
        let total_wallet_shares = DarkpoolCoreContract::prepare_wallet_shares_for_insertion(
            private_shares_commitment,
            public_wallet_shares,
        );
        let pk_root = old_pk_root.to_words();
        tx.issue(
            Call::InsertSignedShares {
                shares: total_wallet_shares,
                signature: wallet_commitment_signature,
                pk_root,
            },
        );
    }

    /// Spends the old wallet and appends the new one.
    pub fn rotate_wallet(
        &mut self,
        tx: &mut Session,
        old_wallet_nullifier: Scalar,
        merkle_root: Scalar,
        new_wallet_private_shares_commitment: Scalar,
        new_wallet_public_shares: &Vec<Scalar>,
    ) -> (r: Result<(), CoreError>)
        requires
            new_wallet_public_shares@.len() > 0,
        ensures
            (ledger(*final(self), *final(tx)), r) == rotation(
                ledger(*old(self), *old(tx)),
                old_wallet_nullifier,
                merkle_root,
                new_wallet_private_shares_commitment,
                new_wallet_public_shares@,
            ),
    {
        let checked = self.check_wallet_rotation(
            tx,
            old_wallet_nullifier,
            merkle_root,
            new_wallet_public_shares,
        );
        if checked.is_err() {
            return checked;
        }
        DarkpoolCoreContract::insert_wallet_commitment_to_merkle_tree(
            tx,
            new_wallet_private_shares_commitment,
            new_wallet_public_shares,
        );
        Ok(())
    }

    /// Spends the old wallet and appends the new one under a signature of the old wallet's key.
    pub fn rotate_wallet_with_signature(
        &mut self,
        tx: &mut Session,
        old_wallet_nullifier: Scalar,
        merkle_root: Scalar,
        new_wallet_private_shares_commitment: Scalar,
        new_wallet_public_shares: &Vec<Scalar>,
        new_wallet_commitment_signature: Vec<u8>,
        old_pk_root: &PublicSigningKey,
    ) -> (r: Result<(), CoreError>)
        requires
            new_wallet_public_shares@.len() > 0,
        ensures
            (ledger(*final(self), *final(tx)), r) == signed_rotation(
                ledger(*old(self), *old(tx)),
                old_wallet_nullifier,
                merkle_root,
                new_wallet_private_shares_commitment,
                new_wallet_public_shares@,
                new_wallet_commitment_signature@,
                *old_pk_root,
            ),
    {
        let checked = self.check_wallet_rotation(
            tx,
            old_wallet_nullifier,
            merkle_root,
            new_wallet_public_shares,
        );
        if checked.is_err() {
            return checked;
        }
        DarkpoolCoreContract::insert_signed_wallet_commitment_to_merkle_tree(
            tx,
            new_wallet_private_shares_commitment,
            new_wallet_public_shares,
            new_wallet_commitment_signature,
            old_pk_root,
        );
        Ok(())
    }
}

} // verus!
