use darkpool::darkpool_core::{
    get_public_blinder_from_shares, match_verification_bundle, verification_bundle,
    verifier_accepts, CoreConfig, DarkpoolCoreContract, DEVNET_CHAIN_ID,
};
use darkpool::encoding::postcard_serialize;
use darkpool::error::CoreError;
use darkpool::flows::serialize_match_statements_for_verification;
use darkpool::scalar::{Scalar, U256, MODULUS_L0, MODULUS_L1, MODULUS_L2, MODULUS_L3};
use darkpool::statements::{
    ExternalTransfer, MatchPayload, OrderSettlementIndices, PublicEncryptionKey, PublicSigningKey,
    ValidCommitmentsStatement, ValidFeeRedemptionStatement, ValidMatchSettleStatement,
    ValidOfflineFeeSettlementStatement, ValidReblindStatement, ValidRelayerFeeSettlementStatement,
    ValidWalletCreateStatement, ValidWalletUpdateStatement,
};
use darkpool::transcript::{Call, Event, Session, VkeyKind};

const MAINNET: u64 = 42161;

fn s(v: u64) -> Scalar {
    Scalar::from_u64(v)
}

fn w(v: u64) -> U256 {
    U256::from_u64(v)
}

fn scalars(vs: &[u64]) -> Vec<Scalar> {
    vs.iter().map(|v| s(*v)).collect()
}

fn words(vs: &[u64]) -> Vec<U256> {
    vs.iter().map(|v| w(*v)).collect()
}

fn config(verification_enabled: bool, chain_id: u64) -> CoreConfig {
    CoreConfig {
        protocol_fee: w(1 << 20),
        protocol_key_x: w(7),
        protocol_key_y: w(8),
        verification_enabled,
        chain_id,
    }
}

fn engine() -> DarkpoolCoreContract {
    DarkpoolCoreContract::new(config(true, MAINNET))
}

fn pk() -> PublicSigningKey {
    PublicSigningKey { x_low: s(1), x_high: s(2), y_low: s(3), y_high: s(4) }
}

fn indices(a: u64, b: u64, c: u64) -> OrderSettlementIndices {
    OrderSettlementIndices { balance_send: a, balance_receive: b, order: c }
}

fn payload(nullifier: u64, commitment: u64, root: u64, idx: OrderSettlementIndices) -> MatchPayload {
    MatchPayload {
        valid_commitments_statement: ValidCommitmentsStatement { indices: idx },
        valid_reblind_statement: ValidReblindStatement {
            original_shares_nullifier: s(nullifier),
            reblinded_private_shares_commitment: s(commitment),
            merkle_root: s(root),
        },
    }
}

fn match_statement(fee: u64) -> ValidMatchSettleStatement {
    ValidMatchSettleStatement {
        party0_modified_shares: scalars(&[10, 11, 12]),
        party1_modified_shares: scalars(&[20, 21, 22]),
        party0_indices: indices(0, 1, 2),
        party1_indices: indices(3, 4, 5),
        protocol_fee: s(fee),
    }
}

fn redemption(nullifier: u64, note_nullifier: u64, shares: &[u64]) -> ValidFeeRedemptionStatement {
    ValidFeeRedemptionStatement {
        wallet_root: s(500),
        note_root: s(501),
        nullifier: s(nullifier),
        note_nullifier: s(note_nullifier),
        new_wallet_commitment: s(502),
        new_wallet_public_shares: scalars(shares),
        old_pk_root: pk(),
    }
}

fn wallet_create() -> ValidWalletCreateStatement {
    ValidWalletCreateStatement {
        private_shares_commitment: s(5),
        public_wallet_shares: scalars(&[11, 12, 13]),
    }
}

#[test]
fn wallet_creation_inserts_one_leaf_and_announces_blinder() {
    let mut core = engine();
    let mut tx = Session::new(vec![true]);
    let statement = wallet_create();
    let r = core.new_wallet(&mut tx, vec![9, 9], &statement);
    assert_eq!(r, Ok(()));
    let inputs = postcard_serialize(&statement.public_inputs()).unwrap();
    assert_eq!(
        tx.calls(),
        &vec![
            Call::Verify { kind: VkeyKind::WalletCreate, proof: vec![9, 9], public_inputs: inputs },
            Call::InsertShares { shares: words(&[5, 11, 12, 13]) },
        ]
    );
    assert_eq!(tx.events(), &vec![Event::WalletUpdated { wallet_blinder_share: w(13) }]);
    assert!(!core.nullifier_set.contains(s(5)));
    assert!(core.public_blinder_set.contains(s(13)));
}

#[test]
fn wallet_creation_with_used_blinder_fails() {
    let mut core = engine();
    let mut tx = Session::new(vec![true]);
    assert_eq!(core.new_wallet(&mut tx, vec![1], &wallet_create()), Ok(()));
    let mut tx = Session::new(vec![true]);
    let other = ValidWalletCreateStatement {
        private_shares_commitment: s(6),
        public_wallet_shares: scalars(&[21, 13]),
    };
    assert_eq!(core.new_wallet(&mut tx, vec![1], &other), Err(CoreError::BlinderReused));
    assert_eq!(tx.calls().len(), 1);
    assert!(tx.events().is_empty());
    // A later rotation ending in the same blinder fails too.
    let mut tx = Session::new(vec![true]);
    let r = core.rotate_wallet(&mut tx, s(1), s(100), s(200), &scalars(&[13]));
    assert_eq!(r, Err(CoreError::BlinderReused));
}

#[test]
fn nullifier_is_spent_once() {
    let mut core = engine();
    let mut tx = Session::new(vec![]);
    assert_eq!(core.mark_nullifier_spent(&mut tx, s(3)), Ok(()));
    assert_eq!(tx.events(), &vec![Event::NullifierSpent { nullifier: w(3) }]);
    assert_eq!(core.mark_nullifier_spent(&mut tx, s(3)), Err(CoreError::NullifierSpent));
    assert_eq!(tx.events().len(), 1);
}

#[test]
fn run_stops_at_unanswered_question_and_replays() {
    let mut core = engine();
    let mut tx = Session::new(vec![]);
    let statement = wallet_create();
    assert_eq!(core.new_wallet(&mut tx, vec![1], &statement), Err(CoreError::Unanswered));
    assert_eq!(tx.calls().len(), 1);
    assert!(matches!(tx.calls()[0], Call::Verify { kind: VkeyKind::WalletCreate, .. }));
    assert!(tx.events().is_empty());

    let mut tx = Session::new(vec![true]);
    assert_eq!(core.new_wallet(&mut tx, vec![1], &statement), Ok(()));
    assert_eq!(tx.answers_taken(), 1);
}

#[test]
fn rejected_proof_fails_with_invalid_proof() {
    let mut core = engine();
    let mut tx = Session::new(vec![false]);
    assert_eq!(core.new_wallet(&mut tx, vec![1], &wallet_create()), Err(CoreError::InvalidProof));
    assert_eq!(tx.calls().len(), 1);
    assert!(tx.events().is_empty());
}

#[test]
fn empty_shares_are_malformed() {
    let mut core = engine();
    let mut tx = Session::new(vec![true]);
    let statement = ValidWalletCreateStatement {
        private_shares_commitment: s(1),
        public_wallet_shares: vec![],
    };
    assert_eq!(core.new_wallet(&mut tx, vec![], &statement), Err(CoreError::MalformedStatement));
    assert!(tx.calls().is_empty());
}

#[test]
fn second_rotation_with_same_nullifier_fails() {
    let mut core = engine();
    let mut tx = Session::new(vec![true, true]);
    let r = core.rotate_wallet(&mut tx, s(77), s(100), s(200), &scalars(&[1, 2, 3]));
    assert_eq!(r, Ok(()));
    assert!(core.nullifier_set.contains(s(77)));
    let r = core.rotate_wallet(&mut tx, s(77), s(100), s(201), &scalars(&[4, 5, 6]));
    assert_eq!(r, Err(CoreError::NullifierSpent));
}

#[test]
fn rotation_with_used_blinder_fails_before_other_checks() {
    let mut core = engine();
    let mut tx = Session::new(vec![true]);
    let r = core.rotate_wallet(&mut tx, s(1), s(100), s(200), &scalars(&[7, 8, 9]));
    assert_eq!(r, Ok(()));
    let before = tx.calls().len();
    let mut tx2 = Session::new(vec![true]);
    let r = core.rotate_wallet(&mut tx2, s(2), s(100), s(201), &scalars(&[3, 9]));
    assert_eq!(r, Err(CoreError::BlinderReused));
    assert!(tx2.calls().is_empty());
    assert!(!core.nullifier_set.contains(s(2)));
    assert_eq!(before, 2);
}

#[test]
fn blinder_stays_used_after_later_failure() {
    let mut core = engine();
    let mut tx = Session::new(vec![false]);
    let r = core.rotate_wallet(&mut tx, s(1), s(100), s(200), &scalars(&[7, 8, 9]));
    assert_eq!(r, Err(CoreError::StaleRoot));
    assert!(core.public_blinder_set.contains(s(9)));
    assert!(!core.nullifier_set.contains(s(1)));
}

#[test]
fn stale_root_is_refused() {
    let mut core = engine();
    let mut tx = Session::new(vec![false]);
    let r = core.rotate_wallet(&mut tx, s(1), s(123), s(200), &scalars(&[5]));
    assert_eq!(r, Err(CoreError::StaleRoot));
    assert_eq!(tx.calls(), &vec![Call::RootInHistory { root: w(123) }]);
}

#[test]
fn disabled_verification_is_refused_off_devnet() {
    let mut core = DarkpoolCoreContract::new(config(false, MAINNET));
    let mut tx = Session::new(vec![]);
    assert_eq!(
        core.new_wallet(&mut tx, vec![], &wallet_create()),
        Err(CoreError::VerificationDisabled)
    );
    let r = core.rotate_wallet(&mut tx, s(1), s(123), s(200), &scalars(&[5]));
    assert_eq!(r, Err(CoreError::VerificationDisabled));
    assert!(tx.calls().is_empty());
}

#[test]
fn disabled_verification_on_devnet_skips_proof_and_root() {
    let mut core = DarkpoolCoreContract::new(config(false, DEVNET_CHAIN_ID));
    let mut tx = Session::new(vec![]);
    let r = core.rotate_wallet(&mut tx, s(1), s(123), s(200), &scalars(&[5]));
    assert_eq!(r, Ok(()));
    assert_eq!(tx.calls(), &vec![Call::InsertShares { shares: words(&[200, 5]) }]);
    // A spent nullifier stays spent with verification off too.
    let r = core.rotate_wallet(&mut tx, s(1), s(123), s(201), &scalars(&[6]));
    assert_eq!(r, Err(CoreError::NullifierSpent));
    let r = core.rotate_wallet_with_signature(&mut tx, s(1), s(123), s(202), &scalars(&[7]), vec![1], &pk());
    assert_eq!(r, Err(CoreError::NullifierSpent));
    assert_eq!(tx.calls().len(), 1);
}

#[test]
fn double_fee_redemption_fails_with_nullifier_spent() {
    let mut core = engine();
    let mut tx = Session::new(vec![true, true, true]);
    let first = redemption(21, 99, &[31, 32]);
    assert_eq!(core.redeem_fee(&mut tx, vec![1], &first, vec![0xAA]), Ok(()));
    assert!(core.nullifier_set.contains(s(99)));
    assert!(core.nullifier_set.contains(s(21)));
    assert_eq!(
        tx.calls()[2],
        Call::InsertSignedShares {
            shares: words(&[502, 31, 32]),
            signature: vec![0xAA],
            pk_root: words(&[1, 2, 3, 4]),
        }
    );

    let mut tx = Session::new(vec![true, true, true]);
    let second = redemption(22, 99, &[41, 42]);
    assert_eq!(core.redeem_fee(&mut tx, vec![1], &second, vec![0xAA]), Err(CoreError::NullifierSpent));
    // The failed call leaves the nullifiers as they were.
    assert!(!core.nullifier_set.contains(s(22)));
}

#[test]
fn match_with_mismatched_indices_never_reaches_verifier() {
    let mut core = engine();
    let mut tx = Session::new(vec![true, true, true]);
    let p0 = payload(1, 2, 3, indices(0, 1, 9));
    let p1 = payload(4, 5, 6, indices(3, 4, 5));
    let r = core.process_match_settle(&mut tx, &p0, &p1, &match_statement(1 << 20), vec![], vec![]);
    assert_eq!(r, Err(CoreError::InvalidOrderSettlementIndices));
    assert!(tx.calls().is_empty());
    assert_eq!(tx.answers_taken(), 0);
}

#[test]
fn match_with_mismatched_party1_indices_fails_whatever_the_proof() {
    for verdict in [true, false] {
        let mut core = engine();
        let mut tx = Session::new(vec![verdict, true, true]);
        let p0 = payload(1, 2, 3, indices(0, 1, 2));
        let p1 = payload(4, 5, 6, indices(3, 4, 6));
        let r = core.process_match_settle(&mut tx, &p0, &p1, &match_statement(1 << 20), vec![], vec![]);
        assert_eq!(r, Err(CoreError::InvalidOrderSettlementIndices));
        assert!(tx.calls().is_empty());
    }
}

#[test]
fn match_with_wrong_fee_fails_before_verification() {
    let mut core = engine();
    let mut tx = Session::new(vec![true, true, true]);
    let p0 = payload(1, 2, 3, indices(0, 1, 2));
    let p1 = payload(4, 5, 6, indices(3, 4, 5));
    let r = core.process_match_settle(&mut tx, &p0, &p1, &match_statement(1 << 21), vec![], vec![]);
    assert_eq!(r, Err(CoreError::InvalidProtocolFee));
    assert!(tx.calls().is_empty());
}

#[test]
fn match_with_unconvertible_stored_fee_fails() {
    let mut cfg = config(true, MAINNET);
    cfg.protocol_fee = U256 { l0: MODULUS_L0, l1: MODULUS_L1, l2: MODULUS_L2, l3: MODULUS_L3 };
    let mut core = DarkpoolCoreContract::new(cfg);
    let mut tx = Session::new(vec![true, true, true]);
    let p0 = payload(1, 2, 3, indices(0, 1, 2));
    let p1 = payload(4, 5, 6, indices(3, 4, 5));
    let r = core.process_match_settle(&mut tx, &p0, &p1, &match_statement(1 << 20), vec![], vec![]);
    assert_eq!(r, Err(CoreError::ScalarConversionFailed));
    assert!(tx.calls().is_empty());
}

#[test]
fn match_settles_both_parties() {
    let mut core = engine();
    let mut tx = Session::new(vec![true, true, true]);
    let p0 = payload(1, 2, 3, indices(0, 1, 2));
    let p1 = payload(4, 5, 6, indices(3, 4, 5));
    let statement = match_statement(1 << 20);
    let r = core.process_match_settle(&mut tx, &p0, &p1, &statement, vec![7], vec![8]);
    assert_eq!(r, Ok(()));
    let inputs = serialize_match_statements_for_verification(
        &p0.valid_commitments_statement,
        &p1.valid_commitments_statement,
        &p0.valid_reblind_statement,
        &p1.valid_reblind_statement,
        &statement,
    )
    .unwrap();
    assert_eq!(
        tx.calls(),
        &vec![
            Call::VerifyMatch { proofs: vec![7], public_inputs: inputs, linking_proofs: vec![8] },
            Call::RootInHistory { root: w(3) },
            Call::InsertShares { shares: words(&[2, 10, 11, 12]) },
            Call::RootInHistory { root: w(6) },
            Call::InsertShares { shares: words(&[5, 20, 21, 22]) },
        ]
    );
    assert!(core.nullifier_set.contains(s(1)));
    assert!(core.nullifier_set.contains(s(4)));
    assert!(core.public_blinder_set.contains(s(12)));
    assert!(core.public_blinder_set.contains(s(22)));
}

#[test]
fn failed_second_party_rolls_back_first_nullifier() {
    let mut core = engine();
    let mut tx = Session::new(vec![true, true, false]);
    let p0 = payload(1, 2, 3, indices(0, 1, 2));
    let p1 = payload(4, 5, 6, indices(3, 4, 5));
    let r = core.process_match_settle(&mut tx, &p0, &p1, &match_statement(1 << 20), vec![], vec![]);
    assert_eq!(r, Err(CoreError::StaleRoot));
    assert!(!core.nullifier_set.contains(s(1)));
    assert!(core.public_blinder_set.contains(s(12)));
    assert!(core.public_blinder_set.contains(s(22)));
}

#[test]
fn wallet_update_executes_its_transfer() {
    let mut core = engine();
    let mut tx = Session::new(vec![true, true]);
    let transfer = ExternalTransfer {
        account_addr: w(0xABC),
        mint: w(0xDEF),
        amount: w(1000),
        is_withdrawal: true,
    };
    let statement = ValidWalletUpdateStatement {
        old_shares_nullifier: s(60),
        new_private_shares_commitment: s(61),
        new_public_shares: scalars(&[62, 63]),
        merkle_root: s(64),
        external_transfer: Some(transfer),
        old_pk_root: pk(),
    };
    let r = core.update_wallet(&mut tx, vec![1], &statement, vec![2], vec![3]);
    assert_eq!(r, Ok(()));
    let calls = tx.calls();
    assert_eq!(calls.len(), 4);
    assert_eq!(
        calls[3],
        Call::ExecuteTransfer {
            pk_root: postcard_serialize(&words(&[1, 2, 3, 4])).unwrap(),
            transfer: postcard_serialize(&words(&[0xABC, 0xDEF, 1000, 1])).unwrap(),
            aux_data: vec![3],
        }
    );
    assert_eq!(
        tx.events(),
        &vec![
            Event::NullifierSpent { nullifier: w(60) },
            Event::WalletUpdated { wallet_blinder_share: w(63) },
        ]
    );
}

#[test]
fn wallet_update_without_transfer_issues_no_transfer() {
    let mut core = engine();
    let mut tx = Session::new(vec![true, true]);
    let statement = ValidWalletUpdateStatement {
        old_shares_nullifier: s(60),
        new_private_shares_commitment: s(61),
        new_public_shares: scalars(&[62, 63]),
        merkle_root: s(64),
        external_transfer: None,
        old_pk_root: pk(),
    };
    assert_eq!(core.update_wallet(&mut tx, vec![1], &statement, vec![2], vec![3]), Ok(()));
    assert_eq!(tx.calls().len(), 3);
}

#[test]
fn relayer_fee_rotates_sender_then_signed_recipient() {
    let mut core = engine();
    let mut tx = Session::new(vec![true, true, true]);
    let statement = ValidRelayerFeeSettlementStatement {
        sender_root: s(70),
        recipient_root: s(71),
        sender_nullifier: s(72),
        recipient_nullifier: s(73),
        sender_wallet_commitment: s(74),
        recipient_wallet_commitment: s(75),
        sender_updated_public_shares: scalars(&[76]),
        recipient_updated_public_shares: scalars(&[77]),
        recipient_pk_root: pk(),
    };
    let r = core.settle_online_relayer_fee(&mut tx, vec![1], &statement, vec![5]);
    assert_eq!(r, Ok(()));
    let calls = tx.calls();
    assert_eq!(calls.len(), 5);
    assert_eq!(calls[2], Call::InsertShares { shares: words(&[74, 76]) });
    assert_eq!(
        calls[4],
        Call::InsertSignedShares {
            shares: words(&[75, 77]),
            signature: vec![5],
            pk_root: words(&[1, 2, 3, 4]),
        }
    );
}

fn offline_statement(key: PublicEncryptionKey) -> ValidOfflineFeeSettlementStatement {
    ValidOfflineFeeSettlementStatement {
        merkle_root: s(80),
        nullifier: s(81),
        updated_wallet_commitment: s(82),
        updated_wallet_public_shares: scalars(&[83]),
        note_commitment: s(84),
        protocol_key: key,
        is_protocol_fee: false,
    }
}

#[test]
fn offline_fee_commits_and_announces_note() {
    let mut core = engine();
    let mut tx = Session::new(vec![true, true]);
    let statement = offline_statement(PublicEncryptionKey { x: s(7), y: s(8) });
    assert_eq!(core.settle_offline_fee(&mut tx, vec![1], &statement), Ok(()));
    assert_eq!(tx.calls().last(), Some(&Call::InsertNote { note: w(84) }));
    assert_eq!(tx.events().last(), Some(&Event::NotePosted { note_commitment: w(84) }));
}

#[test]
fn offline_fee_with_wrong_protocol_key_fails() {
    let mut core = engine();
    let mut tx = Session::new(vec![true, true]);
    let statement = offline_statement(PublicEncryptionKey { x: s(7), y: s(9) });
    assert_eq!(
        core.settle_offline_fee(&mut tx, vec![1], &statement),
        Err(CoreError::InvalidProtocolPubkey)
    );
    assert!(tx.calls().is_empty());
}

#[test]
fn protocol_key_is_read_from_settings() {
    let core = engine();
    assert_eq!(
        core.get_protocol_public_encryption_key(),
        Ok(PublicEncryptionKey { x: s(7), y: s(8) })
    );
}

#[test]
fn blinder_is_last_share() {
    assert_eq!(get_public_blinder_from_shares(&scalars(&[1, 2, 3])), s(3));
}

#[test]
fn bundles_concatenate_in_order() {
    assert_eq!(verification_bundle(&vec![1], &vec![2, 3], &vec![4]), vec![1, 2, 3, 4]);
    assert_eq!(
        match_verification_bundle(&vec![1], &vec![2], &vec![3], &vec![4, 5]),
        vec![1, 2, 3, 4, 5]
    );
}

#[test]
fn verifier_verdict_is_last_byte_of_answer() {
    let mut answer = vec![0u8; 32];
    assert_eq!(verifier_accepts(&answer), Ok(false));
    answer[31] = 1;
    assert_eq!(verifier_accepts(&answer), Ok(true));
    assert_eq!(verifier_accepts(&vec![1u8; 31]), Err(CoreError::VerifierUnavailable));
}
