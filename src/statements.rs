//! The statements that accompany proofs, and the public inputs each one gives the verifier.
//!
//! The public inputs of a statement are its fields in declaration order, each written as
//! 256-bit words: a field element as its canonical integer, a share list element by element,
//! an index or flag as a small integer, an optional transfer as a presence word followed by
//! its fields.

use vstd::prelude::*;

use crate::scalar::{Scalar, U256};

verus! {

/// The word that holds a small integer.
pub open spec fn word_of_u64(v: u64) -> U256 {
    U256 { l0: v, l1: 0, l2: 0, l3: 0 }
}

/// The words of a list of field elements.
pub open spec fn scalar_words(xs: Seq<Scalar>) -> Seq<U256> {
    xs.map_values(|s: Scalar| s.word())
}

/// The word that holds a flag.
pub open spec fn flag_word(b: bool) -> U256 {
    word_of_u64(if b { 1 } else { 0 })
}

/// The word that holds a small integer.
fn small_word(v: u64) -> (r: U256)
    ensures
        r == word_of_u64(v),
{
    U256 { l0: v, l1: 0, l2: 0, l3: 0 }
}

/// Appends the word of a field element.
fn push_scalar(out: &mut Vec<U256>, s: Scalar)
    ensures
        final(out)@ == old(out)@.push(s.word()),
{
    out.push(crate::scalar::scalar_to_u256(s));
}

/// Appends the words of a list of field elements.
fn push_scalars(out: &mut Vec<U256>, xs: &Vec<Scalar>)
    ensures
        final(out)@ == old(out)@ + scalar_words(xs@),
{
    let ghost start = out@;
    let mut i: usize = 0;
    while i < xs.len()
        invariant
            i <= xs@.len(),
            out@ == start + scalar_words(xs@.subrange(0, i as int)),
        decreases xs@.len() - i,
    {
        push_scalar(out, xs[i]);
        i += 1;
        assert(scalar_words(xs@.subrange(0, i as int)) =~= scalar_words(
            xs@.subrange(0, i - 1 as int),
        ).push(xs@[i - 1].word()));
        assert(out@ =~= start + scalar_words(xs@.subrange(0, i as int)));
    }
    assert(xs@.subrange(0, xs@.len() as int) =~= xs@);
}

/// The order, send-balance and receive-balance slots a match settles in one wallet.
#[derive(Clone, Copy, Debug, PartialEq, Eq, Structural)]
pub struct OrderSettlementIndices {
    pub balance_send: u64,
    pub balance_receive: u64,
    pub order: u64,
}

impl OrderSettlementIndices {
    /// The words this value contributes to public inputs, in order.
    pub open spec fn words(self) -> Seq<U256> {
        seq![word_of_u64(self.balance_send), word_of_u64(self.balance_receive), word_of_u64(self.order)]
    }

    /// Appends this value's words.
    fn push_words(&self, out: &mut Vec<U256>)
        ensures
            final(out)@ == old(out)@ + self.words(),
    {
        out.push(small_word(self.balance_send));
        out.push(small_word(self.balance_receive));
        out.push(small_word(self.order));
        assert(out@ =~= old(out)@ + self.words());
    }
}

/// A wallet's public signing key: two coordinates, each split over two field elements.
#[derive(Clone, Copy, Debug, PartialEq, Eq, Structural)]
pub struct PublicSigningKey {
    pub x_low: Scalar,
    pub x_high: Scalar,
    pub y_low: Scalar,
    pub y_high: Scalar,
}

impl PublicSigningKey {
    /// The words this value contributes to public inputs, in order.
    pub open spec fn words(self) -> Seq<U256> {
        seq![self.x_low.word(), self.x_high.word(), self.y_low.word(), self.y_high.word()]
    }

    /// The key as four words, in the order the tree module takes them.
    pub fn to_words(&self) -> (r: Vec<U256>)
        ensures
            r@ == self.words(),
    {
        let mut out: Vec<U256> = Vec::new();
        self.push_words(&mut out);
        assert(out@ =~= self.words());
        out
    }

    /// Appends this value's words.
    fn push_words(&self, out: &mut Vec<U256>)
        ensures
            final(out)@ == old(out)@ + self.words(),
    {
        push_scalar(out, self.x_low);
        push_scalar(out, self.x_high);
        push_scalar(out, self.y_low);
        push_scalar(out, self.y_high);
        assert(out@ =~= old(out)@ + self.words());
    }
}

/// The protocol's public encryption key.
#[derive(Clone, Copy, Debug, PartialEq, Eq, Structural)]
pub struct PublicEncryptionKey {
    pub x: Scalar,
    pub y: Scalar,
}

/// A deposit into or a withdrawal from the pool.
#[derive(Clone, Copy, Debug, PartialEq, Eq, Structural)]
pub struct ExternalTransfer {
    pub account_addr: U256,
    pub mint: U256,
    pub amount: U256,
    pub is_withdrawal: bool,
}

impl ExternalTransfer {
    /// The words this value contributes to public inputs, in order.
    pub open spec fn words(self) -> Seq<U256> {
        seq![self.account_addr, self.mint, self.amount, flag_word(self.is_withdrawal)]
    }

    /// The transfer as four words.
    pub fn to_words(&self) -> (r: Vec<U256>)
        ensures
            r@ == self.words(),
    {
        let w = small_word(if self.is_withdrawal { 1 } else { 0 });
        let r = vec![self.account_addr, self.mint, self.amount, w];
        assert(r@ =~= self.words());
        r
    }
}

/// The words of an optional transfer: a presence word, then the transfer's words.
pub open spec fn transfer_words(t: Option<ExternalTransfer>) -> Seq<U256> {
    match t {
        Some(t) => seq![word_of_u64(1)] + t.words(),
        None => seq![word_of_u64(0)],
    }
}

/// Appends the words of an optional transfer.
fn push_transfer(out: &mut Vec<U256>, t: &Option<ExternalTransfer>)
    ensures
        final(out)@ == old(out)@ + transfer_words(*t),
{
    match t {
        Some(t) => {
            out.push(small_word(1));
            out.push(t.account_addr);
            out.push(t.mint);
            out.push(t.amount);
            out.push(small_word(if t.is_withdrawal { 1 } else { 0 }));
        },
        None => {
            out.push(small_word(0));
        },
    }
    assert(out@ =~= old(out)@ + transfer_words(*t));
}

/// A wallet entering the pool.
#[derive(Clone, Debug)]
pub struct ValidWalletCreateStatement {
    pub private_shares_commitment: Scalar,
    pub public_wallet_shares: Vec<Scalar>,
}

impl ValidWalletCreateStatement {
    /// The words this value contributes to public inputs, in order.
    pub open spec fn words(&self) -> Seq<U256> {
        seq![self.private_shares_commitment.word()] + scalar_words(self.public_wallet_shares@)
    }

    /// The statement's public inputs, as words.
    pub fn public_inputs(&self) -> (r: Vec<U256>)
        ensures
            r@ == self.words(),
    {
        let mut out: Vec<U256> = Vec::new();
        push_scalar(&mut out, self.private_shares_commitment);
        push_scalars(&mut out, &self.public_wallet_shares);
        assert(out@ =~= self.words());
        out
    }
}

/// A wallet replacing its previous state, possibly with a transfer.
#[derive(Clone, Debug)]
pub struct ValidWalletUpdateStatement {
    pub old_shares_nullifier: Scalar,
    pub new_private_shares_commitment: Scalar,
    pub new_public_shares: Vec<Scalar>,
    pub merkle_root: Scalar,
    pub external_transfer: Option<ExternalTransfer>,
    pub old_pk_root: PublicSigningKey,
}

impl ValidWalletUpdateStatement {
    /// The words this value contributes to public inputs, in order.
    pub open spec fn words(&self) -> Seq<U256> {
        seq![self.old_shares_nullifier.word(), self.new_private_shares_commitment.word()]
            + scalar_words(self.new_public_shares@) + seq![self.merkle_root.word()]
            + transfer_words(self.external_transfer) + self.old_pk_root.words()
    }

    /// The statement's public inputs, as words.
    pub fn public_inputs(&self) -> (r: Vec<U256>)
        ensures
            r@ == self.words(),
    {
        let mut out: Vec<U256> = Vec::new();
        push_scalar(&mut out, self.old_shares_nullifier);
        push_scalar(&mut out, self.new_private_shares_commitment);
        push_scalars(&mut out, &self.new_public_shares);
        push_scalar(&mut out, self.merkle_root);
        push_transfer(&mut out, &self.external_transfer);
        self.old_pk_root.push_words(&mut out);
        assert(out@ =~= self.words());
        out
    }
}

/// The order one party commits to a match.
#[derive(Clone, Copy, Debug, PartialEq, Eq, Structural)]
pub struct ValidCommitmentsStatement {
    pub indices: OrderSettlementIndices,
}

impl ValidCommitmentsStatement {
    /// The words this value contributes to public inputs, in order.
    pub open spec fn words(&self) -> Seq<U256> {
        self.indices.words()
    }

    /// The statement's public inputs, as words.
    pub fn public_inputs(&self) -> (r: Vec<U256>)
        ensures
            r@ == self.words(),
    {
        let mut out: Vec<U256> = Vec::new();
        self.indices.push_words(&mut out);
        assert(out@ =~= self.words());
        out
    }
}

/// One party's wallet, reblinded for a match.
#[derive(Clone, Copy, Debug, PartialEq, Eq, Structural)]
pub struct ValidReblindStatement {
    pub original_shares_nullifier: Scalar,
    pub reblinded_private_shares_commitment: Scalar,
    pub merkle_root: Scalar,
}

impl ValidReblindStatement {
    /// The words this value contributes to public inputs, in order.
    pub open spec fn words(&self) -> Seq<U256> {
        seq![
            self.original_shares_nullifier.word(),
            self.reblinded_private_shares_commitment.word(),
            self.merkle_root.word(),
        ]
    }

    /// The statement's public inputs, as words.
    pub fn public_inputs(&self) -> (r: Vec<U256>)
        ensures
            r@ == self.words(),
    {
        let mut out: Vec<U256> = Vec::new();
        push_scalar(&mut out, self.original_shares_nullifier);
        push_scalar(&mut out, self.reblinded_private_shares_commitment);
        push_scalar(&mut out, self.merkle_root);
        assert(out@ =~= self.words());
        out
    }
}

/// What one party brings to a match.
#[derive(Clone, Copy, Debug, PartialEq, Eq, Structural)]
pub struct MatchPayload {
    pub valid_commitments_statement: ValidCommitmentsStatement,
    pub valid_reblind_statement: ValidReblindStatement,
}

/// The settlement of a match between two parties.
#[derive(Clone, Debug)]
pub struct ValidMatchSettleStatement {
    pub party0_modified_shares: Vec<Scalar>,
    pub party1_modified_shares: Vec<Scalar>,
    pub party0_indices: OrderSettlementIndices,
    pub party1_indices: OrderSettlementIndices,
    pub protocol_fee: Scalar,
}

impl ValidMatchSettleStatement {
    /// The words this value contributes to public inputs, in order.
    pub open spec fn words(&self) -> Seq<U256> {
        scalar_words(self.party0_modified_shares@) + scalar_words(self.party1_modified_shares@)
            + self.party0_indices.words() + self.party1_indices.words() + seq![
            self.protocol_fee.word(),
        ]
    }

    /// The statement's public inputs, as words.
    pub fn public_inputs(&self) -> (r: Vec<U256>)
        ensures
            r@ == self.words(),
    {
        let mut out: Vec<U256> = Vec::new();
        push_scalars(&mut out, &self.party0_modified_shares);
        push_scalars(&mut out, &self.party1_modified_shares);
        self.party0_indices.push_words(&mut out);
        self.party1_indices.push_words(&mut out);
        push_scalar(&mut out, self.protocol_fee);
        assert(out@ =~= self.words());
        out
    }
}

/// A relayer collecting its fee from a managed wallet into its own wallet.
#[derive(Clone, Debug)]
pub struct ValidRelayerFeeSettlementStatement {
    pub sender_root: Scalar,
    pub recipient_root: Scalar,
    pub sender_nullifier: Scalar,
    pub recipient_nullifier: Scalar,
    pub sender_wallet_commitment: Scalar,
    pub recipient_wallet_commitment: Scalar,
    pub sender_updated_public_shares: Vec<Scalar>,
    pub recipient_updated_public_shares: Vec<Scalar>,
    pub recipient_pk_root: PublicSigningKey,
}

impl ValidRelayerFeeSettlementStatement {
    /// The words this value contributes to public inputs, in order.
    pub open spec fn words(&self) -> Seq<U256> {
        seq![
            self.sender_root.word(),
            self.recipient_root.word(),
            self.sender_nullifier.word(),
            self.recipient_nullifier.word(),
            self.sender_wallet_commitment.word(),
            self.recipient_wallet_commitment.word(),
        ] + scalar_words(self.sender_updated_public_shares@) + scalar_words(
            self.recipient_updated_public_shares@,
        ) + self.recipient_pk_root.words()
    }

    /// The statement's public inputs, as words.
    pub fn public_inputs(&self) -> (r: Vec<U256>)
        ensures
            r@ == self.words(),
    {
        let mut out: Vec<U256> = Vec::new();
        push_scalar(&mut out, self.sender_root);
        push_scalar(&mut out, self.recipient_root);
        push_scalar(&mut out, self.sender_nullifier);
        push_scalar(&mut out, self.recipient_nullifier);
        push_scalar(&mut out, self.sender_wallet_commitment);
        push_scalar(&mut out, self.recipient_wallet_commitment);
        push_scalars(&mut out, &self.sender_updated_public_shares);
        push_scalars(&mut out, &self.recipient_updated_public_shares);
        self.recipient_pk_root.push_words(&mut out);
        assert(out@ =~= self.words());
        out
    }
}

/// A fee settled into an encrypted note instead of a wallet.
#[derive(Clone, Debug)]
pub struct ValidOfflineFeeSettlementStatement {
    pub merkle_root: Scalar,
    pub nullifier: Scalar,
    pub updated_wallet_commitment: Scalar,
    pub updated_wallet_public_shares: Vec<Scalar>,
    pub note_commitment: Scalar,
    pub protocol_key: PublicEncryptionKey,
    pub is_protocol_fee: bool,
}

impl ValidOfflineFeeSettlementStatement {
    /// The words this value contributes to public inputs, in order.
    pub open spec fn words(&self) -> Seq<U256> {
        seq![
            self.merkle_root.word(),
            self.nullifier.word(),
            self.updated_wallet_commitment.word(),
        ] + scalar_words(self.updated_wallet_public_shares@) + seq![
            self.note_commitment.word(),
            self.protocol_key.x.word(),
            self.protocol_key.y.word(),
            flag_word(self.is_protocol_fee),
        ]
    }

    /// The statement's public inputs, as words.
    pub fn public_inputs(&self) -> (r: Vec<U256>)
        ensures
            r@ == self.words(),
    {
        let mut out: Vec<U256> = Vec::new();
        push_scalar(&mut out, self.merkle_root);
        push_scalar(&mut out, self.nullifier);
        push_scalar(&mut out, self.updated_wallet_commitment);
        push_scalars(&mut out, &self.updated_wallet_public_shares);
        push_scalar(&mut out, self.note_commitment);
        push_scalar(&mut out, self.protocol_key.x);
        push_scalar(&mut out, self.protocol_key.y);
        out.push(small_word(if self.is_protocol_fee { 1 } else { 0 }));
        assert(out@ =~= self.words());
        out
    }
}

/// A fee note redeemed into its recipient's wallet.
#[derive(Clone, Debug)]
pub struct ValidFeeRedemptionStatement {
    pub wallet_root: Scalar,
    pub note_root: Scalar,
    pub nullifier: Scalar,
    pub note_nullifier: Scalar,
    pub new_wallet_commitment: Scalar,
    pub new_wallet_public_shares: Vec<Scalar>,
    pub old_pk_root: PublicSigningKey,
}

impl ValidFeeRedemptionStatement {
    /// The words this value contributes to public inputs, in order.
    pub open spec fn words(&self) -> Seq<U256> {
        seq![
            self.wallet_root.word(),
            self.note_root.word(),
            self.nullifier.word(),
            self.note_nullifier.word(),
            self.new_wallet_commitment.word(),
        ] + scalar_words(self.new_wallet_public_shares@) + self.old_pk_root.words()
    }

    /// The statement's public inputs, as words.
    pub fn public_inputs(&self) -> (r: Vec<U256>)
        ensures
            r@ == self.words(),
    {
        let mut out: Vec<U256> = Vec::new();
        push_scalar(&mut out, self.wallet_root);
        push_scalar(&mut out, self.note_root);
        push_scalar(&mut out, self.nullifier);
        push_scalar(&mut out, self.note_nullifier);
        push_scalar(&mut out, self.new_wallet_commitment);
        push_scalars(&mut out, &self.new_wallet_public_shares);
        self.old_pk_root.push_words(&mut out);
        assert(out@ =~= self.words());
        out
    }
}

} // verus!
