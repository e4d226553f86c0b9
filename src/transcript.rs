//! The record of one call into the engine: the requests it made to outside modules, the
//! answers those modules gave, and the events it emitted.
//!
//! The engine never talks to an outside module itself. A run issues requests in order; a
//! request that asks a question (is this proof valid, is this root in the history) takes
//! the next answer supplied with the transcript. When no answer is left the run stops with
//! `CoreError::Unanswered`; the caller performs the request, appends its answer and runs
//! the call again from the same starting state, which repeats the same requests.

use vstd::prelude::*;

use crate::scalar::U256;

verus! {

/// A statement kind whose verification key the key store holds.
#[derive(Clone, Copy, Debug, PartialEq, Eq, Structural)]
pub enum VkeyKind {
    WalletCreate,
    WalletUpdate,
    ProcessMatchSettle,
    RelayerFeeSettlement,
    OfflineFeeSettlement,
    FeeRedemption,
}

/// A request to an outside module.
#[derive(Clone, Debug, PartialEq, Eq)]
pub enum Call {
    /// Asks the verifier whether `proof` holds for `public_inputs` under the key of `kind`.
    Verify { kind: VkeyKind, proof: Vec<u8>, public_inputs: Vec<u8> },
    /// Asks the verifier to check the match-settlement proofs and their linking proofs
    /// in one batch, under the match-settlement keys.
    VerifyMatch { proofs: Vec<u8>, public_inputs: Vec<u8>, linking_proofs: Vec<u8> },
    /// Asks the tree whether `root` is in its root history.
    RootInHistory { root: U256 },
    /// Appends a wallet-shares leaf to the tree.
    InsertShares { shares: Vec<U256> },
    /// Appends a wallet-shares leaf once the tree has checked `signature` over it under
    /// the signing key `pk_root`.
    InsertSignedShares { shares: Vec<U256>, signature: Vec<u8>, pk_root: Vec<U256> },
    /// Appends a note leaf to the tree.
    InsertNote { note: U256 },
    /// Hands a transfer to the transfer executor, with the encoded signing key and transfer.
    ExecuteTransfer { pk_root: Vec<u8>, transfer: Vec<u8>, aux_data: Vec<u8> },
}

/// What a request is, with its byte strings and word lists as sequences.
pub enum CallV {
    Verify { kind: VkeyKind, proof: Seq<u8>, public_inputs: Seq<u8> },
    VerifyMatch { proofs: Seq<u8>, public_inputs: Seq<u8>, linking_proofs: Seq<u8> },
    RootInHistory { root: U256 },
    InsertShares { shares: Seq<U256> },
    InsertSignedShares { shares: Seq<U256>, signature: Seq<u8>, pk_root: Seq<U256> },
    InsertNote { note: U256 },
    ExecuteTransfer { pk_root: Seq<u8>, transfer: Seq<u8>, aux_data: Seq<u8> },
}

impl View for Call {
    type V = CallV;

    open spec fn view(&self) -> CallV {
        match self {
            Call::Verify { kind, proof, public_inputs } => CallV::Verify {
                kind: *kind,
                proof: proof@,
                public_inputs: public_inputs@,
            },
            Call::VerifyMatch { proofs, public_inputs, linking_proofs } => CallV::VerifyMatch {
                proofs: proofs@,
                public_inputs: public_inputs@,
                linking_proofs: linking_proofs@,
            },
            Call::RootInHistory { root } => CallV::RootInHistory { root: *root },
            Call::InsertShares { shares } => CallV::InsertShares { shares: shares@ },
            Call::InsertSignedShares { shares, signature, pk_root } => CallV::InsertSignedShares {
                shares: shares@,
                signature: signature@,
                pk_root: pk_root@,
            },
            Call::InsertNote { note } => CallV::InsertNote { note: *note },
            Call::ExecuteTransfer { pk_root, transfer, aux_data } => CallV::ExecuteTransfer {
                pk_root: pk_root@,
                transfer: transfer@,
                aux_data: aux_data@,
            },
        }
    }
}

/// A notification for off-chain indexers.
#[derive(Clone, Copy, Debug, PartialEq, Eq, Structural)]
pub enum Event {
    /// A wallet was committed; carries its public blinder share.
    WalletUpdated { wallet_blinder_share: U256 },
    /// A nullifier was spent.
    NullifierSpent { nullifier: U256 },
    /// A note was committed.
    NotePosted { note_commitment: U256 },
}

/// What a transcript holds.
pub struct TranscriptV {
    /// The answers supplied, in the order the questions are asked
    pub answers: Seq<bool>,
    /// How many answers the run has taken
    pub taken: nat,
    /// The requests issued, in order
    pub calls: Seq<CallV>,
    /// The events emitted, in order
    pub events: Seq<Event>,
}

/// The record of one call into the engine.
pub struct Session {
    answers: Vec<bool>,
    taken: usize,
    calls: Vec<Call>,
    events: Vec<Event>,
}

impl View for Session {
    type V = TranscriptV;

    closed spec fn view(&self) -> TranscriptV {
        TranscriptV {
            answers: self.answers@,
            taken: self.taken as nat,
            calls: self.calls@.map_values(|c: Call| c@),
            events: self.events@,
        }
    }
}

/// The transcript after a question, and the answer it takes, if one is left.
pub open spec fn asked(t: TranscriptV, c: CallV) -> (TranscriptV, Option<bool>) {
    if t.taken < t.answers.len() {
        (
            TranscriptV { calls: t.calls.push(c), taken: t.taken + 1, ..t },
            Some(t.answers[t.taken as int]),
        )
    } else {
        (TranscriptV { calls: t.calls.push(c), ..t }, None)
    }
}

/// The transcript after a request that asks nothing.
pub open spec fn issued(t: TranscriptV, c: CallV) -> TranscriptV {
    TranscriptV { calls: t.calls.push(c), ..t }
}

/// The transcript after an event.
pub open spec fn emitted(t: TranscriptV, e: Event) -> TranscriptV {
    TranscriptV { events: t.events.push(e), ..t }
}

impl Session {
    /// A fresh transcript with the answers supplied so far.
    pub fn new(answers: Vec<bool>) -> (r: Session)
        ensures
            r@.answers == answers@,
            r@.taken == 0,
            r@.calls == Seq::<CallV>::empty(),
            r@.events == Seq::<Event>::empty(),
    {
        let r = Session { answers, taken: 0, calls: Vec::new(), events: Vec::new() };
        assert(r@.calls =~= Seq::<CallV>::empty());
        r
    }

    /// The requests issued so far.
    pub fn calls(&self) -> (r: &Vec<Call>)
        ensures
            r@.map_values(|c: Call| c@) == self@.calls,
    {
        &self.calls
    }

    /// The events emitted so far.
    pub fn events(&self) -> (r: &Vec<Event>)
        ensures
            r@ == self@.events,
    {
        &self.events
    }

    /// How many answers the run has taken.
    pub fn answers_taken(&self) -> (r: usize)
        ensures
            r == self@.taken,
    {
        self.taken
    }

    /// Issues a question; returns the next answer, if one is left.
    pub fn ask(&mut self, c: Call) -> (r: Option<bool>)
        ensures
            (final(self)@, r) == asked(old(self)@, c@),
    {
        let ghost v = c@;
        self.calls.push(c);
        assert(self.calls@.map_values(|c: Call| c@) =~= old(self)@.calls.push(v));
        if self.taken < self.answers.len() {
            let a = self.answers[self.taken];
            self.taken = self.taken + 1;
            Some(a)
        } else {
            None
        }
    }

    /// Issues a request that asks nothing.
    pub fn issue(&mut self, c: Call)
        ensures
            final(self)@ == issued(old(self)@, c@),
    {
        let ghost v = c@;
        self.calls.push(c);
        assert(self.calls@.map_values(|c: Call| c@) =~= old(self)@.calls.push(v));
    }

    /// Emits an event.
    pub fn emit(&mut self, e: Event)
        ensures
            final(self)@ == emitted(old(self)@, e),
    {
        self.events.push(e);
    }
}

} // verus!
