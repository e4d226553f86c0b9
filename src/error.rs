//! The failures the engine reports.

use vstd::prelude::*;

verus! {

/// Why a call into the engine failed.
#[derive(Clone, Copy, Debug, PartialEq, Eq, Structural)]
pub enum CoreError {
    /// A statement payload could not be decoded, or does not have the shape its schema asks for
    MalformedStatement,
    /// The verifier rejected a proof
    InvalidProof,
    /// The order-settlement indices of a party's commitments statement differ from those
    /// recorded in the match-settlement statement
    InvalidOrderSettlementIndices,
    /// The protocol fee of a match-settlement statement differs from the configured fee
    InvalidProtocolFee,
    /// The protocol key of an offline fee settlement differs from the configured key
    InvalidProtocolPubkey,
    /// The verifier or the key store could not be reached, or answered in an unexpected shape
    VerifierUnavailable,
    /// The nullifier was already spent
    NullifierSpent,
    /// The public blinder was already used by a committed wallet
    BlinderReused,
    /// The cited Merkle root is not in the root history
    StaleRoot,
    /// The tree refused the signature over a new wallet commitment
    InvalidSignature,
    /// A call into the tree, note or transfer module failed
    ExternalCallFailed,
    /// An integer does not denote a field element
    ScalarConversionFailed,
    /// Verification is switched off on a network other than the development network
    VerificationDisabled,
    /// A value could not be serialized into calldata
    CalldataSerialization,
    /// The run reached a question to an outside module that has no answer yet
    Unanswered,
}

/// Maps a failure to serialize a value into calldata to the engine's error.
pub fn map_calldata_ser_error<E>(_e: E) -> (r: CoreError)
    ensures
        r == CoreError::CalldataSerialization,
{
    CoreError::CalldataSerialization
}

} // verus!
