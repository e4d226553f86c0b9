use darkpool::cli::{ScriptError, StylusContract};

#[test]
fn stylus_contract_names() {
    assert_eq!(StylusContract::Darkpool.name(), "darkpool");
    assert_eq!(StylusContract::DarkpoolTestContract.name(), "darkpool-test-contract");
    assert_eq!(StylusContract::Merkle.name(), "merkle");
    assert_eq!(StylusContract::MerkleTestContract.name(), "merkle-test-contract");
    assert_eq!(StylusContract::Verifier.name(), "verifier");
    assert_eq!(StylusContract::Vkeys.name(), "vkeys");
    assert_eq!(StylusContract::TestVkeys.name(), "test-vkeys");
    assert_eq!(StylusContract::DummyErc20.name(), "dummy-erc20");
    assert_eq!(StylusContract::DummyUpgradeTarget.name(), "dummy-upgrade-target");
    assert_eq!(StylusContract::PrecompileTestContract.name(), "precompile-test-contract");
}

#[test]
fn script_error_summaries_and_details() {
    let e = ScriptError::ReadFile("missing".to_string());
    assert_eq!(e.summary(), "error reading deployments");
    assert_eq!(e.detail(), Some(&"missing".to_string()));
    let e = ScriptError::ContractInteraction("reverted".to_string());
    assert_eq!(e.summary(), "error interacting with contract");
    assert_eq!(ScriptError::ConversionError.summary(), "error converting between types");
    assert_eq!(ScriptError::ConversionError.detail(), None);
    assert_eq!(ScriptError::CircuitCreation.summary(), "error creating circuit");
    assert_eq!(ScriptError::PubkeyParsing("x".to_string()).summary(), "error parsing protocol pubkey");
}
