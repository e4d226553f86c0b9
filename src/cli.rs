//! The arguments of the deployment and key-generation commands, and their errors.

use vstd::prelude::*;

verus! {

/// Scripts for deploying and upgrading the contracts.
pub struct Cli {
    /// Private key of the deployer
    pub priv_key: String,
    /// Network RPC URL
    pub rpc_url: String,
    /// Path to a `deployments.json` file
    pub deployments_path: String,
    /// The command to run
    pub command: Command,
}

/// The commands.
pub enum Command {
    /// Deploy all the testing contracts (includes generating testing verification keys)
    DeployTestContracts(DeployTestContractsArgs),
    /// Deploy the `TransparentUpgradeableProxy` and `ProxyAdmin` contracts
    DeployProxy(DeployProxyArgs),
    /// Deploy a Stylus contract
    DeployStylus(DeployStylusArgs),
    /// Deploy dummy ERC20s
    DeployErc20s(DeployErc20sArgs),
    /// Upgrade the darkpool implementation
    Upgrade(UpgradeArgs),
    /// Generate a structured reference string
    GenSrs(GenSrsArgs),
    /// Generate verification keys for the protocol circuits
    GenVkeys(GenVkeysArgs),
}

/// Deploy all the testing contracts (includes generating testing verification keys).
pub struct DeployTestContractsArgs {
    /// Owner of the proxy admin contract and of the darkpool contract
    pub owner: String,
    /// Initial protocol fee, a fixed-point fraction of trade volume
    pub fee: u64,
    /// Whether proof and signature verification is switched off
    pub verification_disabled: bool,
    /// Path to the file holding the SRS
    pub srs_path: String,
    /// Directory to write the testing verification keys to
    pub vkeys_dir: String,
}

/// Deploy the darkpool's upgradeable proxy contract.
pub struct DeployProxyArgs {
    /// Owner of the proxy admin contract and of the darkpool contract
    pub owner: String,
    /// Initial protocol fee, a fixed-point fraction of trade volume
    pub fee: u64,
}

/// Deploy a Stylus contract.
#[derive(Clone, Copy, Debug, PartialEq, Eq, Structural)]
pub struct DeployStylusArgs {
    /// The contract to deploy
    pub contract: StylusContract,
    /// Whether proof and signature verification is switched off
    pub verification_disabled: bool,
}

/// The Stylus contracts that can be deployed.
#[derive(Clone, Copy, Debug, PartialEq, Eq, Structural)]
pub enum StylusContract {
    Darkpool,
    DarkpoolTestContract,
    Merkle,
    MerkleTestContract,
    Verifier,
    Vkeys,
    TestVkeys,
    DummyErc20,
    DummyUpgradeTarget,
    PrecompileTestContract,
}

/// The name a Stylus contract is built and deployed under.
pub open spec fn stylus_contract_name(c: StylusContract) -> Seq<char> {
    match c {
        StylusContract::Darkpool => "darkpool"@,
        StylusContract::DarkpoolTestContract => "darkpool-test-contract"@,
        StylusContract::Merkle => "merkle"@,
        StylusContract::MerkleTestContract => "merkle-test-contract"@,
        StylusContract::Verifier => "verifier"@,
        StylusContract::Vkeys => "vkeys"@,
        StylusContract::TestVkeys => "test-vkeys"@,
        StylusContract::DummyErc20 => "dummy-erc20"@,
        StylusContract::DummyUpgradeTarget => "dummy-upgrade-target"@,
        StylusContract::PrecompileTestContract => "precompile-test-contract"@,
    }
}

impl StylusContract {
    /// The name this contract is built and deployed under.
    pub fn name(&self) -> (r: &'static str)
        ensures
            r@ == stylus_contract_name(*self),
    {
        match self {
            StylusContract::Darkpool => "darkpool",
            StylusContract::DarkpoolTestContract => "darkpool-test-contract",
            StylusContract::Merkle => "merkle",
            StylusContract::MerkleTestContract => "merkle-test-contract",
            StylusContract::Verifier => "verifier",
            StylusContract::Vkeys => "vkeys",
            StylusContract::TestVkeys => "test-vkeys",
            StylusContract::DummyErc20 => "dummy-erc20",
            StylusContract::DummyUpgradeTarget => "dummy-upgrade-target",
            StylusContract::PrecompileTestContract => "precompile-test-contract",
        }
    }
}

/// Deploy dummy ERC20s; the darkpool contract must already be deployed.
pub struct DeployErc20sArgs {
    /// Tickers of the ERC20s to deploy
    pub tickers: Vec<String>,
    /// Private keys of the accounts for which the darkpool is approved to transfer ERC20s
    pub approval_skeys: Vec<String>,
}

/// Upgrade the darkpool implementation.
pub struct UpgradeArgs {
    /// Calldata, in hex, to call the implementation contract with when upgrading
    pub calldata: Option<String>,
}

/// Generate an SRS for proving and verification keys.
pub struct GenSrsArgs {
    /// Path to write the serialized SRS to
    pub srs_path: String,
    /// Degree of the SRS
    pub degree: usize,
}

/// Generate verification keys for the circuits.
pub struct GenVkeysArgs {
    /// Path to the file holding the SRS
    pub srs_path: String,
    /// Directory to write the verification keys to
    pub vkeys_dir: String,
    /// Whether to create testing verification keys
    pub test: bool,
}

/// Errors of the deployment and key-generation commands.
#[derive(Clone, Debug, PartialEq, Eq)]
pub enum ScriptError {
    /// Error reading from the deployments file
    ReadFile(String),
    /// Error writing to the deployments file
    WriteFile(String),
    /// Error parsing a Solidity compilation artifact
    ArtifactParsing(String),
    /// Error initializing the RPC client
    ClientInitialization(String),
    /// Error fetching the nonce of the deployer
    NonceFetching(String),
    /// Error constructing calldata for a contract method
    CalldataConstruction(String),
    /// Error deploying a contract
    ContractDeployment(String),
    /// Error calling a contract method
    ContractInteraction(String),
    /// Error compiling a Stylus contract
    ContractCompilation(String),
    /// Error de/serializing calldata
    Serde(String),
    /// Error converting between relayer and contract types
    ConversionError,
    /// Error creating a circuit
    CircuitCreation,
    /// Error parsing the protocol public encryption key
    PubkeyParsing(String),
}

/// What an error's message starts with.
pub open spec fn script_error_summary(e: ScriptError) -> Seq<char> {
    match e {
        ScriptError::ReadFile(_) => "error reading deployments"@,
        ScriptError::WriteFile(_) => "error writing deployments"@,
        ScriptError::ArtifactParsing(_) => "error parsing artifact"@,
        ScriptError::ClientInitialization(_) => "error initializing client"@,
        ScriptError::NonceFetching(_) => "error fetching nonce"@,
        ScriptError::CalldataConstruction(_) => "error constructing calldata"@,
        ScriptError::ContractDeployment(_) => "error deploying contract"@,
        ScriptError::ContractInteraction(_) => "error interacting with contract"@,
        ScriptError::ContractCompilation(_) => "error compiling contract"@,
        ScriptError::Serde(_) => "error de/serializing calldata"@,
        ScriptError::ConversionError => "error converting between types"@,
        ScriptError::CircuitCreation => "error creating circuit"@,
        ScriptError::PubkeyParsing(_) => "error parsing protocol pubkey"@,
    }
}

impl ScriptError {
    /// What the error's message starts with; the detail, if any, follows it after a colon.
    pub fn summary(&self) -> (r: &'static str)
        ensures
            r@ == script_error_summary(*self),
    {
        match self {
            ScriptError::ReadFile(_) => "error reading deployments",
            ScriptError::WriteFile(_) => "error writing deployments",
            ScriptError::ArtifactParsing(_) => "error parsing artifact",
            ScriptError::ClientInitialization(_) => "error initializing client",
            ScriptError::NonceFetching(_) => "error fetching nonce",
            ScriptError::CalldataConstruction(_) => "error constructing calldata",
            ScriptError::ContractDeployment(_) => "error deploying contract",
            ScriptError::ContractInteraction(_) => "error interacting with contract",
            ScriptError::ContractCompilation(_) => "error compiling contract",
            ScriptError::Serde(_) => "error de/serializing calldata",
            ScriptError::ConversionError => "error converting between types",
            ScriptError::CircuitCreation => "error creating circuit",
            ScriptError::PubkeyParsing(_) => "error parsing protocol pubkey",
        }
    }

    /// The detail the error carries, if any.
    pub fn detail(&self) -> (r: Option<&String>)
        ensures
            match *self {
                ScriptError::ConversionError | ScriptError::CircuitCreation => r is None,
                ScriptError::ReadFile(s) | ScriptError::WriteFile(s) | ScriptError::ArtifactParsing(s)
                | ScriptError::ClientInitialization(s) | ScriptError::NonceFetching(s)
                | ScriptError::CalldataConstruction(s) | ScriptError::ContractDeployment(s)
                | ScriptError::ContractInteraction(s) | ScriptError::ContractCompilation(s)
                | ScriptError::Serde(s) | ScriptError::PubkeyParsing(s) => r == Some(&s),
            },
    {
        match self {
            ScriptError::ReadFile(s) | ScriptError::WriteFile(s) | ScriptError::ArtifactParsing(s)
            | ScriptError::ClientInitialization(s) | ScriptError::NonceFetching(s)
            | ScriptError::CalldataConstruction(s) | ScriptError::ContractDeployment(s)
            | ScriptError::ContractInteraction(s) | ScriptError::ContractCompilation(s)
            | ScriptError::Serde(s) | ScriptError::PubkeyParsing(s) => Some(s),
            ScriptError::ConversionError | ScriptError::CircuitCreation => None,
        }
    }
}

} // verus!
