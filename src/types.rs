use vstd::prelude::*;

verus! {

/// A 32-byte account identity, held as two 128-bit halves.
#[derive(Clone, Copy, Debug, PartialEq, Eq, Structural, Hash)]
pub struct Pubkey {
    pub hi: u128,
    pub lo: u128,
}

/// The singleton configuration: who administers the node registry and how long
/// a withdrawal claim stays open to challenges.
#[derive(Clone, Copy, Debug, PartialEq, Eq, Structural)]
pub struct VaultConfig {
    pub admin: Pubkey,
    pub challenge_period: i64,
}

/// A participant of the attestation committee and whether it currently counts.
#[derive(Clone, Copy, Debug, PartialEq, Eq, Structural)]
pub struct NodeEntry {
    pub authority: Pubkey,
    pub is_active: bool,
}

/// A pending withdrawal claim; it is payable from `expiration` on.
#[derive(Clone, Copy, Debug, PartialEq, Eq, Structural)]
pub struct WithdrawalRequest {
    pub wallet: Pubkey,
    pub token: Pubkey,
    pub amount: u64,
    pub height: u64,
    pub expiration: i64,
}

/// A signed attestation of a wallet's balance at a given height.
#[derive(Clone, Debug)]
pub struct State {
    pub wallet: Pubkey,
    pub token: Pubkey,
    pub height: u64,
    pub balance: u64,
    pub participants: Vec<Pubkey>,
    pub sigs: Vec<Vec<u8>>,
}

/// Accounts of the `initialize` instruction.
#[derive(Clone, Copy, Debug)]
pub struct Initialize {
    pub admin: Pubkey,
}

/// Accounts of the `set_node_status` instruction.
#[derive(Clone, Copy, Debug)]
pub struct SetNodeStatus {
    pub admin: Pubkey,
    pub node_authority: Pubkey,
}

/// Accounts of the `deposit` instruction.
#[derive(Clone, Copy, Debug)]
pub struct Deposit {
    pub user: Pubkey,
    pub mint: Pubkey,
}

/// Accounts of the `request` instruction, with the clock reading it runs at.
#[derive(Clone, Copy, Debug)]
pub struct Request {
    pub user: Pubkey,
    pub now: i64,
}

/// Accounts of the `challenge` instruction.
#[derive(Clone, Copy, Debug)]
pub struct Challenge {
    pub challenger: Pubkey,
}

/// Accounts of the `withdraw` instruction, with the clock reading it runs at.
#[derive(Clone, Copy, Debug)]
pub struct Withdraw {
    pub user: Pubkey,
    pub now: i64,
}

/// Emitted when tokens enter the vault.
#[derive(Clone, Copy, Debug, PartialEq, Eq, Structural)]
pub struct Deposited {
    pub wallet: Pubkey,
    pub token: Pubkey,
    pub amount: u64,
}

/// Emitted when a withdrawal claim is opened.
#[derive(Clone, Copy, Debug, PartialEq, Eq, Structural)]
pub struct Requested {
    pub wallet: Pubkey,
    pub token: Pubkey,
    pub amount: u64,
}

/// Emitted with `Requested`: the challenge window is open until `expiration`.
#[derive(Clone, Copy, Debug, PartialEq, Eq, Structural)]
pub struct Challenged {
    pub wallet: Pubkey,
    pub height: u64,
    pub expiration: i64,
}

/// Emitted when a newer attestation rejects a pending claim.
#[derive(Clone, Copy, Debug, PartialEq, Eq, Structural)]
pub struct Rejected {
    pub wallet: Pubkey,
    pub token: Pubkey,
    pub amount: u64,
}

/// Emitted when a claim is paid out.
#[derive(Clone, Copy, Debug, PartialEq, Eq, Structural)]
pub struct Withdrawn {
    pub wallet: Pubkey,
    pub token: Pubkey,
    pub amount: u64,
}

#[derive(Clone, Copy, Debug, PartialEq, Eq, Structural)]
pub enum ClearnetError {
    AlreadyInitialized,
    NotInitialized,
    NotAdmin,
    InsufficientAttestedBalance,
    RequestAlreadyPending,
    QuorumVerificationFailed,
    InvalidClock,
    NoPendingRequest,
    CandidateNotNewer,
    UnauthorizedChallenger,
    ChallengePeriodNotExpired,
    StateMismatch,
    InsufficientVaultBalance,
    BalanceOverflow,
}

/// The challenge period a fresh configuration starts with, in seconds.
pub const DEFAULT_CHALLENGE_PERIOD: i64 = 600;

} // verus!
