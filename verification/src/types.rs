//! Plain data carried by the escrow state machine: principals, amounts,
//! record and status types, the token port, errors, and event payloads.

use vstd::prelude::*;

verus! {

/// An opaque, already-authenticated principal identity.
pub type AccountId = u128;

/// An amount of the custodied asset, in its native scaled units.
pub type Balance = u128;

/// A point in time, in milliseconds.
pub type Timestamp = u64;

/// Lifecycle state of an escrow record.
///
/// `Completed` and `Cancelled` are terminal. `Disputed` freezes the record:
/// every operation that requires `Active` rejects it, and nothing resolves it.
#[derive(Clone, Copy, Debug, PartialEq, Eq, Structural)]
pub enum EscrowStatus {
    Active,
    Completed,
    Cancelled,
    Disputed,
}

/// One escrow record: who deposited, who is entitled, how much, and when it
/// was opened and expires.
#[derive(Clone, Copy, Debug, PartialEq, Eq, Structural)]
pub struct EscrowData {
    pub client: AccountId,
    pub provider: AccountId,
    pub amount: Balance,
    pub status: EscrowStatus,
    pub created_at: Timestamp,
    /// When this escrow becomes eligible for expiry processing.
    pub deadline: Timestamp,
}

/// How value is moved: through a PSP22 token contract at the given address,
/// or through a runtime asset with the given asset id.
#[derive(Clone, Copy, Debug, PartialEq, Eq, Structural)]
pub enum AssetTransferMode {
    PSP22Contract(AccountId),
    RuntimeAsset(u32),
}

/// Errors reported by a PSP22 token port.
#[derive(Clone, Debug, PartialEq, Eq)]
pub enum PSP22Error {
    InsufficientBalance,
    InsufficientAllowance,
    Custom(String),
}

/// The PSP22 token interface the state machine moves value through.
///
/// The host supplies the implementation; the state machine only decides,
/// from the values a port call returns, whether and how its own state moves.
/// Nothing is assumed about an implementation's behaviour.
pub trait PSP22 {
    fn total_supply(&self) -> Balance;

    fn balance_of(&self, owner: AccountId) -> Balance;

    fn allowance(&self, owner: AccountId, spender: AccountId) -> Balance;

    fn transfer(&mut self, to: AccountId, value: Balance, data: Vec<u8>) -> Result<(), PSP22Error>;

    fn transfer_from(
        &mut self,
        from: AccountId,
        to: AccountId,
        value: Balance,
        data: Vec<u8>,
    ) -> Result<(), PSP22Error>;

    fn approve(&mut self, spender: AccountId, value: Balance) -> Result<(), PSP22Error>;
}

/// Everything an escrow operation can fail with.
#[derive(Clone, Debug, PartialEq, Eq)]
pub enum EscrowError {
    NotAuthorized,
    EscrowNotFound,
    InvalidStatus,
    ContractPaused,
    InvalidAmount,
    InsufficientBalance,
    TransferFailed,
    TokenTransferFailed,
    InsufficientAllowance,
    PSP22Error(PSP22Error),
    EscrowExpired,
    InvalidTimelock,
    AlreadyDisputed,
    InvalidExtension,
}

impl From<PSP22Error> for EscrowError {
    fn from(error: PSP22Error) -> (r: Self) {
        EscrowError::PSP22Error(error)
    }
}

impl vstd::std_specs::convert::FromSpecImpl<PSP22Error> for EscrowError {
    open spec fn obeys_from_spec() -> bool {
        true
    }

    open spec fn from_spec(error: PSP22Error) -> Self {
        EscrowError::PSP22Error(error)
    }
}

/// Event payload: an escrow was opened.
#[derive(Clone, Copy, Debug, PartialEq, Eq, Structural)]
pub struct EscrowCreated {
    pub escrow_id: u32,
    pub client: AccountId,
    pub provider: AccountId,
    pub amount: Balance,
}

/// Event payload: an escrow was completed; `amount` is the provider payout.
#[derive(Clone, Copy, Debug, PartialEq, Eq, Structural)]
pub struct EscrowCompleted {
    pub escrow_id: u32,
    pub amount: Balance,
    pub fee: Balance,
}

/// Event payload: an escrow was cancelled by one of its parties.
#[derive(Clone, Copy, Debug, PartialEq, Eq, Structural)]
pub struct EscrowCancelled {
    pub escrow_id: u32,
}

/// Event payload: an expired escrow was processed and refunded in full.
#[derive(Clone, Copy, Debug, PartialEq, Eq, Structural)]
pub struct EscrowExpired {
    pub escrow_id: u32,
    pub client: AccountId,
    pub provider: AccountId,
    pub amount: Balance,
}

/// Event payload: cumulative volume crossed a boundary and the fee tier moved.
#[derive(Clone, Copy, Debug, PartialEq, Eq, Structural)]
pub struct FeeTierChanged {
    pub new_tier: u8,
    pub new_fee_bps: u16,
    pub total_volume: Balance,
}

/// Event payload: a party flagged an escrow as disputed.
#[derive(Clone, Debug, PartialEq, Eq)]
pub struct EscrowDisputed {
    pub escrow_id: u32,
    pub flagged_by: AccountId,
    pub reason: String,
}

/// Event payload: a party asked to move the deadline.
#[derive(Clone, Debug, PartialEq, Eq)]
pub struct DeadlineExtensionRequested {
    pub escrow_id: u32,
    pub requested_by: AccountId,
    pub new_deadline: Timestamp,
    pub reason: String,
}

/// Event payload: the counter-party approved a deadline extension.
#[derive(Clone, Copy, Debug, PartialEq, Eq, Structural)]
pub struct DeadlineExtended {
    pub escrow_id: u32,
    pub old_deadline: Timestamp,
    pub new_deadline: Timestamp,
}

/// One entry of the contract's event log.
#[derive(Clone, Debug, PartialEq, Eq)]
pub enum EscrowEvent {
    Created(EscrowCreated),
    Completed(EscrowCompleted),
    Cancelled(EscrowCancelled),
    Expired(EscrowExpired),
    TierChanged(FeeTierChanged),
    Disputed(EscrowDisputed),
    ExtensionRequested(DeadlineExtensionRequested),
    Extended(DeadlineExtended),
}

} // verus!
