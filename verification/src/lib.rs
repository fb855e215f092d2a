//! A two-party, third-party-mediated escrow library.
//!
//! A client deposits value for a provider; either party can cancel, dispute,
//! or negotiate the deadline. The escrow lifecycle state machine, the
//! volume-tiered fee engine, the mutual-consent deadline-extension protocol,
//! and the expiry scanner are all verified. Value movement itself happens
//! through the [`types::PSP22`] token port, which the host implements.

pub mod contract;
pub mod fee;
pub mod laws;
pub mod types;

pub use contract::EscrowContract;
pub use contract::ExtensionRequest;
pub use types::AccountId;
pub use types::AssetTransferMode;
pub use types::Balance;
pub use types::DeadlineExtended;
pub use types::DeadlineExtensionRequested;
pub use types::EscrowCancelled;
pub use types::EscrowCompleted;
pub use types::EscrowCreated;
pub use types::EscrowData;
pub use types::EscrowDisputed;
pub use types::EscrowError;
pub use types::EscrowEvent;
pub use types::EscrowExpired;
pub use types::EscrowStatus;
pub use types::FeeTierChanged;
pub use types::PSP22;
pub use types::PSP22Error;
pub use types::Timestamp;
