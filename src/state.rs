use vstd::prelude::*;

use crate::address::Address;

verus! {

/// Decimal places of the issued asset.
pub const TOKEN_DECIMALS: u8 = 6;

/// The singleton registry of the issued asset.
#[derive(Clone, Copy, Debug)]
pub struct GlobalState {
    pub admin: Address,
    pub max_supply: u64,
    pub total_supply: u64,
    pub paused: bool,
}

impl GlobalState {
    /// The supply cap holds.
    pub open spec fn wf(&self) -> bool {
        self.total_supply <= self.max_supply
    }

    /// The registry as it stands right after setup.
    pub open spec fn fresh(admin: Address, max_supply: u64) -> GlobalState {
        GlobalState { admin, max_supply, total_supply: 0, paused: false }
    }
}

/// Failures of the program's own checks.
#[derive(Clone, Copy, Debug, PartialEq, Eq, Structural)]
pub enum CustomError {
    /// The caller lacks the required identity.
    Unauthorized,
    /// Minting would take the supply past its cap.
    SupplyExceeded,
    /// Transfers are paused.
    TransfersPaused,
    /// An unsigned addition would wrap.
    MathOverflow,
    /// Release or cancel on an escrow that is no longer active.
    EscrowNotActive,
    /// A record already exists where a new one was to be created.
    AccountInUse,
    /// No program address can be derived from the seeds.
    DerivationFailed,
    /// The account named does not stand at the address its seeds derive.
    AddressMismatch,
}

impl CustomError {
    /// The message reported for this failure.
    pub fn message(&self) -> (r: &'static str) {
        match self {
            CustomError::Unauthorized => "You are not authorized to perform this action",
            CustomError::SupplyExceeded => "Minting this amount would exceed the maximum supply cap",
            CustomError::TransfersPaused => "Token transfers are currently paused",
            CustomError::MathOverflow => "Math overflow",
            CustomError::EscrowNotActive => "Escrow is not active",
            CustomError::AccountInUse => "Account is already in use",
            CustomError::DerivationFailed => "No viable program address for these seeds",
            CustomError::AddressMismatch => "Account does not match its derived address",
        }
    }
}

/// Lifecycle of an escrow: `Active` until it is released or cancelled.
#[derive(Clone, Copy, Debug, PartialEq, Eq, Structural)]
pub enum EscrowState {
    Active,
    Released,
    Cancelled,
}

/// An escrow between a depositor and a beneficiary.
#[derive(Clone, Copy, Debug)]
pub struct EscrowAccount {
    pub depositor: Address,
    pub beneficiary: Address,
    pub amount: u64,
    pub state: EscrowState,
    pub bump: u8,
}

#[derive(Clone, Copy, Debug)]
pub struct MintEvent {
    pub recipient: Address,
    pub amount: u64,
    pub timestamp: i64,
}

#[derive(Clone, Copy, Debug)]
pub struct TransferEvent {
    pub from: Address,
    pub to: Address,
    pub amount: u64,
    pub timestamp: i64,
}

#[derive(Clone, Copy, Debug)]
pub struct RedeemEvent {
    pub user: Address,
    pub amount: u64,
    pub timestamp: i64,
}

#[derive(Clone, Copy, Debug)]
pub struct EscrowCreatedEvent {
    pub depositor: Address,
    pub beneficiary: Address,
    pub amount: u64,
}

#[derive(Clone, Copy, Debug)]
pub struct EscrowReleasedEvent {
    pub depositor: Address,
    pub beneficiary: Address,
    pub amount: u64,
}

#[derive(Clone, Copy, Debug)]
pub struct EscrowCancelledEvent {
    pub depositor: Address,
    pub beneficiary: Address,
    pub amount: u64,
}

/// A notification emitted after the state change it describes.
#[derive(Clone, Copy, Debug)]
pub enum Event {
    Mint(MintEvent),
    Transfer(TransferEvent),
    EscrowCreated(EscrowCreatedEvent),
    EscrowReleased(EscrowReleasedEvent),
    EscrowCancelled(EscrowCancelledEvent),
}

} // verus!
