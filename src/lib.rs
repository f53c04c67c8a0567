//! A capped-supply asset under single-admin control, and a two-party escrow for it whose
//! vaults are signed for by program-derived addresses rather than private keys.
//!
//! Each operation takes the plain values of the accounts it names, checks them, updates
//! the records, and returns the one token ledger instruction to perform and the
//! notification to emit after it.

pub mod address;
pub mod authority;
pub mod contexts;
pub mod escrow;
pub mod ledger;
pub mod registry;
pub mod state;

pub use address::Address;
pub use authority::{Derivation, DerivedAuthority};
pub use contexts::{
    BurnTokenCtx, CancelEscrow, CreateEscrow, Initialize, InitializeGlobalState, MintToken,
    RedeemGold, ReleaseEscrow, TransferTokenCtx,
};
pub use escrow::{cancel_escrow, create_escrow, release_escrow};
pub use ledger::{Authority, Effects, Instruction, TokenAccountInfo};
pub use registry::{
    burn_token, initialize, initialize_global_state, mint_rwa_token, transfer_rwa_token, MintSetup,
};
pub use state::{
    CustomError, EscrowAccount, EscrowCancelledEvent, EscrowCreatedEvent, EscrowReleasedEvent,
    EscrowState, Event, GlobalState, MintEvent, RedeemEvent, TransferEvent, TOKEN_DECIMALS,
};
