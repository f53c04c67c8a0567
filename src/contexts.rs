use vstd::prelude::*;

use crate::address::Address;
use crate::ledger::TokenAccountInfo;
use crate::state::{EscrowAccount, GlobalState};

verus! {

/// Accounts for setting up the asset's mint.
#[derive(Clone, Copy, Debug)]
pub struct Initialize {
    pub program_id: Address,
    pub payer: Address,
    pub mint: Address,
}

/// Accounts for creating the registry; `global_state` is `None` until it exists.
#[derive(Clone, Copy, Debug)]
pub struct InitializeGlobalState {
    pub admin: Address,
    pub global_state: Option<GlobalState>,
}

/// Accounts for minting; `admin` is the signer.
#[derive(Clone, Copy, Debug)]
pub struct MintToken {
    pub program_id: Address,
    pub admin: Address,
    pub mint: Address,
    pub recipient_token_account: TokenAccountInfo,
    pub global_state: GlobalState,
}

/// Accounts for a transfer; `authority` is the signer.
#[derive(Clone, Copy, Debug)]
pub struct TransferTokenCtx {
    pub from: TokenAccountInfo,
    pub to: TokenAccountInfo,
    pub authority: Address,
    pub global_state: GlobalState,
}

/// Accounts for a burn; `authority` is the signer.
#[derive(Clone, Copy, Debug)]
pub struct BurnTokenCtx {
    pub mint: Address,
    pub token_account: Address,
    pub authority: Address,
}

/// Accounts for a redemption; `user` is the signer.
#[derive(Clone, Copy, Debug)]
pub struct RedeemGold {
    pub user: Address,
    pub mint: Address,
    pub user_token_account: TokenAccountInfo,
    pub global_state: GlobalState,
}

/// Accounts for opening an escrow; `depositor` is the signer. `escrow_key` names the
/// record's account and `escrow_account` is what it holds, `None` while it is free.
#[derive(Clone, Copy, Debug)]
pub struct CreateEscrow {
    pub program_id: Address,
    pub depositor: Address,
    pub depositor_token_account: Address,
    pub vault_token_account: Address,
    pub escrow_key: Address,
    pub escrow_account: Option<EscrowAccount>,
}

/// Accounts for releasing an escrow to its beneficiary; `signer` is the caller.
#[derive(Clone, Copy, Debug)]
pub struct ReleaseEscrow {
    pub program_id: Address,
    pub signer: Address,
    pub escrow_key: Address,
    pub escrow_account: EscrowAccount,
    pub vault_token_account: Address,
    pub beneficiary_token_account: Address,
}

/// Accounts for returning an escrow to its depositor; `signer` is the caller.
#[derive(Clone, Copy, Debug)]
pub struct CancelEscrow {
    pub program_id: Address,
    pub signer: Address,
    pub escrow_key: Address,
    pub escrow_account: EscrowAccount,
    pub vault_token_account: Address,
    pub depositor_token_account: Address,
}

} // verus!
