use vstd::prelude::*;

use crate::address::Address;
use crate::authority::DerivedAuthority;
use crate::state::Event;

verus! {

/// A token account as the program reads it: where it is and whom it belongs to.
#[derive(Clone, Copy, Debug)]
pub struct TokenAccountInfo {
    pub key: Address,
    pub owner: Address,
}

/// Who authorizes a token ledger instruction.
#[derive(Clone, Copy, Debug)]
pub enum Authority {
    /// The caller, by its own signature.
    Signer(Address),
    /// The program, signing as one of its derived addresses.
    Derived(DerivedAuthority),
}

/// An instruction for the external token ledger.
#[derive(Clone, Copy, Debug)]
pub enum Instruction {
    MintTo { mint: Address, to: Address, authority: Authority, amount: u64 },
    Transfer { from: Address, to: Address, authority: Authority, amount: u64 },
    Burn { mint: Address, from: Address, authority: Authority, amount: u64 },
}

/// What an accepted operation asks of the outside world: one ledger instruction, then
/// at most one notification. Both belong to the operation, which commits or fails whole.
#[derive(Clone, Copy, Debug)]
pub struct Effects {
    pub instruction: Instruction,
    pub event: Option<Event>,
}

} // verus!
