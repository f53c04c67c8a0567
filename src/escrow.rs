use vstd::prelude::*;

use crate::address::Address;
use crate::authority::{
    find_authority, found_program_address, program_address, rederive_authority, AuthorityView,
    Derivation, DerivedAuthority,
};
use crate::contexts::{CancelEscrow, CreateEscrow, ReleaseEscrow};
use crate::ledger::{Authority, Effects, Instruction};
use crate::state::{
    CustomError, EscrowAccount, EscrowCancelledEvent, EscrowCreatedEvent, EscrowReleasedEvent,
    EscrowState, Event,
};

verus! {

/// The derivation of the escrow between these two participants.
pub open spec fn escrow_derivation(depositor: Address, beneficiary: Address) -> Derivation {
    Derivation::Escrow { depositor, beneficiary }
}

/// The check that release and cancel make before anything else: only the depositor
/// settles an escrow, and only while it is active.
pub open spec fn settle_guard(e: EscrowAccount, signer: Address) -> Option<CustomError> {
    if signer != e.depositor {
        Some(CustomError::Unauthorized)
    } else if e.state != EscrowState::Active {
        Some(CustomError::EscrowNotActive)
    } else {
        None
    }
}

/// The record once it has reached `state`.
pub open spec fn settled(e: EscrowAccount, state: EscrowState) -> EscrowAccount {
    EscrowAccount { state, ..e }
}

/// The address that the record's stored bump derives, if any.
pub open spec fn rederived_address(program_id: Address, e: EscrowAccount) -> Option<[u8; 32]> {
    program_address(
        escrow_derivation(e.depositor, e.beneficiary).spec_seeds_with_bump(e.bump),
        program_id.bytes,
    )
}

/// The failure of a settlement of `e` at `escrow_key`, if it fails: the guard first,
/// then the re-derivation of the record's address from its stored bump.
pub open spec fn settle_failure(program_id: Address, signer: Address, escrow_key: Address, e: EscrowAccount) -> Option<
    CustomError,
> {
    match settle_guard(e, signer) {
        Some(err) => Some(err),
        None => match rederived_address(program_id, e) {
            None => Some(CustomError::DerivationFailed),
            Some(k) => if k != escrow_key.bytes {
                Some(CustomError::AddressMismatch)
            } else {
                None
            },
        },
    }
}

/// `fx` pays the whole locked amount out of the vault to `to`, signed by the escrow's
/// derived authority at `escrow_key`, and then reports `event`.
pub open spec fn is_payout(
    fx: Effects,
    e: EscrowAccount,
    escrow_key: Address,
    vault: Address,
    to: Address,
    event: Event,
) -> bool {
    &&& fx.instruction matches Instruction::Transfer { from: f, to: t, authority: Authority::Derived(a), amount: n }
    &&& f == vault
    &&& t == to
    &&& n == e.amount
    &&& a@ == (AuthorityView {
        derivation: escrow_derivation(e.depositor, e.beneficiary),
        address: escrow_key,
        bump: e.bump,
    })
    &&& fx.event == Some(event)
}

/// The effects of opening an escrow: the amount moves from the depositor's token
/// account to the vault on the depositor's signature, and the opening is reported.
pub open spec fn create_effects(ctx: CreateEscrow, beneficiary: Address, amount: u64) -> Effects {
    Effects {
        instruction: Instruction::Transfer {
            from: ctx.depositor_token_account,
            to: ctx.vault_token_account,
            authority: Authority::Signer(ctx.depositor),
            amount,
        },
        event: Some(
            Event::EscrowCreated(
                EscrowCreatedEvent { depositor: ctx.depositor, beneficiary, amount },
            ),
        ),
    }
}

/// Opens an escrow of `amount` from the signer to `beneficiary`. The record goes to the
/// address derived for the pair, which must be free.
pub fn create_escrow(ctx: &mut CreateEscrow, beneficiary: Address, amount: u64) -> (r: Result<
    Effects,
    CustomError,
>)
    ensures
        old(ctx).escrow_account is Some ==> r == Err::<Effects, CustomError>(
            CustomError::AccountInUse,
        ) && *final(ctx) == *old(ctx),
        old(ctx).escrow_account is None ==> match found_program_address(
            escrow_derivation(old(ctx).depositor, beneficiary).spec_seeds(),
            old(ctx).program_id.bytes,
        ) {
            None => r == Err::<Effects, CustomError>(CustomError::DerivationFailed) && *final(ctx)
                == *old(ctx),
            Some((k, b)) => if k != old(ctx).escrow_key.bytes {
                r == Err::<Effects, CustomError>(CustomError::AddressMismatch) && *final(ctx)
                    == *old(ctx)
            } else {
                &&& r == Ok::<Effects, CustomError>(create_effects(*old(ctx), beneficiary, amount))
                &&& *final(ctx) == (CreateEscrow {
                    escrow_account: Some(
                        EscrowAccount {
                            depositor: old(ctx).depositor,
                            beneficiary,
                            amount,
                            state: EscrowState::Active,
                            bump: b,
                        },
                    ),
                    ..*old(ctx)
                })
            },
        },
        r is Ok ==> (final(ctx).escrow_account matches Some(e) && rederived_address(
            old(ctx).program_id,
            e,
        ) == Some(old(ctx).escrow_key.bytes)),
{
    if ctx.escrow_account.is_some() {
        return Err(CustomError::AccountInUse);
    }
    let derivation = Derivation::Escrow { depositor: ctx.depositor, beneficiary };
    let auth = match find_authority(&ctx.program_id, derivation) {
        None => return Err(CustomError::DerivationFailed),
        Some(a) => a,
    };
    if !(auth.address() == ctx.escrow_key) {
        return Err(CustomError::AddressMismatch);
    }
    ctx.escrow_account = Some(
        EscrowAccount {
            depositor: ctx.depositor,
            beneficiary,
            amount,
            state: EscrowState::Active,
            bump: auth.bump(),
        },
    );
    let instruction = Instruction::Transfer {
        from: ctx.depositor_token_account,
        to: ctx.vault_token_account,
        authority: Authority::Signer(ctx.depositor),
        amount,
    };
    let event = EscrowCreatedEvent { depositor: ctx.depositor, beneficiary, amount };
    Ok(Effects { instruction, event: Some(Event::EscrowCreated(event)) })
}

/// Checks a settlement of `e` and re-derives the vault authority that signs it.
fn authorize_settlement(
    program_id: &Address,
    signer: &Address,
    escrow_key: &Address,
    e: &EscrowAccount,
) -> (r: Result<DerivedAuthority, CustomError>)
    ensures
        match settle_failure(*program_id, *signer, *escrow_key, *e) {
            Some(err) => r == Err::<DerivedAuthority, CustomError>(err),
            None => r matches Ok(a) && a@ == (AuthorityView {
                derivation: escrow_derivation(e.depositor, e.beneficiary),
                address: *escrow_key,
                bump: e.bump,
            }),
        },
{
    if !(*signer == e.depositor) {
        return Err(CustomError::Unauthorized);
    }
    if e.state != EscrowState::Active {
        return Err(CustomError::EscrowNotActive);
    }
    let derivation = Derivation::Escrow { depositor: e.depositor, beneficiary: e.beneficiary };
    match rederive_authority(program_id, derivation, e.bump) {
        None => Err(CustomError::DerivationFailed),
        Some(a) => {
            if !(a.address() == *escrow_key) {
                return Err(CustomError::AddressMismatch);
            }
            Ok(a)
        },
    }
}

/// Pays an active escrow out to its beneficiary, on the depositor's request, and marks
/// it released.
pub fn release_escrow(ctx: &mut ReleaseEscrow) -> (r: Result<Effects, CustomError>)
    ensures
        match settle_failure(
            old(ctx).program_id,
            old(ctx).signer,
            old(ctx).escrow_key,
            old(ctx).escrow_account,
        ) {
            Some(err) => r == Err::<Effects, CustomError>(err) && *final(ctx) == *old(ctx),
            None => {
                &&& *final(ctx) == (ReleaseEscrow {
                    escrow_account: settled(old(ctx).escrow_account, EscrowState::Released),
                    ..*old(ctx)
                })
                &&& r matches Ok(fx) && is_payout(
                    fx,
                    old(ctx).escrow_account,
                    old(ctx).escrow_key,
                    old(ctx).vault_token_account,
                    old(ctx).beneficiary_token_account,
                    Event::EscrowReleased(
                        EscrowReleasedEvent {
                            depositor: old(ctx).escrow_account.depositor,
                            beneficiary: old(ctx).escrow_account.beneficiary,
                            amount: old(ctx).escrow_account.amount,
                        },
                    ),
                )
            },
        },
{
    let auth = match authorize_settlement(
        &ctx.program_id,
        &ctx.signer,
        &ctx.escrow_key,
        &ctx.escrow_account,
    ) {
        Err(err) => return Err(err),
        Ok(a) => a,
    };
    let e = ctx.escrow_account;
    let instruction = Instruction::Transfer {
        from: ctx.vault_token_account,
        to: ctx.beneficiary_token_account,
        authority: Authority::Derived(auth),
        amount: e.amount,
    };
    ctx.escrow_account.state = EscrowState::Released;
    let event = EscrowReleasedEvent {
        depositor: e.depositor,
        beneficiary: e.beneficiary,
        amount: e.amount,
    };
    Ok(Effects { instruction, event: Some(Event::EscrowReleased(event)) })
}

/// Returns an active escrow to its depositor, on the depositor's request, and marks it
/// cancelled.
pub fn cancel_escrow(ctx: &mut CancelEscrow) -> (r: Result<Effects, CustomError>)
    ensures
        match settle_failure(
            old(ctx).program_id,
            old(ctx).signer,
            old(ctx).escrow_key,
            old(ctx).escrow_account,
        ) {
            Some(err) => r == Err::<Effects, CustomError>(err) && *final(ctx) == *old(ctx),
            None => {
                &&& *final(ctx) == (CancelEscrow {
                    escrow_account: settled(old(ctx).escrow_account, EscrowState::Cancelled),
                    ..*old(ctx)
                })
                &&& r matches Ok(fx) && is_payout(
                    fx,
                    old(ctx).escrow_account,
                    old(ctx).escrow_key,
                    old(ctx).vault_token_account,
                    old(ctx).depositor_token_account,
                    Event::EscrowCancelled(
                        EscrowCancelledEvent {
                            depositor: old(ctx).escrow_account.depositor,
                            beneficiary: old(ctx).escrow_account.beneficiary,
                            amount: old(ctx).escrow_account.amount,
                        },
                    ),
                )
            },
        },
{
    let auth = match authorize_settlement(
        &ctx.program_id,
        &ctx.signer,
        &ctx.escrow_key,
        &ctx.escrow_account,
    ) {
        Err(err) => return Err(err),
        Ok(a) => a,
    };
    let e = ctx.escrow_account;
    let instruction = Instruction::Transfer {
        from: ctx.vault_token_account,
        to: ctx.depositor_token_account,
        authority: Authority::Derived(auth),
        amount: e.amount,
    };
    ctx.escrow_account.state = EscrowState::Cancelled;
    let event = EscrowCancelledEvent {
        depositor: e.depositor,
        beneficiary: e.beneficiary,
        amount: e.amount,
    };
    Ok(Effects { instruction, event: Some(Event::EscrowCancelled(event)) })
}

/// Settlement is single-shot: once a settlement of `e` has gone through, whether as a
/// release or as a cancel, every further release or cancel of the record fails with
/// `EscrowNotActive` and pays nothing.
pub proof fn lemma_settle_exactly_once(
    program_id: Address,
    signer: Address,
    escrow_key: Address,
    e: EscrowAccount,
)
    requires
        settle_failure(program_id, signer, escrow_key, e) is None,
    ensures
        settle_failure(program_id, signer, escrow_key, settled(e, EscrowState::Released)) == Some(
            CustomError::EscrowNotActive,
        ),
        settle_failure(program_id, signer, escrow_key, settled(e, EscrowState::Cancelled)) == Some(
            CustomError::EscrowNotActive,
        ),
{
}

/// A released record cannot be cancelled by its depositor: the request fails with
/// `EscrowNotActive`.
pub proof fn lemma_released_not_cancellable(
    program_id: Address,
    escrow_key: Address,
    e: EscrowAccount,
)
    requires
        e.state == EscrowState::Released,
    ensures
        settle_failure(program_id, e.depositor, escrow_key, e) == Some(
            CustomError::EscrowNotActive,
        ),
{
}

/// Anyone but the depositor who asks to settle an escrow is refused with `Unauthorized`,
/// whatever state the record is in.
pub proof fn lemma_only_depositor_settles(
    program_id: Address,
    signer: Address,
    escrow_key: Address,
    e: EscrowAccount,
)
    requires
        signer != e.depositor,
    ensures
        settle_failure(program_id, signer, escrow_key, e) == Some(CustomError::Unauthorized),
{
}

/// A record that `create_escrow` has stored re-derives its own address from its bump, so
/// its depositor can settle it while it is active.
pub proof fn lemma_created_escrow_settles(
    program_id: Address,
    escrow_key: Address,
    e: EscrowAccount,
)
    requires
        rederived_address(program_id, e) == Some(escrow_key.bytes),
        e.state == EscrowState::Active,
    ensures
        settle_failure(program_id, e.depositor, escrow_key, e) is None,
{
}

} // verus!
