use vstd::prelude::*;

use crate::address::Address;
use crate::authority::{find_authority, found_program_address, is_found_authority, Derivation, DerivedAuthority};
use crate::contexts::{BurnTokenCtx, Initialize, InitializeGlobalState, MintToken, TransferTokenCtx};
use crate::ledger::{Authority, Effects, Instruction};
use crate::state::{CustomError, Event, GlobalState, MintEvent, TransferEvent, TOKEN_DECIMALS};

verus! {

/// The asset's mint as set up: mint and freeze rights both go to the derived mint
/// authority.
#[derive(Clone, Copy, Debug)]
pub struct MintSetup {
    pub mint: Address,
    pub decimals: u8,
    pub mint_authority: DerivedAuthority,
}

/// Sets up the asset's mint under the program's mint authority.
pub fn initialize(ctx: &Initialize) -> (r: Result<MintSetup, CustomError>)
    ensures
        match found_program_address(Derivation::MintAuthority.spec_seeds(), ctx.program_id.bytes) {
            None => r == Err::<MintSetup, CustomError>(CustomError::DerivationFailed),
            Some(_) => r matches Ok(m) && m.mint == ctx.mint && m.decimals == TOKEN_DECIMALS
                && is_found_authority(m.mint_authority, ctx.program_id.bytes, Derivation::MintAuthority),
        },
{
    match find_authority(&ctx.program_id, Derivation::MintAuthority) {
        None => Err(CustomError::DerivationFailed),
        Some(a) => Ok(MintSetup { mint: ctx.mint, decimals: TOKEN_DECIMALS, mint_authority: a }),
    }
}

/// Creates the registry with the signer as admin, nothing issued and transfers open.
pub fn initialize_global_state(ctx: &mut InitializeGlobalState, max_supply: u64) -> (r: Result<
    (),
    CustomError,
>)
    ensures
        old(ctx).global_state is Some ==> r == Err::<(), CustomError>(CustomError::AccountInUse)
            && *final(ctx) == *old(ctx),
        old(ctx).global_state is None ==> r == Ok::<(), CustomError>(()) && final(ctx).admin
            == old(ctx).admin && final(ctx).global_state == Some(
            GlobalState::fresh(old(ctx).admin, max_supply),
        ),
        old(ctx).global_state is None ==> final(ctx).global_state.unwrap().wf(),
{
    if ctx.global_state.is_some() {
        return Err(CustomError::AccountInUse);
    }
    ctx.global_state = Some(
        GlobalState { admin: ctx.admin, max_supply, total_supply: 0, paused: false },
    );
    Ok(())
}

/// The registry after `caller` asks to mint `amount`, or the check that refuses it:
/// only the admin mints, the sum must not wrap, and it must stay within the cap.
pub open spec fn mint_transition(s: GlobalState, caller: Address, amount: u64) -> Result<
    GlobalState,
    CustomError,
> {
    if caller != s.admin {
        Err(CustomError::Unauthorized)
    } else if s.total_supply + amount > u64::MAX {
        Err(CustomError::MathOverflow)
    } else if s.total_supply + amount > s.max_supply {
        Err(CustomError::SupplyExceeded)
    } else {
        Ok(GlobalState { total_supply: (s.total_supply + amount) as u64, ..s })
    }
}

/// One mint request as the registry sees it: if it was accepted the registry moved by
/// `mint_transition`, and if not it stayed as it was.
pub open spec fn mint_step(
    s: GlobalState,
    caller: Address,
    amount: u64,
    accepted: bool,
    next: GlobalState,
) -> bool {
    if accepted {
        mint_transition(s, caller, amount) == Ok::<GlobalState, CustomError>(next)
    } else {
        next == s
    }
}

/// `fx` mints `amount` to the recipient's token account on the derived mint authority
/// and reports it.
pub open spec fn is_mint_effects(fx: Effects, ctx: MintToken, amount: u64, timestamp: i64) -> bool {
    &&& fx.event == Some(
        Event::Mint(MintEvent { recipient: ctx.recipient_token_account.owner, amount, timestamp }),
    )
    &&& fx.instruction matches Instruction::MintTo { mint, to, authority: Authority::Derived(a), amount: n }
    &&& mint == ctx.mint
    &&& to == ctx.recipient_token_account.key
    &&& n == amount
    &&& is_found_authority(a, ctx.program_id.bytes, Derivation::MintAuthority)
}

/// Mints `amount` to the recipient's token account, signed by the derived mint authority,
/// and counts it in the registry.
pub fn mint_rwa_token(ctx: &mut MintToken, amount: u64, timestamp: i64) -> (r: Result<
    Effects,
    CustomError,
>)
    ensures
        old(ctx).global_state.wf() ==> final(ctx).global_state.wf(),
        mint_step(
            old(ctx).global_state,
            old(ctx).admin,
            amount,
            r is Ok,
            final(ctx).global_state,
        ),
        match mint_transition(old(ctx).global_state, old(ctx).admin, amount) {
            Err(e) => r == Err::<Effects, CustomError>(e) && *final(ctx) == *old(ctx),
            Ok(next) => match found_program_address(
                Derivation::MintAuthority.spec_seeds(),
                old(ctx).program_id.bytes,
            ) {
                None => r == Err::<Effects, CustomError>(CustomError::DerivationFailed) && *final(ctx)
                    == *old(ctx),
                Some(_) => {
                    &&& *final(ctx) == (MintToken { global_state: next, ..*old(ctx) })
                    &&& r matches Ok(fx) && is_mint_effects(fx, *old(ctx), amount, timestamp)
                },
            },
        },
{
    let s = ctx.global_state;
    if !(ctx.admin == s.admin) {
        return Err(CustomError::Unauthorized);
    }
    let total = match s.total_supply.checked_add(amount) {
        None => return Err(CustomError::MathOverflow),
        Some(t) => t,
    };
    if total > s.max_supply {
        return Err(CustomError::SupplyExceeded);
    }
    let auth = match find_authority(&ctx.program_id, Derivation::MintAuthority) {
        None => return Err(CustomError::DerivationFailed),
        Some(a) => a,
    };
    let instruction = Instruction::MintTo {
        mint: ctx.mint,
        to: ctx.recipient_token_account.key,
        authority: Authority::Derived(auth),
        amount,
    };
    ctx.global_state.total_supply = total;
    let event = MintEvent { recipient: ctx.recipient_token_account.owner, amount, timestamp };
    Ok(Effects { instruction, event: Some(Event::Mint(event)) })
}

/// The sum of the amounts of the accepted requests; each request is a caller, an
/// amount and whether it was accepted.
pub open spec fn accepted_sum(requests: Seq<(Address, u64, bool)>) -> int
    decreases requests.len(),
{
    if requests.len() == 0 {
        0
    } else {
        let last = requests.last();
        accepted_sum(requests.drop_last()) + if last.2 {
            last.1 as int
        } else {
            0
        }
    }
}

/// Over any run of mint requests from a registry with nothing issued, where each request
/// moves the registry as `mint_rwa_token` does, the total supply after each request is
/// the sum of the amounts accepted so far and stays within the cap.
pub proof fn lemma_supply_is_sum_of_accepted_mints(
    states: Seq<GlobalState>,
    requests: Seq<(Address, u64, bool)>,
)
    requires
        states.len() == requests.len() + 1,
        states[0].total_supply == 0,
        forall|i: int|
            0 <= i < requests.len() ==> mint_step(
                #[trigger] states[i],
                requests[i].0,
                requests[i].1,
                requests[i].2,
                states[i + 1],
            ),
    ensures
        forall|i: int|
            0 <= i < states.len() ==> (#[trigger] states[i]).total_supply == accepted_sum(
                requests.take(i),
            ) && states[i].wf(),
{
    assert forall|i: int| 0 <= i < states.len() implies (#[trigger] states[i]).total_supply
        == accepted_sum(requests.take(i)) && states[i].wf() by {
        lemma_supply_prefix(states, requests, i);
    }
}

proof fn lemma_supply_prefix(states: Seq<GlobalState>, requests: Seq<(Address, u64, bool)>, i: int)
    requires
        states.len() == requests.len() + 1,
        states[0].total_supply == 0,
        forall|j: int|
            0 <= j < requests.len() ==> mint_step(
                #[trigger] states[j],
                requests[j].0,
                requests[j].1,
                requests[j].2,
                states[j + 1],
            ),
        0 <= i < states.len(),
    ensures
        states[i].total_supply == accepted_sum(requests.take(i)),
        states[i].wf(),
    decreases i,
{
    if i == 0 {
        assert(requests.take(0) =~= Seq::<(Address, u64, bool)>::empty());
    } else {
        lemma_supply_prefix(states, requests, i - 1);
        assert(requests.take(i).drop_last() =~= requests.take(i - 1));
        assert(mint_step(
            states[i - 1],
            requests[i - 1].0,
            requests[i - 1].1,
            requests[i - 1].2,
            states[i],
        ));
    }
}

/// A mint by the admin whose sum fits in 64 bits but passes the cap is refused with
/// `SupplyExceeded`, and the registry keeps its total.
pub proof fn lemma_mint_over_cap_refused(s: GlobalState, amount: u64)
    requires
        s.total_supply + amount <= u64::MAX,
        s.total_supply + amount > s.max_supply,
    ensures
        mint_transition(s, s.admin, amount) == Err::<GlobalState, CustomError>(
            CustomError::SupplyExceeded,
        ),
        forall|next: GlobalState| #[trigger]
            mint_step(s, s.admin, amount, false, next) ==> next.total_supply == s.total_supply,
        forall|next: GlobalState| !#[trigger] mint_step(s, s.admin, amount, true, next),
{
}

/// A mint of the largest amount by the admin on a registry that has issued anything is
/// refused with `MathOverflow`; the sum does not wrap.
pub proof fn lemma_mint_max_overflows(s: GlobalState)
    requires
        s.total_supply > 0,
    ensures
        mint_transition(s, s.admin, u64::MAX) == Err::<GlobalState, CustomError>(
            CustomError::MathOverflow,
        ),
{
}

/// The effects of an accepted transfer.
pub open spec fn transfer_effects(ctx: TransferTokenCtx, amount: u64, timestamp: i64) -> Effects {
    Effects {
        instruction: Instruction::Transfer {
            from: ctx.from.key,
            to: ctx.to.key,
            authority: Authority::Signer(ctx.authority),
            amount,
        },
        event: Some(
            Event::Transfer(
                TransferEvent { from: ctx.from.owner, to: ctx.to.owner, amount, timestamp },
            ),
        ),
    }
}

/// Moves `amount` between token accounts on the signer's authority, unless transfers
/// are paused.
pub fn transfer_rwa_token(ctx: &TransferTokenCtx, amount: u64, timestamp: i64) -> (r: Result<
    Effects,
    CustomError,
>)
    ensures
        ctx.global_state.paused ==> r == Err::<Effects, CustomError>(CustomError::TransfersPaused),
        !ctx.global_state.paused ==> r == Ok::<Effects, CustomError>(
            transfer_effects(*ctx, amount, timestamp),
        ),
{
    if ctx.global_state.paused {
        return Err(CustomError::TransfersPaused);
    }
    let instruction = Instruction::Transfer {
        from: ctx.from.key,
        to: ctx.to.key,
        authority: Authority::Signer(ctx.authority),
        amount,
    };
    let event = TransferEvent { from: ctx.from.owner, to: ctx.to.owner, amount, timestamp };
    Ok(Effects { instruction, event: Some(Event::Transfer(event)) })
}

/// Burns `amount` from a token account on the signer's authority. The registry's
/// total supply is left as it is.
pub fn burn_token(ctx: &BurnTokenCtx, amount: u64) -> (r: Effects)
    ensures
        r == (Effects {
            instruction: Instruction::Burn {
                mint: ctx.mint,
                from: ctx.token_account,
                authority: Authority::Signer(ctx.authority),
                amount,
            },
            event: None,
        }),
{
    let instruction = Instruction::Burn {
        mint: ctx.mint,
        from: ctx.token_account,
        authority: Authority::Signer(ctx.authority),
        amount,
    };
    Effects { instruction, event: None }
}

} // verus!
