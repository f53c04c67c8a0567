use rwa_contract::authority::find_authority;
use rwa_contract::{
    cancel_escrow, create_escrow, release_escrow, Address, Authority, CancelEscrow, CreateEscrow,
    CustomError, Derivation, EscrowAccount, EscrowState, Event, Instruction, ReleaseEscrow,
};

fn addr(b: u8) -> Address {
    Address::new([b; 32])
}

const PROGRAM: u8 = 9;
const DEPOSITOR: u8 = 1;
const BENEFICIARY: u8 = 2;

fn escrow_key(d: u8, b: u8) -> Address {
    let derivation = Derivation::Escrow { depositor: addr(d), beneficiary: addr(b) };
    find_authority(&addr(PROGRAM), derivation).unwrap().address()
}

fn create_ctx() -> CreateEscrow {
    CreateEscrow {
        program_id: addr(PROGRAM),
        depositor: addr(DEPOSITOR),
        depositor_token_account: addr(21),
        vault_token_account: addr(22),
        escrow_key: escrow_key(DEPOSITOR, BENEFICIARY),
        escrow_account: None,
    }
}

fn created_record(amount: u64) -> EscrowAccount {
    let mut ctx = create_ctx();
    create_escrow(&mut ctx, addr(BENEFICIARY), amount).unwrap();
    ctx.escrow_account.unwrap()
}

fn release_ctx(signer: u8, record: EscrowAccount) -> ReleaseEscrow {
    ReleaseEscrow {
        program_id: addr(PROGRAM),
        signer: addr(signer),
        escrow_key: escrow_key(DEPOSITOR, BENEFICIARY),
        escrow_account: record,
        vault_token_account: addr(22),
        beneficiary_token_account: addr(23),
    }
}

fn cancel_ctx(signer: u8, record: EscrowAccount) -> CancelEscrow {
    CancelEscrow {
        program_id: addr(PROGRAM),
        signer: addr(signer),
        escrow_key: escrow_key(DEPOSITOR, BENEFICIARY),
        escrow_account: record,
        vault_token_account: addr(22),
        depositor_token_account: addr(21),
    }
}

#[test]
fn create_escrow_locks_amount_in_vault() {
    let mut ctx = create_ctx();
    let fx = create_escrow(&mut ctx, addr(BENEFICIARY), 100).unwrap();
    match fx.instruction {
        Instruction::Transfer { from, to, authority: Authority::Signer(s), amount } => {
            assert_eq!(from, addr(21));
            assert_eq!(to, addr(22));
            assert_eq!(s, addr(DEPOSITOR));
            assert_eq!(amount, 100);
        }
        _ => panic!("expected a transfer signed by the depositor"),
    }
    match fx.event {
        Some(Event::EscrowCreated(e)) => {
            assert_eq!(e.depositor, addr(DEPOSITOR));
            assert_eq!(e.beneficiary, addr(BENEFICIARY));
            assert_eq!(e.amount, 100);
        }
        _ => panic!("expected one escrow-created event"),
    }
    let record = ctx.escrow_account.unwrap();
    assert_eq!(record.state, EscrowState::Active);
    assert_eq!(record.amount, 100);
    assert_eq!(record.depositor, addr(DEPOSITOR));
    assert_eq!(record.beneficiary, addr(BENEFICIARY));
}

#[test]
fn create_escrow_on_taken_address_fails() {
    let mut ctx = create_ctx();
    create_escrow(&mut ctx, addr(BENEFICIARY), 100).unwrap();
    assert_eq!(create_escrow(&mut ctx, addr(BENEFICIARY), 5).unwrap_err(), CustomError::AccountInUse);
    assert_eq!(ctx.escrow_account.unwrap().amount, 100);
}

#[test]
fn create_escrow_at_wrong_address_fails() {
    let mut ctx = create_ctx();
    ctx.escrow_key = escrow_key(BENEFICIARY, DEPOSITOR);
    assert_eq!(create_escrow(&mut ctx, addr(BENEFICIARY), 100).unwrap_err(), CustomError::AddressMismatch);
    assert!(ctx.escrow_account.is_none());
}

#[test]
fn release_twice_pays_once() {
    let mut ctx = release_ctx(DEPOSITOR, created_record(100));
    let fx = release_escrow(&mut ctx).unwrap();
    match fx.instruction {
        Instruction::Transfer { from, to, authority: Authority::Derived(a), amount } => {
            assert_eq!(from, addr(22));
            assert_eq!(to, addr(23));
            assert_eq!(amount, 100);
            assert_eq!(a.address(), escrow_key(DEPOSITOR, BENEFICIARY));
        }
        _ => panic!("expected a transfer signed by the vault authority"),
    }
    match fx.event {
        Some(Event::EscrowReleased(e)) => assert_eq!(e.amount, 100),
        _ => panic!("expected an escrow-released event"),
    }
    assert_eq!(ctx.escrow_account.state, EscrowState::Released);
    assert_eq!(release_escrow(&mut ctx).unwrap_err(), CustomError::EscrowNotActive);
    assert_eq!(ctx.escrow_account.state, EscrowState::Released);
}

#[test]
fn cancel_after_release_fails() {
    let mut r = release_ctx(DEPOSITOR, created_record(100));
    release_escrow(&mut r).unwrap();
    let mut c = cancel_ctx(DEPOSITOR, r.escrow_account);
    assert_eq!(cancel_escrow(&mut c).unwrap_err(), CustomError::EscrowNotActive);
    assert_eq!(c.escrow_account.state, EscrowState::Released);
}

#[test]
fn cancel_returns_funds_to_depositor() {
    let mut ctx = cancel_ctx(DEPOSITOR, created_record(40));
    let fx = cancel_escrow(&mut ctx).unwrap();
    match fx.instruction {
        Instruction::Transfer { from, to, authority: Authority::Derived(a), amount } => {
            assert_eq!(from, addr(22));
            assert_eq!(to, addr(21));
            assert_eq!(amount, 40);
            assert_eq!(a.address(), escrow_key(DEPOSITOR, BENEFICIARY));
        }
        _ => panic!("expected a transfer signed by the vault authority"),
    }
    match fx.event {
        Some(Event::EscrowCancelled(e)) => assert_eq!(e.amount, 40),
        _ => panic!("expected an escrow-cancelled event"),
    }
    assert_eq!(ctx.escrow_account.state, EscrowState::Cancelled);
    let mut again = release_ctx(DEPOSITOR, ctx.escrow_account);
    assert_eq!(release_escrow(&mut again).unwrap_err(), CustomError::EscrowNotActive);
}

#[test]
fn release_by_other_than_depositor_fails() {
    let mut ctx = release_ctx(BENEFICIARY, created_record(100));
    assert_eq!(release_escrow(&mut ctx).unwrap_err(), CustomError::Unauthorized);
    assert_eq!(ctx.escrow_account.state, EscrowState::Active);
    let mut released = release_ctx(DEPOSITOR, created_record(100));
    release_escrow(&mut released).unwrap();
    let mut late = release_ctx(7, released.escrow_account);
    assert_eq!(release_escrow(&mut late).unwrap_err(), CustomError::Unauthorized);
}

#[test]
fn release_with_wrong_bump_fails() {
    let mut record = created_record(100);
    record.bump = record.bump.wrapping_sub(1);
    let mut ctx = release_ctx(DEPOSITOR, record);
    let err = release_escrow(&mut ctx).unwrap_err();
    assert!(err == CustomError::AddressMismatch || err == CustomError::DerivationFailed);
    assert_eq!(ctx.escrow_account.state, EscrowState::Active);
}
