use escrow::pda::{
    custody_address_with_bump, derive_custody_address, derive_escrow_address,
    escrow_address_with_bump, same_address,
};
use escrow::states::scale_amount;
use escrow::{finalizer, initialize, Address, EscrowError, Finalizer, Initialize, Mint, TokenAccount};

const RENT: u64 = 2_039_280;

fn addr(b: u8) -> Address {
    Address::new([b; 32])
}

fn program_id() -> Address {
    addr(7)
}

fn initializer_key() -> Address {
    addr(1)
}

fn taker_key() -> Address {
    addr(2)
}

fn mint_a() -> Mint {
    Mint { address: addr(10), decimals: 2 }
}

fn mint_b() -> Mint {
    Mint { address: addr(11), decimals: 6 }
}

fn token_account(address: u8, mint: &Mint, owner: Address, amount: u64) -> TokenAccount {
    TokenAccount { address: addr(address), mint: mint.address, owner, amount, lamports: RENT }
}

fn setup(id: &str, balance_a: u64) -> Initialize {
    let (escrow_address, _) =
        derive_escrow_address(&program_id(), &initializer_key(), &id.to_string()).unwrap();
    let (guaranty_address, _) = derive_custody_address(&program_id(), &escrow_address).unwrap();
    Initialize {
        program_id: program_id(),
        escrow_address,
        escrow: None,
        initializer: initializer_key(),
        initializer_signed: true,
        initializer_lamports: 10 * RENT,
        initializer_token_a_account: token_account(20, &mint_a(), initializer_key(), balance_a),
        guaranty_address,
        guaranty_account: None,
        guaranty_rent: RENT,
        token_a: mint_a(),
        token_b: mint_b(),
    }
}

fn taker_side(ctx: &mut Initialize, taker_b: u64) -> Finalizer {
    Finalizer {
        program_id: ctx.program_id,
        escrow_address: ctx.escrow_address,
        escrow: ctx.escrow.take(),
        guaranty_account: ctx.guaranty_account.take(),
        taker: taker_key(),
        taker_signed: true,
        initializer: initializer_key(),
        initializer_lamports: 5,
        initializer_token_account_b: token_account(21, &mint_b(), initializer_key(), 0),
        taker_token_account_b: token_account(22, &mint_b(), taker_key(), taker_b),
        taker_token_account_a: token_account(23, &mint_a(), taker_key(), 0),
    }
}

fn opened(taker_b: u64) -> Finalizer {
    let mut ctx = setup("trade-1", 20000);
    assert_eq!(initialize(&mut ctx, "trade-1".to_string(), 100, 50), Ok(()));
    taker_side(&mut ctx, taker_b)
}

fn balances(f: &Finalizer) -> (u64, u64, u64, Option<u64>, u64) {
    (
        f.initializer_token_account_b.amount,
        f.taker_token_account_b.amount,
        f.taker_token_account_a.amount,
        f.guaranty_account.map(|g| g.amount),
        f.initializer_lamports,
    )
}

#[test]
fn scenario_deposit_and_swap() {
    let mut ctx = setup("trade-1", 20000);
    assert_eq!(initialize(&mut ctx, "trade-1".to_string(), 100, 50), Ok(()));
    let custody = ctx.guaranty_account.unwrap();
    assert_eq!(custody.amount, 10000);
    assert_eq!(custody.mint.bytes, mint_a().address.bytes);
    assert_eq!(custody.owner.bytes, ctx.guaranty_address.bytes);
    let record = ctx.escrow.as_ref().unwrap();
    assert_eq!(record.amount_token_a, 10000);
    assert_eq!(record.amount_token_b, 50_000_000);
    assert_eq!(record.id, "trade-1");

    let mut f = taker_side(&mut ctx, 60_000_000);
    assert_eq!(finalizer(&mut f), Ok(()));
    assert_eq!(f.initializer_token_account_b.amount, 50_000_000);
    assert_eq!(f.taker_token_account_b.amount, 10_000_000);
    assert_eq!(f.taker_token_account_a.amount, 10000);
    assert!(f.guaranty_account.is_none());
    assert_eq!(f.initializer_lamports, 5 + RENT);
}

#[test]
fn initialize_debits_exact_scaled_amount() {
    let mut ctx = setup("debit", 12345);
    assert_eq!(initialize(&mut ctx, "debit".to_string(), 7, 1), Ok(()));
    assert_eq!(ctx.initializer_token_a_account.amount, 12345 - 700);
    assert_eq!(ctx.guaranty_account.unwrap().amount, 700);
    assert_eq!(ctx.initializer_lamports, 9 * RENT);
}

#[test]
fn second_finalize_fails_and_changes_nothing() {
    let mut f = opened(50_000_000);
    assert_eq!(finalizer(&mut f), Ok(()));
    let after_first = balances(&f);
    assert_eq!(finalizer(&mut f), Err(EscrowError::AccountNotInitialized));
    assert_eq!(balances(&f), after_first);
    f.taker = addr(3);
    f.taker_token_account_b.owner = addr(3);
    f.taker_token_account_a.owner = addr(3);
    assert_eq!(finalizer(&mut f), Err(EscrowError::AccountNotInitialized));
    assert_eq!(balances(&f), after_first);
}

#[test]
fn underfunded_taker_changes_nothing() {
    let mut f = opened(49_999_999);
    let before = balances(&f);
    assert_eq!(finalizer(&mut f), Err(EscrowError::InsufficientFunds));
    assert_eq!(balances(&f), before);
    assert_eq!(before.3, Some(10000));
}

#[test]
fn finalize_with_exact_payment() {
    let mut f = opened(50_000_000);
    assert_eq!(finalizer(&mut f), Ok(()));
    assert_eq!(f.taker_token_account_b.amount, 0);
    assert_eq!(f.initializer_token_account_b.amount, 50_000_000);
}

#[test]
fn finalize_sweeps_whole_custody_balance() {
    let mut f = opened(50_000_000);
    f.guaranty_account.as_mut().unwrap().amount = 10500;
    assert_eq!(finalizer(&mut f), Ok(()));
    assert_eq!(f.taker_token_account_a.amount, 10500);
}

#[test]
fn derivation_is_deterministic() {
    let id = "repeat".to_string();
    let first = derive_escrow_address(&program_id(), &initializer_key(), &id).unwrap();
    let second = derive_escrow_address(&program_id(), &initializer_key(), &id).unwrap();
    assert_eq!(first.0.bytes, second.0.bytes);
    assert_eq!(first.1, second.1);
    let c1 = derive_custody_address(&program_id(), &first.0).unwrap();
    let c2 = derive_custody_address(&program_id(), &second.0).unwrap();
    assert_eq!(c1.0.bytes, c2.0.bytes);
    let again = custody_address_with_bump(&program_id(), &first.0, c1.1).unwrap();
    assert_eq!(again.bytes, c1.0.bytes);
    let record = escrow_address_with_bump(&program_id(), &initializer_key(), &id, first.1).unwrap();
    assert_eq!(record.bytes, first.0.bytes);
}

#[test]
fn derivation_depends_on_seeds() {
    let a = derive_escrow_address(&program_id(), &initializer_key(), &"x".to_string()).unwrap();
    let b = derive_escrow_address(&program_id(), &initializer_key(), &"y".to_string()).unwrap();
    let c = derive_escrow_address(&program_id(), &taker_key(), &"x".to_string()).unwrap();
    assert_ne!(a.0.bytes, b.0.bytes);
    assert_ne!(a.0.bytes, c.0.bytes);
    assert_ne!(a.0.bytes, initializer_key().bytes);
    assert_ne!(a.0.bytes, program_id().bytes);
    let custody = derive_custody_address(&program_id(), &a.0).unwrap();
    assert_ne!(custody.0.bytes, a.0.bytes);
}

#[test]
fn derivation_with_wrong_bump_differs() {
    let (record, bump) =
        derive_escrow_address(&program_id(), &initializer_key(), &"bump".to_string()).unwrap();
    let other = escrow_address_with_bump(&program_id(), &initializer_key(), &"bump".to_string(), bump.wrapping_sub(1));
    if let Some(o) = other {
        assert_ne!(o.bytes, record.bytes);
    }
}

#[test]
fn long_seed_has_no_derivation() {
    let id = "a".repeat(33);
    assert!(derive_escrow_address(&program_id(), &initializer_key(), &id).is_none());
    assert!(escrow_address_with_bump(&program_id(), &initializer_key(), &id, 255).is_none());
}

#[test]
fn same_address_compares_bytes() {
    assert!(same_address(&addr(4), &addr(4)));
    let mut bytes = [4u8; 32];
    bytes[31] = 5;
    assert!(!same_address(&addr(4), &Address::new(bytes)));
}

#[test]
fn scale_amount_values() {
    assert_eq!(scale_amount(100, 2), Some(10000));
    assert_eq!(scale_amount(50, 6), Some(50_000_000));
    assert_eq!(scale_amount(7, 0), Some(7));
    assert_eq!(scale_amount(0, 255), Some(0));
    assert_eq!(scale_amount(1, 19), Some(10_000_000_000_000_000_000));
    assert_eq!(scale_amount(1, 20), None);
    assert_eq!(scale_amount(2, 19), None);
    assert_eq!(scale_amount(u64::MAX, 0), Some(u64::MAX));
    assert_eq!(scale_amount(u64::MAX, 1), None);
}

#[test]
fn initialize_requires_signature() {
    let mut ctx = setup("sig", 20000);
    ctx.initializer_signed = false;
    assert_eq!(initialize(&mut ctx, "sig".to_string(), 1, 1), Err(EscrowError::MissingSigner));
    assert!(ctx.escrow.is_none());
    assert_eq!(ctx.initializer_token_a_account.amount, 20000);
}

#[test]
fn initialize_rejects_long_id() {
    let mut ctx = setup("short", 20000);
    let id = "z".repeat(151);
    assert_eq!(initialize(&mut ctx, id, 1, 1), Err(EscrowError::IdTooLong));
}

#[test]
fn initialize_rejects_underivable_id() {
    let mut ctx = setup("short", 20000);
    let id = "z".repeat(40);
    assert_eq!(initialize(&mut ctx, id, 1, 1), Err(EscrowError::ConstraintSeeds));
}

#[test]
fn initialize_rejects_wrong_record_address() {
    let mut ctx = setup("one", 20000);
    assert_eq!(initialize(&mut ctx, "two".to_string(), 1, 1), Err(EscrowError::ConstraintSeeds));
    assert!(ctx.guaranty_account.is_none());
}

#[test]
fn initialize_rejects_wrong_custody_address() {
    let mut ctx = setup("one", 20000);
    ctx.guaranty_address = addr(99);
    assert_eq!(initialize(&mut ctx, "one".to_string(), 1, 1), Err(EscrowError::ConstraintSeeds));
}

#[test]
fn initialize_twice_is_refused() {
    let mut ctx = setup("twice", 20000);
    assert_eq!(initialize(&mut ctx, "twice".to_string(), 1, 1), Ok(()));
    assert_eq!(initialize(&mut ctx, "twice".to_string(), 1, 1), Err(EscrowError::AccountInUse));
    assert_eq!(ctx.initializer_token_a_account.amount, 19900);
    assert_eq!(ctx.guaranty_account.unwrap().amount, 100);
}

#[test]
fn initialize_rejects_wrong_mint() {
    let mut ctx = setup("mint", 20000);
    ctx.initializer_token_a_account.mint = addr(12);
    assert_eq!(initialize(&mut ctx, "mint".to_string(), 1, 1), Err(EscrowError::MintMismatch));
}

#[test]
fn initialize_rejects_missing_rent() {
    let mut ctx = setup("rent", 20000);
    ctx.initializer_lamports = RENT - 1;
    assert_eq!(initialize(&mut ctx, "rent".to_string(), 1, 1), Err(EscrowError::InsufficientLamports));
}

#[test]
fn initialize_rejects_scaling_overflow() {
    let mut ctx = setup("big", 20000);
    ctx.token_b.decimals = 19;
    assert_eq!(initialize(&mut ctx, "big".to_string(), 1, 2), Err(EscrowError::Overflow));
    assert_eq!(ctx.initializer_token_a_account.amount, 20000);
}

#[test]
fn initialize_rejects_foreign_source_account() {
    let mut ctx = setup("owner", 20000);
    ctx.initializer_token_a_account.owner = taker_key();
    assert_eq!(initialize(&mut ctx, "owner".to_string(), 1, 1), Err(EscrowError::OwnerMismatch));
}

#[test]
fn initialize_rejects_insufficient_balance() {
    let mut ctx = setup("poor", 9999);
    assert_eq!(initialize(&mut ctx, "poor".to_string(), 100, 1), Err(EscrowError::InsufficientFunds));
    assert!(ctx.escrow.is_none());
    assert!(ctx.guaranty_account.is_none());
    assert_eq!(ctx.initializer_lamports, 10 * RENT);
}

#[test]
fn finalize_without_record_fails() {
    let mut f = opened(50_000_000);
    f.escrow = None;
    assert_eq!(finalizer(&mut f), Err(EscrowError::AccountNotInitialized));
}

#[test]
fn finalize_rejects_tampered_bump() {
    let mut f = opened(50_000_000);
    let before = balances(&f);
    let e = f.escrow.as_mut().unwrap();
    e.bump_guaranty_account = e.bump_guaranty_account.wrapping_sub(1);
    assert_eq!(finalizer(&mut f), Err(EscrowError::ConstraintSeeds));
    assert_eq!(balances(&f), before);
}

#[test]
fn finalize_rejects_other_initializer() {
    let mut f = opened(50_000_000);
    f.initializer = taker_key();
    assert_eq!(finalizer(&mut f), Err(EscrowError::ConstraintSeeds));
}

#[test]
fn finalize_requires_taker_signature() {
    let mut f = opened(50_000_000);
    f.taker_signed = false;
    assert_eq!(finalizer(&mut f), Err(EscrowError::MissingSigner));
}

#[test]
fn finalize_rejects_wrong_asset_accounts() {
    let mut f = opened(50_000_000);
    f.taker_token_account_a.mint = mint_b().address;
    assert_eq!(finalizer(&mut f), Err(EscrowError::MintMismatch));
    let mut g = opened(50_000_000);
    g.initializer_token_account_b.owner = taker_key();
    assert_eq!(finalizer(&mut g), Err(EscrowError::OwnerMismatch));
}

#[test]
fn finalize_rejects_balance_overflow() {
    let mut f = opened(50_000_000);
    f.initializer_token_account_b.amount = u64::MAX - 49_999_999;
    let before = balances(&f);
    assert_eq!(finalizer(&mut f), Err(EscrowError::Overflow));
    assert_eq!(balances(&f), before);
}
