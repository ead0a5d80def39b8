//! The two instructions: `initialize` opens an escrow and locks asset A in
//! custody; `finalizer` swaps asset B for the custody balance and closes the
//! custody account. Each either applies whole or leaves its accounts as they
//! were.
use vstd::prelude::*;

use crate::pda::{
    canonical_address, custody_address_with_bump, custody_seeds, derive_custody_address,
    derive_escrow_address, escrow_address_with_bump, escrow_seeds, program_address, same_address,
    with_bump, Address,
};
use crate::states::{scale_amount, scaled, Escrow, EscrowError, Mint, TokenAccount, MAX_ID_LEN};
use vstd::utf8::encode_utf8;

verus! {

/// The accounts that `initialize` reads and writes.
pub struct Initialize {
    /// The id of this program, under which addresses are derived.
    pub program_id: Address,
    /// The address given for the escrow record.
    pub escrow_address: Address,
    /// The escrow record at `escrow_address`, if one exists.
    pub escrow: Option<Escrow>,
    /// The initializer's key.
    pub initializer: Address,
    /// Whether the initializer signed the instruction.
    pub initializer_signed: bool,
    /// The initializer's native balance, which pays the custody deposit.
    pub initializer_lamports: u64,
    /// The initializer's account of asset A, debited by the deposit.
    pub initializer_token_a_account: TokenAccount,
    /// The address given for the custody account.
    pub guaranty_address: Address,
    /// The custody account at `guaranty_address`, if one exists.
    pub guaranty_account: Option<TokenAccount>,
    /// The deposit that keeps the custody account alive.
    pub guaranty_rent: u64,
    /// The asset that the initializer deposits.
    pub token_a: Mint,
    /// The asset that the initializer asks for in return.
    pub token_b: Mint,
}

/// The accounts that `finalizer` reads and writes.
pub struct Finalizer {
    /// The id of this program, under which addresses are derived.
    pub program_id: Address,
    /// The address given for the escrow record.
    pub escrow_address: Address,
    /// The escrow record at `escrow_address`, if one exists.
    pub escrow: Option<Escrow>,
    /// The custody account, if it still exists.
    pub guaranty_account: Option<TokenAccount>,
    /// The taker's key.
    pub taker: Address,
    /// Whether the taker signed the instruction.
    pub taker_signed: bool,
    /// The initializer's key: a seed of the record's address, and where the
    /// custody deposit goes back.
    pub initializer: Address,
    /// The initializer's native balance.
    pub initializer_lamports: u64,
    /// Where the initializer receives asset B.
    pub initializer_token_account_b: TokenAccount,
    /// The taker's account of asset B, debited by the payment.
    pub taker_token_account_b: TokenAccount,
    /// Where the taker receives asset A.
    pub taker_token_account_a: TokenAccount,
}

/// The bytes of an id.
pub open spec fn id_bytes(id: String) -> Seq<u8> {
    encode_utf8(id@)
}

/// Whether the bump search over `seeds` yields `addr`.
pub open spec fn found_at(seeds: Seq<Seq<u8>>, program_id: Seq<u8>, addr: Seq<u8>) -> bool {
    match canonical_address(seeds, program_id) {
        Some((a, _)) => a == addr,
        None => false,
    }
}

/// The bump seed that the search over `seeds` settles on.
pub open spec fn found_bump(seeds: Seq<Seq<u8>>, program_id: Seq<u8>) -> u8 {
    canonical_address(seeds, program_id).unwrap().1
}

/// Whether `escrow`'s seeds and stored bump derive `addr`.
pub open spec fn record_address_matches(program_id: Seq<u8>, initializer: Seq<u8>, escrow: Escrow, addr: Seq<u8>) -> bool {
    program_address(with_bump(escrow_seeds(initializer, id_bytes(escrow.id)), escrow.bump_escrow), program_id) == Some(addr)
}

/// Whether the custody seeds of `escrow_addr` with `bump` derive `addr`.
pub open spec fn custody_address_matches(program_id: Seq<u8>, escrow_addr: Seq<u8>, bump: u8, addr: Seq<u8>) -> bool {
    program_address(with_bump(custody_seeds(escrow_addr), bump), program_id) == Some(addr)
}

/// Why `initialize` refuses, checked in this order, or `None`.
pub open spec fn initialize_error(c: Initialize, id: String, amount_token_a: u64, amount_token_b: u64) -> Option<EscrowError> {
    let a = scaled(amount_token_a, c.token_a.decimals);
    let b = scaled(amount_token_b, c.token_b.decimals);
    if !c.initializer_signed {
        Some(EscrowError::MissingSigner)
    } else if id_bytes(id).len() > MAX_ID_LEN {
        Some(EscrowError::IdTooLong)
    } else if !found_at(escrow_seeds(c.initializer@, id_bytes(id)), c.program_id@, c.escrow_address@) {
        Some(EscrowError::ConstraintSeeds)
    } else if c.escrow is Some {
        Some(EscrowError::AccountInUse)
    } else if c.initializer_token_a_account.mint@ != c.token_a.address@ {
        Some(EscrowError::MintMismatch)
    } else if !found_at(custody_seeds(c.escrow_address@), c.program_id@, c.guaranty_address@) {
        Some(EscrowError::ConstraintSeeds)
    } else if c.guaranty_account is Some {
        Some(EscrowError::AccountInUse)
    } else if c.initializer_lamports < c.guaranty_rent {
        Some(EscrowError::InsufficientLamports)
    } else if a > u64::MAX || b > u64::MAX {
        Some(EscrowError::Overflow)
    } else if c.initializer_token_a_account.owner@ != c.initializer@ {
        Some(EscrowError::OwnerMismatch)
    } else if c.initializer_token_a_account.amount < a {
        Some(EscrowError::InsufficientFunds)
    } else {
        None
    }
}

/// The record that a successful `initialize` stores.
pub open spec fn initialized_escrow(c: Initialize, id: String, amount_token_a: u64, amount_token_b: u64) -> Escrow {
    Escrow {
        initializer: c.initializer,
        token_a: c.token_a.address,
        amount_token_a: scaled(amount_token_a, c.token_a.decimals) as u64,
        token_b: c.token_b.address,
        amount_token_b: scaled(amount_token_b, c.token_b.decimals) as u64,
        id: id,
        bump_escrow: found_bump(escrow_seeds(c.initializer@, id_bytes(id)), c.program_id@),
        bump_guaranty_account: found_bump(custody_seeds(c.escrow_address@), c.program_id@),
    }
}

/// The accounts after a successful `initialize`: the record is stored, the
/// custody account holds the whole deposit, and the initializer paid it.
pub open spec fn initialized(c: Initialize, id: String, amount_token_a: u64, amount_token_b: u64) -> Initialize {
    let a = scaled(amount_token_a, c.token_a.decimals) as u64;
    Initialize {
        escrow: Some(initialized_escrow(c, id, amount_token_a, amount_token_b)),
        initializer_lamports: (c.initializer_lamports - c.guaranty_rent) as u64,
        initializer_token_a_account: TokenAccount {
            amount: (c.initializer_token_a_account.amount - a) as u64,
            ..c.initializer_token_a_account
        },
        guaranty_account: Some(
            TokenAccount {
                address: c.guaranty_address,
                mint: c.token_a.address,
                owner: c.guaranty_address,
                amount: a,
                lamports: c.guaranty_rent,
            },
        ),
        ..c
    }
}

/// Opens an escrow: stores the terms at the address derived from the
/// initializer and `id`, creates the custody account owned by its own
/// derived address, and moves `amount_token_a` whole units of asset A into
/// it. The amounts are stored scaled by each asset's decimals.
pub fn initialize(ctx: &mut Initialize, id: String, amount_token_a: u64, amount_token_b: u64) -> (r: Result<(), EscrowError>)
    ensures
        r == (match initialize_error(*old(ctx), id, amount_token_a, amount_token_b) {
            Some(e) => Err(e),
            None => Ok(()),
        }),
        r is Ok ==> *final(ctx) == initialized(*old(ctx), id, amount_token_a, amount_token_b),
        r is Err ==> *final(ctx) == *old(ctx),
{
    if !ctx.initializer_signed {
        return Err(EscrowError::MissingSigner);
    }
    let id_len = id.as_str().as_bytes_vec().len();
    if id_len > MAX_ID_LEN {
        return Err(EscrowError::IdTooLong);
    }
    let bump_escrow = match derive_escrow_address(&ctx.program_id, &ctx.initializer, &id) {
        Some((addr, bump)) => {
            if !same_address(&addr, &ctx.escrow_address) {
                return Err(EscrowError::ConstraintSeeds);
            }
            bump
        },
        None => {
            return Err(EscrowError::ConstraintSeeds);
        },
    };
    if ctx.escrow.is_some() {
        return Err(EscrowError::AccountInUse);
    }
    if !same_address(&ctx.initializer_token_a_account.mint, &ctx.token_a.address) {
        return Err(EscrowError::MintMismatch);
    }
    let bump_guaranty = match derive_custody_address(&ctx.program_id, &ctx.escrow_address) {
        Some((addr, bump)) => {
            if !same_address(&addr, &ctx.guaranty_address) {
                return Err(EscrowError::ConstraintSeeds);
            }
            bump
        },
        None => {
            return Err(EscrowError::ConstraintSeeds);
        },
    };
    if ctx.guaranty_account.is_some() {
        return Err(EscrowError::AccountInUse);
    }
    if ctx.initializer_lamports < ctx.guaranty_rent {
        return Err(EscrowError::InsufficientLamports);
    }
    let a = match scale_amount(amount_token_a, ctx.token_a.decimals) {
        Some(v) => v,
        None => {
            return Err(EscrowError::Overflow);
        },
    };
    let b = match scale_amount(amount_token_b, ctx.token_b.decimals) {
        Some(v) => v,
        None => {
            return Err(EscrowError::Overflow);
        },
    };
    if !same_address(&ctx.initializer_token_a_account.owner, &ctx.initializer) {
        return Err(EscrowError::OwnerMismatch);
    }
    if ctx.initializer_token_a_account.amount < a {
        return Err(EscrowError::InsufficientFunds);
    }
    ctx.escrow = Some(
        Escrow {
            initializer: ctx.initializer,
            token_a: ctx.token_a.address,
            amount_token_a: a,
            token_b: ctx.token_b.address,
            amount_token_b: b,
            id,
            bump_escrow,
            bump_guaranty_account: bump_guaranty,
        },
    );
    ctx.initializer_lamports = ctx.initializer_lamports - ctx.guaranty_rent;
    ctx.guaranty_account = Some(
        TokenAccount {
            address: ctx.guaranty_address,
            mint: ctx.token_a.address,
            owner: ctx.guaranty_address,
            amount: a,
            lamports: ctx.guaranty_rent,
        },
    );
    ctx.initializer_token_a_account.amount = ctx.initializer_token_a_account.amount - a;
    Ok(())
}

/// Why a token account does not serve as an account of `mint` owned by
/// `owner`, or `None`.
pub open spec fn role_error(account: TokenAccount, mint: Address, owner: Address) -> Option<EscrowError> {
    if account.mint@ != mint@ {
        Some(EscrowError::MintMismatch)
    } else if account.owner@ != owner@ {
        Some(EscrowError::OwnerMismatch)
    } else {
        None
    }
}

/// Why `finalizer` refuses, checked in this order, or `None`.
pub open spec fn finalizer_error(c: Finalizer) -> Option<EscrowError> {
    match c.escrow {
        None => Some(EscrowError::AccountNotInitialized),
        Some(e) => {
            let custody = c.guaranty_account.unwrap();
            if !record_address_matches(c.program_id@, c.initializer@, e, c.escrow_address@) {
                Some(EscrowError::ConstraintSeeds)
            } else if c.guaranty_account is None {
                Some(EscrowError::AccountNotInitialized)
            } else if !custody_address_matches(c.program_id@, c.escrow_address@, e.bump_guaranty_account, custody.address@) {
                Some(EscrowError::ConstraintSeeds)
            } else if !c.taker_signed {
                Some(EscrowError::MissingSigner)
            } else if role_error(c.initializer_token_account_b, e.token_b, e.initializer) is Some {
                role_error(c.initializer_token_account_b, e.token_b, e.initializer)
            } else if role_error(c.taker_token_account_b, e.token_b, c.taker) is Some {
                role_error(c.taker_token_account_b, e.token_b, c.taker)
            } else if role_error(c.taker_token_account_a, e.token_a, c.taker) is Some {
                role_error(c.taker_token_account_a, e.token_a, c.taker)
            } else if c.taker_token_account_b.amount < e.amount_token_b {
                Some(EscrowError::InsufficientFunds)
            } else if c.initializer_token_account_b.amount + e.amount_token_b > u64::MAX {
                Some(EscrowError::Overflow)
            } else if c.taker_token_account_a.mint@ != custody.mint@ {
                Some(EscrowError::MintMismatch)
            } else if custody.owner@ != custody.address@ {
                Some(EscrowError::OwnerMismatch)
            } else if c.taker_token_account_a.amount + custody.amount > u64::MAX {
                Some(EscrowError::Overflow)
            } else if c.initializer_lamports + custody.lamports > u64::MAX {
                Some(EscrowError::Overflow)
            } else {
                None
            }
        },
    }
}

/// The accounts after a successful `finalizer`: the initializer holds the
/// agreed asset B, the taker the whole custody balance, the initializer the
/// custody deposit, and the custody account is gone.
pub open spec fn finalized(c: Finalizer) -> Finalizer {
    let e = c.escrow.unwrap();
    let custody = c.guaranty_account.unwrap();
    Finalizer {
        guaranty_account: None,
        initializer_lamports: (c.initializer_lamports + custody.lamports) as u64,
        initializer_token_account_b: TokenAccount {
            amount: (c.initializer_token_account_b.amount + e.amount_token_b) as u64,
            ..c.initializer_token_account_b
        },
        taker_token_account_b: TokenAccount {
            amount: (c.taker_token_account_b.amount - e.amount_token_b) as u64,
            ..c.taker_token_account_b
        },
        taker_token_account_a: TokenAccount {
            amount: (c.taker_token_account_a.amount + custody.amount) as u64,
            ..c.taker_token_account_a
        },
        ..c
    }
}

/// Why `account` does not serve as an account of `mint` owned by `owner`,
/// or `None`.
fn check_role(account: &TokenAccount, mint: &Address, owner: &Address) -> (r: Option<EscrowError>)
    ensures
        r == role_error(*account, *mint, *owner),
{
    if !same_address(&account.mint, mint) {
        Some(EscrowError::MintMismatch)
    } else if !same_address(&account.owner, owner) {
        Some(EscrowError::OwnerMismatch)
    } else {
        None
    }
}

/// Completes an escrow: moves the agreed asset B from the taker to the
/// initializer, the whole custody balance to the taker, and closes the
/// custody account, whose deposit goes back to the initializer. The custody
/// transfers are authorized by re-deriving the custody address from the
/// stored bump.
pub fn finalizer(ctx: &mut Finalizer) -> (r: Result<(), EscrowError>)
    ensures
        r == (match finalizer_error(*old(ctx)) {
            Some(e) => Err(e),
            None => Ok(()),
        }),
        r is Ok ==> *final(ctx) == finalized(*old(ctx)),
        r is Err ==> *final(ctx) == *old(ctx),
{
    let (amount_b, token_a, token_b, escrow_initializer, bump_guaranty) = match &ctx.escrow {
        None => {
            return Err(EscrowError::AccountNotInitialized);
        },
        Some(e) => {
            match escrow_address_with_bump(&ctx.program_id, &ctx.initializer, &e.id, e.bump_escrow) {
                Some(addr) => {
                    if !same_address(&addr, &ctx.escrow_address) {
                        return Err(EscrowError::ConstraintSeeds);
                    }
                },
                None => {
                    return Err(EscrowError::ConstraintSeeds);
                },
            }
            (e.amount_token_b, e.token_a, e.token_b, e.initializer, e.bump_guaranty_account)
        },
    };
    let custody = match ctx.guaranty_account {
        None => {
            return Err(EscrowError::AccountNotInitialized);
        },
        Some(g) => g,
    };
    match custody_address_with_bump(&ctx.program_id, &ctx.escrow_address, bump_guaranty) {
        Some(addr) => {
            if !same_address(&addr, &custody.address) {
                return Err(EscrowError::ConstraintSeeds);
            }
        },
        None => {
            return Err(EscrowError::ConstraintSeeds);
        },
    }
    if !ctx.taker_signed {
        return Err(EscrowError::MissingSigner);
    }
    if let Some(err) = check_role(&ctx.initializer_token_account_b, &token_b, &escrow_initializer) {
        return Err(err);
    }
    if let Some(err) = check_role(&ctx.taker_token_account_b, &token_b, &ctx.taker) {
        return Err(err);
    }
    if let Some(err) = check_role(&ctx.taker_token_account_a, &token_a, &ctx.taker) {
        return Err(err);
    }
    if ctx.taker_token_account_b.amount < amount_b {
        return Err(EscrowError::InsufficientFunds);
    }
    if ctx.initializer_token_account_b.amount > u64::MAX - amount_b {
        return Err(EscrowError::Overflow);
    }
    if !same_address(&ctx.taker_token_account_a.mint, &custody.mint) {
        return Err(EscrowError::MintMismatch);
    }
    if !same_address(&custody.owner, &custody.address) {
        return Err(EscrowError::OwnerMismatch);
    }
    if ctx.taker_token_account_a.amount > u64::MAX - custody.amount {
        return Err(EscrowError::Overflow);
    }
    if ctx.initializer_lamports > u64::MAX - custody.lamports {
        return Err(EscrowError::Overflow);
    }
    ctx.taker_token_account_b.amount = ctx.taker_token_account_b.amount - amount_b;
    ctx.initializer_token_account_b.amount = ctx.initializer_token_account_b.amount + amount_b;
    ctx.taker_token_account_a.amount = ctx.taker_token_account_a.amount + custody.amount;
    ctx.initializer_lamports = ctx.initializer_lamports + custody.lamports;
    ctx.guaranty_account = None;
    Ok(())
}

/// A successful `initialize` leaves in custody exactly `amount_token_a`
/// scaled by asset A's decimals, and the initializer's asset A balance is
/// lower by exactly that amount.
pub proof fn lemma_initialize_deposit(c: Initialize, id: String, amount_token_a: u64, amount_token_b: u64)
    requires
        initialize_error(c, id, amount_token_a, amount_token_b) is None,
    ensures
        ({
            let n = initialized(c, id, amount_token_a, amount_token_b);
            let a = scaled(amount_token_a, c.token_a.decimals);
            &&& n.guaranty_account.unwrap().amount == a
            &&& n.initializer_token_a_account.amount == c.initializer_token_a_account.amount - a
        }),
{
    let d = c.token_a.decimals as nat;
    vstd::arithmetic::power::lemma_pow_positive(10, d);
    assert(amount_token_a * vstd::arithmetic::power::pow(10, d) >= 0) by (nonlinear_arith)
        requires vstd::arithmetic::power::pow(10, d) > 0;
}

/// The bump that the search over `seeds` reports derives the address it
/// found.
proof fn lemma_found_rederives(seeds: Seq<Seq<u8>>, program_id: Seq<u8>, addr: Seq<u8>)
    requires
        found_at(seeds, program_id, addr),
    ensures
        program_address(with_bump(seeds, found_bump(seeds, program_id)), program_id) == Some(addr),
{
    let b = choose|b: u8| crate::pda::is_canonical_bump(seeds, program_id, b);
    assert(crate::pda::is_canonical_bump(seeds, program_id, b));
}

/// The record address derived from the initializer and the id, and the
/// custody address derived from that record address, are derived again
/// from the bumps that `initialize` stores: `finalizer` finds the same
/// custody account that `initialize` created.
pub proof fn lemma_custody_rederivation(c: Initialize, id: String, amount_token_a: u64, amount_token_b: u64)
    requires
        initialize_error(c, id, amount_token_a, amount_token_b) is None,
    ensures
        ({
            let e = initialized_escrow(c, id, amount_token_a, amount_token_b);
            &&& record_address_matches(c.program_id@, c.initializer@, e, c.escrow_address@)
            &&& custody_address_matches(c.program_id@, c.escrow_address@, e.bump_guaranty_account, c.guaranty_address@)
        }),
{
    lemma_found_rederives(escrow_seeds(c.initializer@, id_bytes(id)), c.program_id@, c.escrow_address@);
    lemma_found_rederives(custody_seeds(c.escrow_address@), c.program_id@, c.guaranty_address@);
}

/// After a successful `finalizer`, a second one on the same accounts is
/// refused because the custody account no longer exists.
pub proof fn lemma_finalizer_not_twice(c: Finalizer)
    requires
        finalizer_error(c) is None,
    ensures
        finalizer_error(finalized(c)) == Some(EscrowError::AccountNotInitialized),
{
}

/// A successful `finalizer` raises the initializer's asset B balance by
/// exactly the agreed amount, lowers the taker's by the same, raises the
/// taker's asset A balance by exactly the custody balance before the call,
/// and removes the custody account.
pub proof fn lemma_finalizer_exchange(c: Finalizer)
    requires
        finalizer_error(c) is None,
    ensures
        ({
            let n = finalized(c);
            let e = c.escrow.unwrap();
            &&& n.initializer_token_account_b.amount == c.initializer_token_account_b.amount + e.amount_token_b
            &&& n.taker_token_account_b.amount == c.taker_token_account_b.amount - e.amount_token_b
            &&& n.taker_token_account_a.amount == c.taker_token_account_a.amount + c.guaranty_account.unwrap().amount
            &&& n.guaranty_account is None
        }),
{
}

/// A `finalizer` whose taker holds less asset B than the agreed amount is
/// refused, and so leaves every balance as it was.
pub proof fn lemma_finalizer_underfunded(c: Finalizer)
    requires
        c.escrow is Some,
        c.taker_token_account_b.amount < c.escrow.unwrap().amount_token_b,
    ensures
        finalizer_error(c) is Some,
{
}

} // verus!
