//! The escrow record, the token accounts it works on, and its errors.
use vstd::prelude::*;

use crate::pda::Address;
use vstd::arithmetic::power::pow;

verus! {

/// Largest length in bytes of an escrow id.
pub const MAX_ID_LEN: usize = 150;

/// The terms of one trade, stored at the address derived from the
/// initializer's key and the id.
#[derive(Debug)]
pub struct Escrow {
    pub initializer: Address,
    pub token_a: Address,
    pub amount_token_a: u64,
    pub token_b: Address,
    pub amount_token_b: u64,
    pub id: String,
    pub bump_escrow: u8,
    pub bump_guaranty_account: u8,
}

/// The type descriptor of an asset: its address and its decimal precision.
#[derive(Clone, Copy, Debug)]
pub struct Mint {
    pub address: Address,
    pub decimals: u8,
}

/// An account holding a balance of one asset, moved only by its owner.
#[derive(Clone, Copy, Debug)]
pub struct TokenAccount {
    pub address: Address,
    pub mint: Address,
    pub owner: Address,
    pub amount: u64,
    pub lamports: u64,
}

/// Why an instruction was refused. A refused instruction changes nothing.
#[derive(Clone, Copy, Debug, PartialEq, Eq, Structural)]
pub enum EscrowError {
    /// A required signature is missing.
    MissingSigner,
    /// The id is longer than `MAX_ID_LEN` bytes.
    IdTooLong,
    /// An account's address is not the one derived from its seeds.
    ConstraintSeeds,
    /// An account to be created already exists.
    AccountInUse,
    /// An account that must exist does not (an escrow already finalized).
    AccountNotInitialized,
    /// A token account holds another asset than its role asks for.
    MintMismatch,
    /// A token account belongs to another owner than its role asks for.
    OwnerMismatch,
    /// A token balance is smaller than the amount to move.
    InsufficientFunds,
    /// The payer cannot cover the custody account's deposit.
    InsufficientLamports,
    /// A scaled amount or a resulting balance does not fit in 64 bits.
    Overflow,
}

/// `amount` whole units expressed in the asset's smallest unit.
pub open spec fn scaled(amount: u64, decimals: u8) -> int {
    amount * pow(10, decimals as nat)
}

/// `amount * 10^decimals`, or `None` when it does not fit in 64 bits.
pub fn scale_amount(amount: u64, decimals: u8) -> (r: Option<u64>)
    ensures
        r matches Some(v) ==> v == scaled(amount, decimals),
        r is None <==> scaled(amount, decimals) > u64::MAX,
{
    if amount == 0 {
        assert(scaled(amount, decimals) == 0);
        return Some(0);
    }
    let mut acc: u64 = amount;
    let mut i: u8 = 0;
    proof {
        vstd::arithmetic::power::lemma_pow0(10);
    }
    while i < decimals
        invariant
            0 <= i <= decimals,
            amount >= 1,
            acc == amount * pow(10, i as nat),
        decreases decimals - i,
    {
        proof {
            reveal(pow);
            assert(pow(10, (i + 1) as nat) == 10 * pow(10, i as nat));
        }
        match acc.checked_mul(10) {
            Some(v) => {
                proof {
                    assert(amount * pow(10, (i + 1) as nat) == (amount * pow(10, i as nat)) * 10) by (nonlinear_arith)
                        requires pow(10, (i + 1) as nat) == 10 * pow(10, i as nat);
                }
                acc = v;
            },
            None => {
                proof {
                    lemma_scaled_grows(amount, (i + 1) as nat, decimals as nat);
                    assert(amount * pow(10, (i + 1) as nat) == (amount * pow(10, i as nat)) * 10) by (nonlinear_arith)
                        requires pow(10, (i + 1) as nat) == 10 * pow(10, i as nat);
                }
                return None;
            },
        }
        i = i + 1;
    }
    Some(acc)
}

proof fn lemma_scaled_grows(amount: u64, e1: nat, e2: nat)
    requires
        e1 <= e2,
        amount >= 1,
    ensures
        amount * pow(10, e1) <= amount * pow(10, e2),
    decreases e2 - e1,
{
    vstd::arithmetic::power::lemma_pow_positive(10, e1);
    if e1 < e2 {
        lemma_scaled_grows(amount, e1, (e2 - 1) as nat);
        vstd::arithmetic::power::lemma_pow_positive(10, (e2 - 1) as nat);
        reveal(pow);
        assert(pow(10, e2) == 10 * pow(10, (e2 - 1) as nat));
        assert(amount * pow(10, (e2 - 1) as nat) <= amount * pow(10, e2)) by (nonlinear_arith)
            requires
                pow(10, e2) == 10 * pow(10, (e2 - 1) as nat),
                pow(10, (e2 - 1) as nat) > 0,
                amount >= 1;
    }
}

} // verus!
