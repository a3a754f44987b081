use vstd::prelude::*;

verus! {

/// Denominator of a rate in basis points.
pub const BPS_DENOMINATOR: u64 = 10000;

/// How much of a settled amount the pool keeps.
///
/// The fee is `amount * fee_bps / 10000`, rounded down, clamped to
/// `[min_fee, max_fee]`, and never more than the amount itself. On expiry the
/// same schedule applies when `charge_on_expiry` is set; otherwise expiry is free.
#[derive(Clone, Copy, Debug, PartialEq, Eq, Structural)]
pub struct FeePolicy {
    pub fee_bps: u16,
    pub min_fee: u64,
    pub max_fee: u64,
    pub charge_on_expiry: bool,
}

impl FeePolicy {
    /// A rate of at most 100% and a non-empty clamp range.
    pub open spec fn valid(self) -> bool {
        self.fee_bps <= BPS_DENOMINATOR && self.min_fee <= self.max_fee
    }

    pub fn is_valid(&self) -> (r: bool)
        ensures
            r == self.valid(),
    {
        (self.fee_bps as u64) <= BPS_DENOMINATOR && self.min_fee <= self.max_fee
    }
}

/// The proportional part of the fee, before clamping.
pub open spec fn proportional_fee(amount: u64, fee_bps: u16) -> int {
    (amount as int * fee_bps as int) / (BPS_DENOMINATOR as int)
}

/// The fee the schedule charges on `amount`.
pub open spec fn fee_of(amount: u64, policy: FeePolicy) -> int {
    let p = proportional_fee(amount, policy.fee_bps);
    let clamped = if p < policy.min_fee {
        policy.min_fee as int
    } else if p > policy.max_fee {
        policy.max_fee as int
    } else {
        p
    };
    if clamped > amount {
        amount as int
    } else {
        clamped
    }
}

/// The fee charged when a transfer expires.
pub open spec fn expiry_fee_of(amount: u64, policy: FeePolicy) -> int {
    if policy.charge_on_expiry {
        fee_of(amount, policy)
    } else {
        0
    }
}

/// Computes the fee on `amount`; widened arithmetic keeps every `u64` amount in range.
pub fn compute_fee(amount: u64, policy: &FeePolicy) -> (fee: u64)
    requires
        policy.valid(),
    ensures
        fee == fee_of(amount, *policy),
        fee <= amount,
{
    assert((amount as u128) * (policy.fee_bps as u128) <= u64::MAX as int * 10000)
        by (nonlinear_arith)
        requires
            policy.fee_bps <= 10000,
    ;
    let wide: u128 = (amount as u128) * (policy.fee_bps as u128);
    assert(wide <= amount as int * BPS_DENOMINATOR as int) by (nonlinear_arith)
        requires
            wide == amount as int * policy.fee_bps as int,
            policy.fee_bps <= BPS_DENOMINATOR,
    ;
    let prop_wide: u128 = wide / (BPS_DENOMINATOR as u128);
    assert(prop_wide <= amount) by (nonlinear_arith)
        requires
            prop_wide == wide / 10000,
            wide <= amount as int * 10000,
    ;
    let prop: u64 = prop_wide as u64;
    let clamped: u64 = if prop < policy.min_fee {
        policy.min_fee
    } else if prop > policy.max_fee {
        policy.max_fee
    } else {
        prop
    };
    if clamped > amount {
        amount
    } else {
        clamped
    }
}

/// Computes the fee charged when a transfer expires.
pub fn compute_expiry_fee(amount: u64, policy: &FeePolicy) -> (fee: u64)
    requires
        policy.valid(),
    ensures
        fee == expiry_fee_of(amount, *policy),
        fee <= amount,
{
    if policy.charge_on_expiry {
        compute_fee(amount, policy)
    } else {
        0
    }
}

/// For every amount and valid policy the fee is at most the amount, so the
/// net amount `amount - fee` never underflows.
pub proof fn fee_never_exceeds_amount(amount: u64, policy: FeePolicy)
    requires
        policy.valid(),
    ensures
        0 <= fee_of(amount, policy) <= amount,
        0 <= expiry_fee_of(amount, policy) <= amount,
        0 <= amount - fee_of(amount, policy) <= amount,
{
    assert(0 <= proportional_fee(amount, policy.fee_bps)) by (nonlinear_arith)
        requires
            amount >= 0,
            policy.fee_bps >= 0,
    ;
}

} // verus!
