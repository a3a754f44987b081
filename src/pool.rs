use vstd::prelude::*;

use crate::address::Address;
use crate::error::HandshakeError;
use crate::fee::{compute_expiry_fee, compute_fee, expiry_fee_of, fee_of, FeePolicy};

verus! {

/// What a pool holds, as plain values.
pub struct PoolState {
    pub pool_id: Address,
    pub operator: Address,
    pub mint: Address,
    pub fee_policy: FeePolicy,
    pub total_deposited: u64,
    pub total_withdrawn: u64,
    pub total_fees_collected: u64,
    pub transfers_resolved: u64,
}

/// The balance invariant: what left custody and what the pool kept as fees
/// never exceed what was deposited.
pub open spec fn balanced(p: PoolState) -> bool {
    p.total_withdrawn + p.total_fees_collected <= p.total_deposited
}

/// The pool after a settlement released `amount` (of which `fee` stays with the pool).
pub open spec fn released(p: PoolState, amount: u64, fee: u64) -> PoolState {
    PoolState {
        total_withdrawn: (p.total_withdrawn + amount) as u64,
        total_fees_collected: (p.total_fees_collected + fee) as u64,
        transfers_resolved: (p.transfers_resolved + 1) as u64,
        ..p
    }
}

/// Whether the counters can record the release of `amount` with a fee of
/// `fee` without overflow and without breaking the balance invariant.
pub open spec fn can_release(p: PoolState, amount: u64, fee: u64) -> bool {
    &&& p.total_withdrawn + amount + p.total_fees_collected + fee <= p.total_deposited
    &&& p.transfers_resolved < u64::MAX
}

/// The custodial ledger of one pool: its configuration and running counters.
///
/// At all times `total_withdrawn + total_fees_collected <= total_deposited`.
pub struct Pool {
    pool_id: Address,
    operator: Address,
    mint: Address,
    fee_policy: FeePolicy,
    total_deposited: u64,
    total_withdrawn: u64,
    total_fees_collected: u64,
    transfers_resolved: u64,
}

impl View for Pool {
    type V = PoolState;

    closed spec fn view(&self) -> PoolState {
        PoolState {
            pool_id: self.pool_id,
            operator: self.operator,
            mint: self.mint,
            fee_policy: self.fee_policy,
            total_deposited: self.total_deposited,
            total_withdrawn: self.total_withdrawn,
            total_fees_collected: self.total_fees_collected,
            transfers_resolved: self.total_resolved_spec(),
        }
    }
}

impl Pool {
    closed spec fn total_resolved_spec(&self) -> u64 {
        self.transfers_resolved
    }

    #[verifier::type_invariant]
    closed spec fn balanced(&self) -> bool {
        &&& self.total_withdrawn + self.total_fees_collected <= self.total_deposited
        &&& self.fee_policy.valid()
    }

    /// A new pool with all counters at zero.
    pub fn new(pool_id: Address, operator: Address, mint: Address, fee_policy: FeePolicy) -> (r:
        Pool)
        requires
            fee_policy.valid(),
        ensures
            balanced(r@),
            r@ == (PoolState {
                pool_id,
                operator,
                mint,
                fee_policy,
                total_deposited: 0,
                total_withdrawn: 0,
                total_fees_collected: 0,
                transfers_resolved: 0,
            }),
    {
        Pool {
            pool_id,
            operator,
            mint,
            fee_policy,
            total_deposited: 0,
            total_withdrawn: 0,
            total_fees_collected: 0,
            transfers_resolved: 0,
        }
    }

    /// Rebuilds a pool from stored values; `None` when the policy is not
    /// valid or the counters break the balance invariant.
    pub fn restore(
        pool_id: Address,
        operator: Address,
        mint: Address,
        fee_policy: FeePolicy,
        total_deposited: u64,
        total_withdrawn: u64,
        total_fees_collected: u64,
        transfers_resolved: u64,
    ) -> (r: Option<Pool>)
        ensures
            ({
                let state = PoolState {
                    pool_id,
                    operator,
                    mint,
                    fee_policy,
                    total_deposited,
                    total_withdrawn,
                    total_fees_collected,
                    transfers_resolved,
                };
                if fee_policy.valid() && balanced(state) {
                    r is Some && r->Some_0@ == state
                } else {
                    r is None
                }
            }),
    {
        if !fee_policy.is_valid() || total_withdrawn > total_deposited || total_fees_collected
            > total_deposited - total_withdrawn {
            return None;
        }
        Some(
            Pool {
                pool_id,
                operator,
                mint,
                fee_policy,
                total_deposited,
                total_withdrawn,
                total_fees_collected,
                transfers_resolved,
            },
        )
    }

    pub fn pool_id(&self) -> (r: Address)
        ensures
            r == self@.pool_id,
    {
        self.pool_id
    }

    pub fn operator(&self) -> (r: Address)
        ensures
            r == self@.operator,
    {
        self.operator
    }

    pub fn mint(&self) -> (r: Address)
        ensures
            r == self@.mint,
    {
        self.mint
    }

    pub fn fee_policy(&self) -> (r: FeePolicy)
        ensures
            r == self@.fee_policy,
            r.valid(),
    {
        proof {
            use_type_invariant(self);
        }
        self.fee_policy
    }

    pub fn total_deposited(&self) -> (r: u64)
        ensures
            r == self@.total_deposited,
            balanced(self@),
    {
        proof {
            use_type_invariant(self);
        }
        self.total_deposited
    }

    pub fn total_withdrawn(&self) -> (r: u64)
        ensures
            r == self@.total_withdrawn,
            balanced(self@),
    {
        proof {
            use_type_invariant(self);
        }
        self.total_withdrawn
    }

    pub fn total_fees_collected(&self) -> (r: u64)
        ensures
            r == self@.total_fees_collected,
            balanced(self@),
    {
        proof {
            use_type_invariant(self);
        }
        self.total_fees_collected
    }

    pub fn transfers_resolved(&self) -> (r: u64)
        ensures
            r == self@.transfers_resolved,
    {
        self.transfers_resolved
    }

    /// The fee the pool's schedule charges on a settled `amount`.
    pub fn calculate_transfer_fee(&self, amount: u64) -> (fee: u64)
        ensures
            fee == fee_of(amount, self@.fee_policy),
            fee <= amount,
    {
        proof {
            use_type_invariant(self);
        }
        compute_fee(amount, &self.fee_policy)
    }

    /// The fee the pool's schedule charges when a transfer of `amount` expires.
    pub fn calculate_expiry_fee(&self, amount: u64) -> (fee: u64)
        ensures
            fee == expiry_fee_of(amount, self@.fee_policy),
            fee <= amount,
    {
        proof {
            use_type_invariant(self);
        }
        compute_expiry_fee(amount, &self.fee_policy)
    }

    /// Records `amount` escrowed into the pool.
    pub fn add_deposit(&mut self, amount: u64) -> (r: Result<(), HandshakeError>)
        ensures
            balanced(final(self)@),
            old(self)@.total_deposited + amount <= u64::MAX ==> r is Ok && final(self)@ == (
            PoolState { total_deposited: (old(self)@.total_deposited + amount) as u64, ..old(self)@ }),
            old(self)@.total_deposited + amount > u64::MAX ==> r == Err::<(), _>(
                HandshakeError::ArithmeticOverflow,
            ) && final(self)@ == old(self)@,
    {
        proof {
            use_type_invariant(&*self);
        }
        match self.total_deposited.checked_add(amount) {
            Some(total) => {
                self.total_deposited = total;
                Ok(())
            },
            None => Err(HandshakeError::ArithmeticOverflow),
        }
    }

    /// Records `amount` released from custody.
    pub fn add_withdrawal(&mut self, amount: u64) -> (r: Result<(), HandshakeError>)
        ensures
            balanced(final(self)@),
            ({
                let p = old(self)@;
                if p.total_withdrawn + amount + p.total_fees_collected <= p.total_deposited {
                    r is Ok && final(self)@ == (PoolState {
                        total_withdrawn: (p.total_withdrawn + amount) as u64,
                        ..p
                    })
                } else {
                    r == Err::<(), _>(HandshakeError::ArithmeticOverflow) && final(self)@ == p
                }
            }),
    {
        proof {
            use_type_invariant(&*self);
        }
        let room: u64 = self.total_deposited - self.total_withdrawn - self.total_fees_collected;
        if amount <= room {
            self.total_withdrawn = self.total_withdrawn + amount;
            Ok(())
        } else {
            Err(HandshakeError::ArithmeticOverflow)
        }
    }

    /// Records `amount` kept by the pool as fees. A zero amount changes nothing.
    pub fn add_collected_fees(&mut self, amount: u64) -> (r: Result<(), HandshakeError>)
        ensures
            balanced(final(self)@),
            ({
                let p = old(self)@;
                if p.total_withdrawn + p.total_fees_collected + amount <= p.total_deposited {
                    r is Ok && final(self)@ == (PoolState {
                        total_fees_collected: (p.total_fees_collected + amount) as u64,
                        ..p
                    })
                } else {
                    r == Err::<(), _>(HandshakeError::ArithmeticOverflow) && final(self)@ == p
                }
            }),
    {
        proof {
            use_type_invariant(&*self);
        }
        if amount == 0 {
            return Ok(());
        }
        let room: u64 = self.total_deposited - self.total_withdrawn - self.total_fees_collected;
        if amount <= room {
            self.total_fees_collected = self.total_fees_collected + amount;
            Ok(())
        } else {
            Err(HandshakeError::ArithmeticOverflow)
        }
    }

    /// Counts one more settled transfer.
    pub fn increment_transfers_resolved(&mut self) -> (r: Result<(), HandshakeError>)
        ensures
            balanced(final(self)@),
            old(self)@.transfers_resolved < u64::MAX ==> r is Ok && final(self)@ == (PoolState {
                transfers_resolved: (old(self)@.transfers_resolved + 1) as u64,
                ..old(self)@
            }),
            old(self)@.transfers_resolved == u64::MAX ==> r == Err::<(), _>(
                HandshakeError::ArithmeticOverflow,
            ) && final(self)@ == old(self)@,
    {
        proof {
            use_type_invariant(&*self);
        }
        match self.transfers_resolved.checked_add(1) {
            Some(n) => {
                self.transfers_resolved = n;
                Ok(())
            },
            None => Err(HandshakeError::ArithmeticOverflow),
        }
    }

    /// Whether a settlement of `amount` with fee `fee` can be recorded.
    pub fn can_release(&self, amount: u64, fee: u64) -> (r: bool)
        ensures
            r == can_release(self@, amount, fee),
    {
        proof {
            use_type_invariant(self);
        }
        let room: u64 = self.total_deposited - self.total_withdrawn - self.total_fees_collected;
        amount <= room && fee <= room - amount && self.transfers_resolved < u64::MAX
    }

    /// Records a settlement: `amount` withdrawn, `fee` collected (skipped
    /// when zero), one more transfer resolved. Nothing changes on failure.
    pub fn record_release(&mut self, amount: u64, fee: u64) -> (r: Result<(), HandshakeError>)
        ensures
            balanced(final(self)@),
            can_release(old(self)@, amount, fee) ==> r is Ok && final(self)@ == released(
                old(self)@,
                amount,
                fee,
            ),
            !can_release(old(self)@, amount, fee) ==> r == Err::<(), _>(
                HandshakeError::ArithmeticOverflow,
            ) && final(self)@ == old(self)@,
    {
        proof {
            use_type_invariant(&*self);
        }
        if !self.can_release(amount, fee) {
            return Err(HandshakeError::ArithmeticOverflow);
        }
        let r1 = self.add_withdrawal(amount);
        if r1.is_err() {
            return r1;
        }
        if fee > 0 {
            let r2 = self.add_collected_fees(fee);
            if r2.is_err() {
                return r2;
            }
        }
        self.increment_transfers_resolved()
    }
}

/// Recording a release that `can_release` admits keeps the pool balanced,
/// and moves the withdrawn and collected counters by exactly the settled amount and fee.
pub proof fn release_keeps_pool_balanced(p: PoolState, amount: u64, fee: u64)
    requires
        balanced(p),
        can_release(p, amount, fee),
    ensures
        balanced(released(p, amount, fee)),
        released(p, amount, fee).total_withdrawn + released(p, amount, fee).total_fees_collected
            == p.total_withdrawn + p.total_fees_collected + amount + fee,
        released(p, amount, fee).total_deposited == p.total_deposited,
{
}

} // verus!
