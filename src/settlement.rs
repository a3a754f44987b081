use vstd::prelude::*;

use crate::address::{same_address, Address};
use crate::error::{HandshakeError, LedgerError};
use crate::fee::{expiry_fee_of, fee_of};
use crate::pool::{can_release, released, Pool, PoolState};
use crate::transfer::{with_status, SecureTransfer, TransferState, TransferStatus};

verus! {

/// Longest reason message a rejection may carry, in UTF-8 bytes.
pub const MAX_REASON_MESSAGE_LEN: usize = 200;

/// Reason code carried by the event of an expired transfer.
pub const EXPIRY_REASON_CODE: u8 = 255;

/// What the asset ledger must move out of the pool's custody for a settlement.
#[derive(Clone, Copy, Debug, PartialEq, Eq)]
pub struct Payout {
    /// Who receives the net amount.
    pub to: Address,
    /// The net amount: the transfer's amount less the fee.
    pub amount: u64,
    /// What the pool keeps.
    pub fee: u64,
}

/// The accounts an operator hands to an acceptance.
#[derive(Clone, Copy, Debug)]
pub struct AcceptTransfer {
    pub operator: Address,
    pub transfer: Address,
    pub mint: Address,
    pub recipient: Address,
}

/// The accounts an operator hands to a rejection.
#[derive(Clone, Copy, Debug)]
pub struct RejectTransfer {
    pub operator: Address,
    pub transfer: Address,
    pub mint: Address,
    pub sender: Address,
}

/// The accounts anyone hands to an expiry.
#[derive(Clone, Copy, Debug)]
pub struct ExpireTransfer {
    pub transfer: Address,
    pub mint: Address,
    pub sender: Address,
}

/// Emitted when the operator accepts a transfer.
#[derive(Clone, Copy, Debug)]
pub struct TransferAccepted {
    pub transfer: Address,
    pub pool: Address,
    pub sender: Address,
    pub recipient: Address,
    pub amount: u64,
    pub fee: u64,
    pub net_amount: u64,
}

/// Emitted when the operator rejects a transfer.
#[derive(Debug)]
pub struct TransferRejected {
    pub transfer: Address,
    pub pool: Address,
    pub sender: Address,
    pub recipient: Address,
    pub amount: u64,
    pub fee: u64,
    pub net_amount: u64,
    pub reason_code: u8,
    pub reason_message: String,
}

/// Emitted when a transfer expires.
#[derive(Clone, Copy, Debug)]
pub struct TransferExpired {
    pub transfer: Address,
    pub pool: Address,
    pub sender: Address,
    pub recipient: Address,
    pub amount: u64,
    pub fee: u64,
    pub net_amount: u64,
    pub reason_code: u8,
}

/// The length of a message in UTF-8 bytes, as `str::len` reports it.
pub open spec fn message_len(m: Seq<char>) -> int {
    vstd::utf8::encode_utf8(m).len() as usize as int
}

/// Only the pool's operator may accept or reject.
pub open spec fn operator_refusal(p: PoolState, caller: Address) -> Option<HandshakeError> {
    if same_address(caller, p.operator) {
        None
    } else {
        Some(HandshakeError::Unauthorized)
    }
}

/// A transfer may expire only once it has a deadline and `now` has reached it.
pub open spec fn deadline_refusal(t: TransferState, now: i64) -> Option<HandshakeError> {
    match t.expires_at {
        Some(deadline) => if now >= deadline {
            None
        } else {
            Some(HandshakeError::TransferNotExpired)
        },
        None => Some(HandshakeError::TransferNotExpired),
    }
}

/// The transfer belongs to the pool, the mint is the pool's, and `party` is
/// who the settlement pays (`payee`).
pub open spec fn accounts_match(
    p: PoolState,
    t: TransferState,
    mint: Address,
    party: Address,
    payee: Address,
) -> bool {
    &&& same_address(t.pool, p.pool_id)
    &&& same_address(mint, p.mint)
    &&& same_address(party, payee)
}

/// Why a settlement is refused, checked in this order: authority, accounts,
/// pending status, deadline, message length, counters. `None` when it may go ahead.
pub open spec fn settle_refusal(
    p: PoolState,
    t: TransferState,
    authority: Option<HandshakeError>,
    accounts_ok: bool,
    deadline: Option<HandshakeError>,
    message_ok: bool,
    fee: u64,
) -> Option<HandshakeError> {
    if authority is Some {
        authority
    } else if !accounts_ok {
        Some(HandshakeError::AccountMismatch)
    } else if t.status != TransferStatus::Pending {
        Some(HandshakeError::InactiveTransfer)
    } else if deadline is Some {
        deadline
    } else if !message_ok {
        Some(HandshakeError::InvalidMemoLength)
    } else if !can_release(p, t.amount, fee) {
        Some(HandshakeError::ArithmeticOverflow)
    } else {
        None
    }
}

pub open spec fn accept_refusal(
    ctx: AcceptTransfer,
    p: PoolState,
    t: TransferState,
) -> Option<HandshakeError> {
    settle_refusal(
        p,
        t,
        operator_refusal(p, ctx.operator),
        accounts_match(p, t, ctx.mint, ctx.recipient, t.recipient),
        None,
        true,
        fee_of(t.amount, p.fee_policy) as u64,
    )
}

pub open spec fn reject_refusal(
    ctx: RejectTransfer,
    p: PoolState,
    t: TransferState,
    reason_message: Seq<char>,
) -> Option<HandshakeError> {
    settle_refusal(
        p,
        t,
        operator_refusal(p, ctx.operator),
        accounts_match(p, t, ctx.mint, ctx.sender, t.sender),
        None,
        message_len(reason_message) <= MAX_REASON_MESSAGE_LEN,
        fee_of(t.amount, p.fee_policy) as u64,
    )
}

pub open spec fn expire_refusal(
    ctx: ExpireTransfer,
    p: PoolState,
    t: TransferState,
    now: i64,
) -> Option<HandshakeError> {
    settle_refusal(
        p,
        t,
        None,
        accounts_match(p, t, ctx.mint, ctx.sender, t.sender),
        deadline_refusal(t, now),
        true,
        expiry_fee_of(t.amount, p.fee_policy) as u64,
    )
}

/// The payout of a settlement paying `to`, with the pool keeping `fee`.
pub open spec fn payout_of(t: TransferState, to: Address, fee: int) -> Payout {
    Payout { to, amount: (t.amount - fee) as u64, fee: fee as u64 }
}

fn settle_gate(
    pool: &Pool,
    transfer: &SecureTransfer,
    authority: Option<HandshakeError>,
    accounts_ok: bool,
    deadline: Option<HandshakeError>,
    message_ok: bool,
    fee: u64,
) -> (r: Result<(), HandshakeError>)
    ensures
        match settle_refusal(pool@, transfer@, authority, accounts_ok, deadline, message_ok, fee) {
            Some(e) => r == Err::<(), _>(e),
            None => r is Ok,
        },
{
    if let Some(e) = authority {
        return Err(e);
    }
    if !accounts_ok {
        return Err(HandshakeError::AccountMismatch);
    }
    let active = transfer.validate_active();
    if active.is_err() {
        return active;
    }
    if let Some(e) = deadline {
        return Err(e);
    }
    if !message_ok {
        return Err(HandshakeError::InvalidMemoLength);
    }
    if !pool.can_release(transfer.amount(), fee) {
        return Err(HandshakeError::ArithmeticOverflow);
    }
    Ok(())
}

fn check_operator(pool: &Pool, caller: &Address) -> (r: Option<HandshakeError>)
    ensures
        r == operator_refusal(pool@, *caller),
{
    if caller.same_as(&pool.operator()) {
        None
    } else {
        Some(HandshakeError::Unauthorized)
    }
}

fn check_accounts(pool: &Pool, transfer: &SecureTransfer, mint: &Address, party: &Address, payee: &Address) -> (r: bool)
    ensures
        r == accounts_match(pool@, transfer@, *mint, *party, *payee),
{
    transfer.pool().same_as(&pool.pool_id()) && mint.same_as(&pool.mint()) && party.same_as(payee)
}

/// Decides an acceptance without changing anything: the payout to the
/// recipient, or why the acceptance is refused.
pub fn plan_accept(ctx: &AcceptTransfer, pool: &Pool, transfer: &SecureTransfer) -> (r: Result<
    Payout,
    HandshakeError,
>)
    ensures
        match accept_refusal(*ctx, pool@, transfer@) {
            Some(e) => r == Err::<Payout, _>(e),
            None => r == Ok::<_, HandshakeError>(
                payout_of(transfer@, transfer@.recipient, fee_of(transfer@.amount, pool@.fee_policy)),
            ),
        },
{
    let authority = check_operator(pool, &ctx.operator);
    let recipient = transfer.recipient();
    let accounts_ok = check_accounts(pool, transfer, &ctx.mint, &ctx.recipient, &recipient);
    let amount = transfer.amount();
    let fee = pool.calculate_transfer_fee(amount);
    let gate = settle_gate(pool, transfer, authority, accounts_ok, None, true, fee);
    match gate {
        Err(e) => Err(e),
        Ok(()) => Ok(Payout { to: recipient, amount: amount - fee, fee }),
    }
}

/// Decides a rejection without changing anything: the refund to the
/// sender, or why the rejection is refused.
pub fn plan_reject(
    ctx: &RejectTransfer,
    pool: &Pool,
    transfer: &SecureTransfer,
    reason_message: &String,
) -> (r: Result<Payout, HandshakeError>)
    ensures
        match reject_refusal(*ctx, pool@, transfer@, reason_message@) {
            Some(e) => r == Err::<Payout, _>(e),
            None => r == Ok::<_, HandshakeError>(
                payout_of(transfer@, transfer@.sender, fee_of(transfer@.amount, pool@.fee_policy)),
            ),
        },
{
    let authority = check_operator(pool, &ctx.operator);
    let sender = transfer.sender();
    let accounts_ok = check_accounts(pool, transfer, &ctx.mint, &ctx.sender, &sender);
    let message_ok = reason_message.as_str().len() <= MAX_REASON_MESSAGE_LEN;
    let amount = transfer.amount();
    let fee = pool.calculate_transfer_fee(amount);
    let gate = settle_gate(pool, transfer, authority, accounts_ok, None, message_ok, fee);
    match gate {
        Err(e) => Err(e),
        Ok(()) => Ok(Payout { to: sender, amount: amount - fee, fee }),
    }
}

/// Decides an expiry at time `now` without changing anything: the refund to
/// the sender, or why the expiry is refused.
pub fn plan_expire(ctx: &ExpireTransfer, pool: &Pool, transfer: &SecureTransfer, now: i64) -> (r:
    Result<Payout, HandshakeError>)
    ensures
        match expire_refusal(*ctx, pool@, transfer@, now) {
            Some(e) => r == Err::<Payout, _>(e),
            None => r == Ok::<_, HandshakeError>(
                payout_of(
                    transfer@,
                    transfer@.sender,
                    expiry_fee_of(transfer@.amount, pool@.fee_policy),
                ),
            ),
        },
{
    let sender = transfer.sender();
    let accounts_ok = check_accounts(pool, transfer, &ctx.mint, &ctx.sender, &sender);
    let deadline = match transfer.expires_at() {
        Some(d) => if now >= d {
            None
        } else {
            Some(HandshakeError::TransferNotExpired)
        },
        None => Some(HandshakeError::TransferNotExpired),
    };
    let amount = transfer.amount();
    let fee = pool.calculate_expiry_fee(amount);
    let gate = settle_gate(pool, transfer, None, accounts_ok, deadline, true, fee);
    match gate {
        Err(e) => Err(e),
        Ok(()) => Ok(Payout { to: sender, amount: amount - fee, fee }),
    }
}

/// The event of an accepted transfer.
pub open spec fn accepted_event(
    ev: TransferAccepted,
    key: Address,
    p: PoolState,
    t: TransferState,
    fee: int,
) -> bool {
    &&& ev.transfer == key
    &&& ev.pool == p.pool_id
    &&& ev.sender == t.sender
    &&& ev.recipient == t.recipient
    &&& ev.amount == t.amount
    &&& ev.fee == fee
    &&& ev.net_amount == t.amount - fee
}

/// The event of a rejected transfer.
pub open spec fn rejected_event(
    ev: TransferRejected,
    key: Address,
    p: PoolState,
    t: TransferState,
    fee: int,
    reason_code: u8,
    reason_message: Seq<char>,
) -> bool {
    &&& ev.transfer == key
    &&& ev.pool == p.pool_id
    &&& ev.sender == t.sender
    &&& ev.recipient == t.recipient
    &&& ev.amount == t.amount
    &&& ev.fee == fee
    &&& ev.net_amount == t.amount - fee
    &&& ev.reason_code == reason_code
    &&& ev.reason_message@ == reason_message
}

/// The event of an expired transfer.
pub open spec fn expired_event(
    ev: TransferExpired,
    key: Address,
    p: PoolState,
    t: TransferState,
    fee: int,
) -> bool {
    &&& ev.transfer == key
    &&& ev.pool == p.pool_id
    &&& ev.sender == t.sender
    &&& ev.recipient == t.recipient
    &&& ev.amount == t.amount
    &&& ev.fee == fee
    &&& ev.net_amount == t.amount - fee
    &&& ev.reason_code == EXPIRY_REASON_CODE
}

/// Rejects a pending transfer as the pool's operator: the pool keeps the fee
/// and the rest goes back to the sender.
///
/// `ledger` is the outcome of moving the payout that `plan_reject` returned.
/// Every refusal, and a failed ledger move, leaves pool and transfer as they were.
/// Otherwise the pool records the whole amount as withdrawn, the fee as
/// collected (skipped when zero) and one more transfer resolved, and the
/// transfer ends `Rejected`.
pub fn reject_transfer(
    ctx: &RejectTransfer,
    pool: &mut Pool,
    transfer: &mut SecureTransfer,
    reason_code: u8,
    reason_message: String,
    ledger: Result<(), LedgerError>,
) -> (r: Result<TransferRejected, HandshakeError>)
    ensures
        match reject_refusal(*ctx, old(pool)@, old(transfer)@, reason_message@) {
            Some(e) => {
                &&& r == Err::<TransferRejected, _>(e)
                &&& final(pool)@ == old(pool)@
                &&& final(transfer)@ == old(transfer)@
            },
            None => match ledger {
                Err(le) => {
                    &&& r == Err::<TransferRejected, _>(HandshakeError::Ledger(le))
                    &&& final(pool)@ == old(pool)@
                    &&& final(transfer)@ == old(transfer)@
                },
                Ok(_) => {
                    let fee = fee_of(old(transfer)@.amount, old(pool)@.fee_policy);
                    &&& r is Ok
                    &&& rejected_event(
                        r->Ok_0,
                        ctx.transfer,
                        old(pool)@,
                        old(transfer)@,
                        fee,
                        reason_code,
                        reason_message@,
                    )
                    &&& final(pool)@ == released(old(pool)@, old(transfer)@.amount, fee as u64)
                    &&& final(transfer)@ == with_status(old(transfer)@, TransferStatus::Rejected)
                },
            },
        },
{
    let payout = match plan_reject(ctx, pool, transfer, &reason_message) {
        Ok(p) => p,
        Err(e) => return Err(e),
    };
    if let Err(le) = ledger {
        return Err(HandshakeError::Ledger(le));
    }
    let amount = transfer.amount();
    let recorded = pool.record_release(amount, payout.fee);
    if let Err(e) = recorded {
        return Err(e);
    }
    let marked = transfer.mark_as_rejected();
    if let Err(e) = marked {
        return Err(e);
    }
    Ok(TransferRejected {
        transfer: ctx.transfer,
        pool: pool.pool_id(),
        sender: transfer.sender(),
        recipient: transfer.recipient(),
        amount,
        fee: payout.fee,
        net_amount: payout.amount,
        reason_code,
        reason_message,
    })
}

/// Accepts a pending transfer as the pool's operator: the pool keeps the fee
/// and the rest goes to the recipient.
///
/// `ledger` is the outcome of moving the payout that `plan_accept` returned.
/// Every refusal, and a failed ledger move, leaves pool and transfer as they were.
pub fn accept_transfer(
    ctx: &AcceptTransfer,
    pool: &mut Pool,
    transfer: &mut SecureTransfer,
    ledger: Result<(), LedgerError>,
) -> (r: Result<TransferAccepted, HandshakeError>)
    ensures
        match accept_refusal(*ctx, old(pool)@, old(transfer)@) {
            Some(e) => {
                &&& r == Err::<TransferAccepted, _>(e)
                &&& final(pool)@ == old(pool)@
                &&& final(transfer)@ == old(transfer)@
            },
            None => match ledger {
                Err(le) => {
                    &&& r == Err::<TransferAccepted, _>(HandshakeError::Ledger(le))
                    &&& final(pool)@ == old(pool)@
                    &&& final(transfer)@ == old(transfer)@
                },
                Ok(_) => {
                    let fee = fee_of(old(transfer)@.amount, old(pool)@.fee_policy);
                    &&& r is Ok
                    &&& accepted_event(r->Ok_0, ctx.transfer, old(pool)@, old(transfer)@, fee)
                    &&& final(pool)@ == released(old(pool)@, old(transfer)@.amount, fee as u64)
                    &&& final(transfer)@ == with_status(old(transfer)@, TransferStatus::Accepted)
                },
            },
        },
{
    let payout = match plan_accept(ctx, pool, transfer) {
        Ok(p) => p,
        Err(e) => return Err(e),
    };
    if let Err(le) = ledger {
        return Err(HandshakeError::Ledger(le));
    }
    let amount = transfer.amount();
    let recorded = pool.record_release(amount, payout.fee);
    if let Err(e) = recorded {
        return Err(e);
    }
    let marked = transfer.mark_as_accepted();
    if let Err(e) = marked {
        return Err(e);
    }
    Ok(TransferAccepted {
        transfer: ctx.transfer,
        pool: pool.pool_id(),
        sender: transfer.sender(),
        recipient: transfer.recipient(),
        amount,
        fee: payout.fee,
        net_amount: payout.amount,
    })
}

/// Expires a pending transfer once its deadline has passed; anyone may ask.
/// The refund goes to the sender, less the expiry fee.
///
/// `ledger` is the outcome of moving the payout that `plan_expire` returned.
/// Every refusal, and a failed ledger move, leaves pool and transfer as they were.
pub fn expire_transfer(
    ctx: &ExpireTransfer,
    pool: &mut Pool,
    transfer: &mut SecureTransfer,
    now: i64,
    ledger: Result<(), LedgerError>,
) -> (r: Result<TransferExpired, HandshakeError>)
    ensures
        match expire_refusal(*ctx, old(pool)@, old(transfer)@, now) {
            Some(e) => {
                &&& r == Err::<TransferExpired, _>(e)
                &&& final(pool)@ == old(pool)@
                &&& final(transfer)@ == old(transfer)@
            },
            None => match ledger {
                Err(le) => {
                    &&& r == Err::<TransferExpired, _>(HandshakeError::Ledger(le))
                    &&& final(pool)@ == old(pool)@
                    &&& final(transfer)@ == old(transfer)@
                },
                Ok(_) => {
                    let fee = expiry_fee_of(old(transfer)@.amount, old(pool)@.fee_policy);
                    &&& r is Ok
                    &&& expired_event(r->Ok_0, ctx.transfer, old(pool)@, old(transfer)@, fee)
                    &&& final(pool)@ == released(old(pool)@, old(transfer)@.amount, fee as u64)
                    &&& final(transfer)@ == with_status(old(transfer)@, TransferStatus::Expired)
                },
            },
        },
{
    let payout = match plan_expire(ctx, pool, transfer, now) {
        Ok(p) => p,
        Err(e) => return Err(e),
    };
    if let Err(le) = ledger {
        return Err(HandshakeError::Ledger(le));
    }
    let amount = transfer.amount();
    let recorded = pool.record_release(amount, payout.fee);
    if let Err(e) = recorded {
        return Err(e);
    }
    let marked = transfer.mark_as_expired();
    if let Err(e) = marked {
        return Err(e);
    }
    Ok(TransferExpired {
        transfer: ctx.transfer,
        pool: pool.pool_id(),
        sender: transfer.sender(),
        recipient: transfer.recipient(),
        amount,
        fee: payout.fee,
        net_amount: payout.amount,
        reason_code: EXPIRY_REASON_CODE,
    })
}

/// Opens a pending transfer of `amount` from `sender` to `recipient`.
///
/// `ledger` is the outcome of moving `amount` from the sender into the pool's
/// custody. The deposit counter must have room for the amount; on any
/// failure the pool is left as it was.
pub fn create_transfer(
    pool: &mut Pool,
    sender: Address,
    recipient: Address,
    amount: u64,
    created_at: i64,
    expires_at: Option<i64>,
    ledger: Result<(), LedgerError>,
) -> (r: Result<SecureTransfer, HandshakeError>)
    ensures
        old(pool)@.total_deposited + amount > u64::MAX ==> {
            &&& r == Err::<SecureTransfer, _>(HandshakeError::ArithmeticOverflow)
            &&& final(pool)@ == old(pool)@
        },
        old(pool)@.total_deposited + amount <= u64::MAX ==> match ledger {
            Err(le) => {
                &&& r == Err::<SecureTransfer, _>(HandshakeError::Ledger(le))
                &&& final(pool)@ == old(pool)@
            },
            Ok(_) => {
                &&& r is Ok
                &&& r->Ok_0@ == (TransferState {
                    pool: old(pool)@.pool_id,
                    sender,
                    recipient,
                    amount,
                    status: TransferStatus::Pending,
                    created_at,
                    expires_at,
                })
                &&& final(pool)@ == (PoolState {
                    total_deposited: (old(pool)@.total_deposited + amount) as u64,
                    ..old(pool)@
                })
            },
        },
{
    if pool.total_deposited().checked_add(amount).is_none() {
        return Err(HandshakeError::ArithmeticOverflow);
    }
    if let Err(le) = ledger {
        return Err(HandshakeError::Ledger(le));
    }
    let deposited = pool.add_deposit(amount);
    if let Err(e) = deposited {
        return Err(e);
    }
    Ok(SecureTransfer::new(pool.pool_id(), sender, recipient, amount, created_at, expires_at))
}

/// A settled transfer is settled for good: once its status has left
/// `Pending`, every later acceptance, rejection or expiry is refused, and
/// with the right caller and accounts the refusal is `InactiveTransfer`.
pub proof fn settlement_happens_once(
    p: PoolState,
    t: TransferState,
    outcome: TransferStatus,
    accept: AcceptTransfer,
    reject: RejectTransfer,
    expire: ExpireTransfer,
    reason_message: Seq<char>,
    now: i64,
)
    requires
        outcome != TransferStatus::Pending,
    ensures
        with_status(t, outcome).status != TransferStatus::Pending,
        accept_refusal(accept, p, with_status(t, outcome)) is Some,
        reject_refusal(reject, p, with_status(t, outcome), reason_message) is Some,
        expire_refusal(expire, p, with_status(t, outcome), now) is Some,
        same_address(accept.operator, p.operator) && accounts_match(
            p,
            t,
            accept.mint,
            accept.recipient,
            t.recipient,
        ) ==> accept_refusal(accept, p, with_status(t, outcome)) == Some(
            HandshakeError::InactiveTransfer,
        ),
        same_address(reject.operator, p.operator) && accounts_match(
            p,
            t,
            reject.mint,
            reject.sender,
            t.sender,
        ) ==> reject_refusal(reject, p, with_status(t, outcome), reason_message) == Some(
            HandshakeError::InactiveTransfer,
        ),
        accounts_match(p, t, expire.mint, expire.sender, t.sender) ==> expire_refusal(
            expire,
            p,
            with_status(t, outcome),
            now,
        ) == Some(HandshakeError::InactiveTransfer),
{
}

/// After a rejection went through, a second rejection or an acceptance of
/// the same transfer is refused, so (by the operations' contracts) the pool
/// and transfer keep exactly what the first rejection made of them.
pub proof fn second_settlement_keeps_first(
    p: PoolState,
    t: TransferState,
    first: RejectTransfer,
    reason_message: Seq<char>,
    again: RejectTransfer,
    again_message: Seq<char>,
    accept: AcceptTransfer,
)
    requires
        reject_refusal(first, p, t, reason_message) is None,
    ensures
        reject_refusal(
            again,
            released(p, t.amount, fee_of(t.amount, p.fee_policy) as u64),
            with_status(t, TransferStatus::Rejected),
            again_message,
        ) is Some,
        accept_refusal(
            accept,
            released(p, t.amount, fee_of(t.amount, p.fee_policy) as u64),
            with_status(t, TransferStatus::Rejected),
        ) is Some,
{
}

/// A caller other than the pool's operator is refused `Unauthorized` by
/// acceptance and rejection, whatever state the transfer is in.
pub proof fn non_operator_is_unauthorized(
    p: PoolState,
    t: TransferState,
    accept: AcceptTransfer,
    reject: RejectTransfer,
    reason_message: Seq<char>,
)
    requires
        !same_address(accept.operator, p.operator),
        !same_address(reject.operator, p.operator),
    ensures
        accept_refusal(accept, p, t) == Some(HandshakeError::Unauthorized),
        reject_refusal(reject, p, t, reason_message) == Some(HandshakeError::Unauthorized),
{
}

/// For an authorised rejection of a pending transfer whose accounts match, a
/// reason message longer than the bound is refused `InvalidMemoLength`
/// (so no counter changes), and one within the bound is accepted whenever
/// the counters have room.
pub proof fn reason_message_bound(
    p: PoolState,
    t: TransferState,
    reject: RejectTransfer,
    reason_message: Seq<char>,
)
    requires
        same_address(reject.operator, p.operator),
        accounts_match(p, t, reject.mint, reject.sender, t.sender),
        t.status == TransferStatus::Pending,
    ensures
        message_len(reason_message) > MAX_REASON_MESSAGE_LEN ==> reject_refusal(
            reject,
            p,
            t,
            reason_message,
        ) == Some(HandshakeError::InvalidMemoLength),
        message_len(reason_message) <= MAX_REASON_MESSAGE_LEN && can_release(
            p,
            t.amount,
            fee_of(t.amount, p.fee_policy) as u64,
        ) ==> reject_refusal(reject, p, t, reason_message) is None,
{
}

} // verus!
