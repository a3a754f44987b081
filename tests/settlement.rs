use handshake::{
    accept_transfer, compute_expiry_fee, compute_fee, create_transfer, expire_transfer,
    plan_accept, plan_expire, plan_reject, reject_transfer, AcceptTransfer, Address,
    ExpireTransfer, FeePolicy, HandshakeError, LedgerError, Pool, RejectTransfer,
    SecureTransfer, TransferStatus,
};

fn addr(n: u8) -> Address {
    Address::new([n; 32])
}

fn pool_id() -> Address {
    addr(1)
}
fn operator() -> Address {
    addr(2)
}
fn mint() -> Address {
    addr(3)
}
fn sender() -> Address {
    addr(4)
}
fn recipient() -> Address {
    addr(5)
}
fn stranger() -> Address {
    addr(9)
}
fn transfer_key() -> Address {
    addr(7)
}

fn two_percent() -> FeePolicy {
    FeePolicy { fee_bps: 200, min_fee: 0, max_fee: u64::MAX, charge_on_expiry: true }
}

fn new_pool(policy: FeePolicy) -> Pool {
    Pool::new(pool_id(), operator(), mint(), policy)
}

fn open(pool: &mut Pool, amount: u64, expires_at: Option<i64>) -> SecureTransfer {
    create_transfer(pool, sender(), recipient(), amount, 100, expires_at, Ok(())).unwrap()
}

fn accept_ctx() -> AcceptTransfer {
    AcceptTransfer { operator: operator(), transfer: transfer_key(), mint: mint(), recipient: recipient() }
}

fn reject_ctx() -> RejectTransfer {
    RejectTransfer { operator: operator(), transfer: transfer_key(), mint: mint(), sender: sender() }
}

fn expire_ctx() -> ExpireTransfer {
    ExpireTransfer { transfer: transfer_key(), mint: mint(), sender: sender() }
}

/// (deposited, withdrawn, fees, resolved)
fn counters(pool: &Pool) -> (u64, u64, u64, u64) {
    (
        pool.total_deposited(),
        pool.total_withdrawn(),
        pool.total_fees_collected(),
        pool.transfers_resolved(),
    )
}

fn assert_balanced(pool: &Pool) {
    assert!(pool.total_withdrawn() + pool.total_fees_collected() <= pool.total_deposited());
}

#[test]
fn fee_two_percent_of_thousand() {
    assert_eq!(compute_fee(1000, &two_percent()), 20);
}

#[test]
fn fee_rounds_down() {
    assert_eq!(compute_fee(49, &two_percent()), 0);
    assert_eq!(compute_fee(50, &two_percent()), 1);
    assert_eq!(compute_fee(99, &two_percent()), 1);
}

#[test]
fn fee_is_clamped_to_min_and_max() {
    let p = FeePolicy { fee_bps: 200, min_fee: 5, max_fee: 30, charge_on_expiry: true };
    assert_eq!(compute_fee(100, &p), 5);
    assert_eq!(compute_fee(1000, &p), 20);
    assert_eq!(compute_fee(10_000, &p), 30);
}

#[test]
fn fee_never_exceeds_amount() {
    let p = FeePolicy { fee_bps: 200, min_fee: 50, max_fee: 100, charge_on_expiry: true };
    assert_eq!(compute_fee(10, &p), 10);
    assert_eq!(compute_fee(0, &p), 0);
    let full = FeePolicy { fee_bps: 10_000, min_fee: 0, max_fee: u64::MAX, charge_on_expiry: true };
    assert_eq!(compute_fee(u64::MAX, &full), u64::MAX);
    assert_eq!(compute_fee(u64::MAX, &two_percent()), u64::MAX / 10_000 * 200 + (u64::MAX % 10_000) * 200 / 10_000);
}

#[test]
fn expiry_fee_follows_policy() {
    let free = FeePolicy { charge_on_expiry: false, ..two_percent() };
    assert_eq!(compute_expiry_fee(1000, &free), 0);
    assert_eq!(compute_expiry_fee(1000, &two_percent()), 20);
}

#[test]
fn policy_validity() {
    assert!(two_percent().is_valid());
    assert!(!FeePolicy { fee_bps: 10_001, ..two_percent() }.is_valid());
    assert!(!FeePolicy { min_fee: 10, max_fee: 9, ..two_percent() }.is_valid());
}

#[test]
fn new_pool_starts_empty() {
    let pool = new_pool(two_percent());
    assert_eq!(counters(&pool), (0, 0, 0, 0));
    assert_eq!(pool.pool_id(), pool_id());
    assert_eq!(pool.operator(), operator());
    assert_eq!(pool.mint(), mint());
    assert_eq!(pool.fee_policy(), two_percent());
    assert_eq!(pool.calculate_transfer_fee(1000), 20);
}

#[test]
fn create_records_deposit() {
    let mut pool = new_pool(two_percent());
    let t = open(&mut pool, 1000, Some(500));
    assert_eq!(counters(&pool), (1000, 0, 0, 0));
    assert_eq!(t.pool(), pool_id());
    assert_eq!(t.sender(), sender());
    assert_eq!(t.recipient(), recipient());
    assert_eq!(t.amount(), 1000);
    assert_eq!(t.status(), TransferStatus::Pending);
    assert_eq!(t.created_at(), 100);
    assert_eq!(t.expires_at(), Some(500));
    assert!(t.validate_active().is_ok());
}

#[test]
fn create_refuses_deposit_overflow() {
    let mut pool = new_pool(two_percent());
    let _t = open(&mut pool, u64::MAX, None);
    let r = create_transfer(&mut pool, sender(), recipient(), 1, 100, None, Ok(()));
    assert!(matches!(r, Err(HandshakeError::ArithmeticOverflow)));
    assert_eq!(counters(&pool), (u64::MAX, 0, 0, 0));
}

#[test]
fn create_propagates_ledger_failure() {
    let mut pool = new_pool(two_percent());
    let r = create_transfer(&mut pool, sender(), recipient(), 10, 100, None, Err(LedgerError { code: 3 }));
    assert!(matches!(r, Err(HandshakeError::Ledger(LedgerError { code: 3 }))));
    assert_eq!(counters(&pool), (0, 0, 0, 0));
}

#[test]
fn accept_two_percent_scenario() {
    let mut pool = new_pool(two_percent());
    let mut t = open(&mut pool, 1000, None);
    let _other = open(&mut pool, 1000, None);
    let payout = plan_accept(&accept_ctx(), &pool, &t).unwrap();
    assert_eq!(payout.to, recipient());
    assert_eq!(payout.fee, 20);
    assert_eq!(payout.amount, 980);
    let ev = accept_transfer(&accept_ctx(), &mut pool, &mut t, Ok(())).unwrap();
    assert_eq!(ev.fee, 20);
    assert_eq!(ev.net_amount, 980);
    assert_eq!(ev.amount, 1000);
    assert_eq!(ev.transfer, transfer_key());
    assert_eq!(ev.pool, pool_id());
    assert_eq!(ev.sender, sender());
    assert_eq!(ev.recipient, recipient());
    assert_eq!(counters(&pool), (2000, 1000, 20, 1));
    assert_eq!(t.status(), TransferStatus::Accepted);
    assert_balanced(&pool);
}

#[test]
fn reject_two_percent_scenario() {
    let mut pool = new_pool(two_percent());
    let mut t = open(&mut pool, 1000, None);
    let _other = open(&mut pool, 1000, None);
    let msg = String::from("recipient unknown");
    let payout = plan_reject(&reject_ctx(), &pool, &t, &msg).unwrap();
    assert_eq!(payout.to, sender());
    assert_eq!(payout.fee, 20);
    assert_eq!(payout.amount, 980);
    let ev = reject_transfer(&reject_ctx(), &mut pool, &mut t, 7, msg, Ok(())).unwrap();
    assert_eq!(ev.fee, 20);
    assert_eq!(ev.net_amount, 980);
    assert_eq!(ev.amount, 1000);
    assert_eq!(ev.reason_code, 7);
    assert_eq!(ev.reason_message, "recipient unknown");
    assert_eq!(ev.sender, sender());
    assert_eq!(counters(&pool), (2000, 1000, 20, 1));
    assert_eq!(t.status(), TransferStatus::Rejected);
    assert_balanced(&pool);
}

#[test]
fn zero_amount_settles_without_fee() {
    let mut pool = new_pool(two_percent());
    let mut t = open(&mut pool, 0, None);
    let ev = accept_transfer(&accept_ctx(), &mut pool, &mut t, Ok(())).unwrap();
    assert_eq!(ev.fee, 0);
    assert_eq!(ev.net_amount, 0);
    assert_eq!(counters(&pool), (0, 0, 0, 1));
    assert_eq!(t.status(), TransferStatus::Accepted);
}

#[test]
fn zero_amount_reject_settles() {
    let mut pool = new_pool(two_percent());
    let mut t = open(&mut pool, 0, None);
    let ev = reject_transfer(&reject_ctx(), &mut pool, &mut t, 1, String::new(), Ok(())).unwrap();
    assert_eq!(ev.fee, 0);
    assert_eq!(ev.net_amount, 0);
    assert_eq!(counters(&pool), (0, 0, 0, 1));
    assert_eq!(t.status(), TransferStatus::Rejected);
}

#[test]
fn add_collected_fees_zero_is_noop() {
    let mut pool = new_pool(two_percent());
    assert!(pool.add_collected_fees(0).is_ok());
    assert_eq!(counters(&pool), (0, 0, 0, 0));
}

#[test]
fn pool_counters_keep_balance() {
    let mut pool = new_pool(two_percent());
    assert!(pool.add_deposit(100).is_ok());
    assert!(pool.add_withdrawal(60).is_ok());
    assert_eq!(pool.add_withdrawal(41), Err(HandshakeError::ArithmeticOverflow));
    assert!(pool.add_collected_fees(40).is_ok());
    assert_eq!(pool.add_collected_fees(1), Err(HandshakeError::ArithmeticOverflow));
    assert!(pool.increment_transfers_resolved().is_ok());
    assert_eq!(counters(&pool), (100, 60, 40, 1));
    assert!(pool.can_release(0, 0));
    assert!(!pool.can_release(1, 0));
    assert_balanced(&pool);
}

#[test]
fn settling_beyond_deposits_is_refused() {
    // The whole amount is counted as withdrawn and the fee as collected, so a
    // pool holding only this transfer has no room for a non-zero fee.
    let mut pool = new_pool(two_percent());
    let mut t = open(&mut pool, 1000, None);
    let r = accept_transfer(&accept_ctx(), &mut pool, &mut t, Ok(()));
    assert_eq!(r.unwrap_err(), HandshakeError::ArithmeticOverflow);
    assert_eq!(counters(&pool), (1000, 0, 0, 0));
    assert_eq!(t.status(), TransferStatus::Pending);
    assert_balanced(&pool);
}

#[test]
fn second_settlement_is_inactive() {
    let mut pool = new_pool(two_percent());
    let mut t = open(&mut pool, 1000, Some(0));
    let _other = open(&mut pool, 1000, None);
    accept_transfer(&accept_ctx(), &mut pool, &mut t, Ok(())).unwrap();
    let after = counters(&pool);
    let r = reject_transfer(&reject_ctx(), &mut pool, &mut t, 1, String::from("late"), Ok(()));
    assert_eq!(r.unwrap_err(), HandshakeError::InactiveTransfer);
    let r = accept_transfer(&accept_ctx(), &mut pool, &mut t, Ok(()));
    assert_eq!(r.unwrap_err(), HandshakeError::InactiveTransfer);
    let r = expire_transfer(&expire_ctx(), &mut pool, &mut t, 10, Ok(()));
    assert_eq!(r.unwrap_err(), HandshakeError::InactiveTransfer);
    assert_eq!(counters(&pool), after);
    assert_eq!(t.status(), TransferStatus::Accepted);
    assert_eq!(t.validate_active(), Err(HandshakeError::InactiveTransfer));
}

#[test]
fn reject_twice_keeps_first() {
    let mut pool = new_pool(two_percent());
    let mut t = open(&mut pool, 1000, None);
    let _other = open(&mut pool, 1000, None);
    reject_transfer(&reject_ctx(), &mut pool, &mut t, 2, String::from("no"), Ok(())).unwrap();
    let r = reject_transfer(&reject_ctx(), &mut pool, &mut t, 3, String::from("again"), Ok(()));
    assert_eq!(r.unwrap_err(), HandshakeError::InactiveTransfer);
    assert_eq!(counters(&pool), (2000, 1000, 20, 1));
    assert_eq!(t.status(), TransferStatus::Rejected);
}

#[test]
fn mark_functions_only_leave_pending() {
    let mut pool = new_pool(two_percent());
    let mut t = open(&mut pool, 5, None);
    assert!(t.mark_as_expired().is_ok());
    assert_eq!(t.status(), TransferStatus::Expired);
    assert_eq!(t.mark_as_accepted(), Err(HandshakeError::InactiveTransfer));
    assert_eq!(t.mark_as_rejected(), Err(HandshakeError::InactiveTransfer));
    assert_eq!(t.mark_as_expired(), Err(HandshakeError::InactiveTransfer));
    assert_eq!(t.status(), TransferStatus::Expired);
}

#[test]
fn non_operator_is_unauthorized() {
    let mut pool = new_pool(two_percent());
    let mut t = open(&mut pool, 1000, None);
    let _other = open(&mut pool, 1000, None);
    let bad_accept = AcceptTransfer { operator: stranger(), ..accept_ctx() };
    let bad_reject = RejectTransfer { operator: stranger(), ..reject_ctx() };
    let r = accept_transfer(&bad_accept, &mut pool, &mut t, Ok(()));
    assert_eq!(r.unwrap_err(), HandshakeError::Unauthorized);
    let r = reject_transfer(&bad_reject, &mut pool, &mut t, 1, String::new(), Ok(()));
    assert_eq!(r.unwrap_err(), HandshakeError::Unauthorized);
    assert_eq!(counters(&pool), (2000, 0, 0, 0));
    // Also once the transfer is settled.
    accept_transfer(&accept_ctx(), &mut pool, &mut t, Ok(())).unwrap();
    let r = reject_transfer(&bad_reject, &mut pool, &mut t, 1, String::new(), Ok(()));
    assert_eq!(r.unwrap_err(), HandshakeError::Unauthorized);
    let r = accept_transfer(&bad_accept, &mut pool, &mut t, Ok(()));
    assert_eq!(r.unwrap_err(), HandshakeError::Unauthorized);
}

#[test]
fn reason_message_of_201_bytes_is_refused() {
    let mut pool = new_pool(two_percent());
    let mut t = open(&mut pool, 1000, None);
    let _other = open(&mut pool, 1000, None);
    let long = "x".repeat(201);
    let r = reject_transfer(&reject_ctx(), &mut pool, &mut t, 1, long, Ok(()));
    assert_eq!(r.unwrap_err(), HandshakeError::InvalidMemoLength);
    assert_eq!(counters(&pool), (2000, 0, 0, 0));
    assert_eq!(t.status(), TransferStatus::Pending);
    let exact = "x".repeat(200);
    let ev = reject_transfer(&reject_ctx(), &mut pool, &mut t, 1, exact, Ok(())).unwrap();
    assert_eq!(ev.reason_message.len(), 200);
    assert_eq!(t.status(), TransferStatus::Rejected);
}

#[test]
fn reason_message_counts_bytes() {
    let mut pool = new_pool(two_percent());
    let t = open(&mut pool, 1000, None);
    let _other = open(&mut pool, 1000, None);
    let two_byte_101 = "\u{e9}".repeat(101);
    assert_eq!(plan_reject(&reject_ctx(), &pool, &t, &two_byte_101).unwrap_err(), HandshakeError::InvalidMemoLength);
    let two_byte_100 = "\u{e9}".repeat(100);
    assert!(plan_reject(&reject_ctx(), &pool, &t, &two_byte_100).is_ok());
}

#[test]
fn expire_before_deadline_fails() {
    let mut pool = new_pool(two_percent());
    let mut t = open(&mut pool, 1000, Some(500));
    let _other = open(&mut pool, 1000, None);
    let r = expire_transfer(&expire_ctx(), &mut pool, &mut t, 499, Ok(()));
    assert_eq!(r.unwrap_err(), HandshakeError::TransferNotExpired);
    assert_eq!(counters(&pool), (2000, 0, 0, 0));
    assert_eq!(t.status(), TransferStatus::Pending);
}

#[test]
fn expire_after_deadline_refunds_sender() {
    let mut pool = new_pool(two_percent());
    let mut t = open(&mut pool, 1000, Some(500));
    let _other = open(&mut pool, 1000, None);
    let payout = plan_expire(&expire_ctx(), &pool, &t, 500).unwrap();
    assert_eq!(payout.to, sender());
    assert_eq!(payout.amount, 980);
    let ev = expire_transfer(&expire_ctx(), &mut pool, &mut t, 501, Ok(())).unwrap();
    assert_eq!(ev.fee, 20);
    assert_eq!(ev.net_amount, 980);
    assert_eq!(ev.sender, sender());
    assert_eq!(ev.reason_code, handshake::settlement::EXPIRY_REASON_CODE);
    assert_eq!(counters(&pool), (2000, 1000, 20, 1));
    assert_eq!(t.status(), TransferStatus::Expired);
}

#[test]
fn expire_free_when_policy_says_so() {
    let mut pool = new_pool(FeePolicy { charge_on_expiry: false, ..two_percent() });
    let mut t = open(&mut pool, 1000, Some(500));
    let ev = expire_transfer(&expire_ctx(), &mut pool, &mut t, 600, Ok(())).unwrap();
    assert_eq!(ev.fee, 0);
    assert_eq!(ev.net_amount, 1000);
    assert_eq!(counters(&pool), (1000, 1000, 0, 1));
}

#[test]
fn expire_without_deadline_fails() {
    let mut pool = new_pool(two_percent());
    let mut t = open(&mut pool, 1000, None);
    let r = expire_transfer(&expire_ctx(), &mut pool, &mut t, i64::MAX, Ok(()));
    assert_eq!(r.unwrap_err(), HandshakeError::TransferNotExpired);
}

#[test]
fn ledger_failure_changes_nothing() {
    let mut pool = new_pool(two_percent());
    let mut t = open(&mut pool, 1000, None);
    let _other = open(&mut pool, 1000, None);
    let r = reject_transfer(&reject_ctx(), &mut pool, &mut t, 1, String::new(), Err(LedgerError { code: 17 }));
    assert_eq!(r.unwrap_err(), HandshakeError::Ledger(LedgerError { code: 17 }));
    let r = accept_transfer(&accept_ctx(), &mut pool, &mut t, Err(LedgerError { code: 4 }));
    assert_eq!(r.unwrap_err(), HandshakeError::Ledger(LedgerError { code: 4 }));
    assert_eq!(counters(&pool), (2000, 0, 0, 0));
    assert_eq!(t.status(), TransferStatus::Pending);
}

#[test]
fn mismatched_accounts_are_refused() {
    let mut pool = new_pool(two_percent());
    let mut t = open(&mut pool, 1000, None);
    let _other = open(&mut pool, 1000, None);
    let wrong_mint = RejectTransfer { mint: stranger(), ..reject_ctx() };
    let r = reject_transfer(&wrong_mint, &mut pool, &mut t, 1, String::new(), Ok(()));
    assert_eq!(r.unwrap_err(), HandshakeError::AccountMismatch);
    let wrong_payee = AcceptTransfer { recipient: sender(), ..accept_ctx() };
    let r = accept_transfer(&wrong_payee, &mut pool, &mut t, Ok(()));
    assert_eq!(r.unwrap_err(), HandshakeError::AccountMismatch);
    let mut other_pool = Pool::new(addr(8), operator(), mint(), two_percent());
    let _deposit = open(&mut other_pool, 5000, None);
    let r = accept_transfer(&accept_ctx(), &mut other_pool, &mut t, Ok(()));
    assert_eq!(r.unwrap_err(), HandshakeError::AccountMismatch);
    assert_eq!(t.status(), TransferStatus::Pending);
}

#[test]
fn address_equality_is_bytewise() {
    assert!(addr(1).same_as(&addr(1)));
    assert!(!addr(1).same_as(&addr(2)));
    let mut bytes = [1u8; 32];
    bytes[31] = 2;
    assert_ne!(Address::new(bytes), addr(1));
}
