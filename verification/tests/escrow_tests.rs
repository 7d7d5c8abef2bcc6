use unitpay_settlement::engine::{
    auto_release_payment, confirm_payment, dispute_payment, initialize, lock_payment,
    refund_payment, withdraw_payment, withdraw_platform_fees,
};
use unitpay_settlement::ledger::Balances;
use unitpay_settlement::state::{
    compute_platform_fee, EscrowStatus, PaymentRecord, PaymentType, Transfer, UnitPayError,
    AUTO_RELEASE_DELAY, DISPUTE_WINDOW, SETTLEMENT_TOKEN, VAULT, WITHDRAW_DELAY,
};

const OWNER: u64 = 11;
const USER: u64 = 21;
const LP: u64 = 31;
const STRANGER: u64 = 41;
const LOCK_T: u64 = 1_000_000;

fn locked(amount: u64) -> PaymentRecord {
    let (p, _) = lock_payment(USER, LP, SETTLEMENT_TOKEN, amount, [0; 4], LOCK_T).unwrap();
    p
}

#[test]
fn lock_payment_rejects_other_tokens() {
    let r = lock_payment(USER, LP, SETTLEMENT_TOKEN - 1, 1000, [0; 4], LOCK_T);
    assert!(matches!(r, Err(UnitPayError::TokenNotSupported)));
}

#[test]
fn lock_payment_reserves_truncated_fee_and_escrows_principal() {
    let (p, t) = lock_payment(USER, LP, SETTLEMENT_TOKEN, 1000, [1, 2, 3, 4], LOCK_T).unwrap();
    assert_eq!(p.amount, 1000);
    assert_eq!(p.platform_fee, 5);
    assert_eq!(p.timestamp, LOCK_T);
    assert_eq!(p.lock_time, LOCK_T);
    assert_eq!(p.release_time, 0);
    assert_eq!(p.payment_seed, [1, 2, 3, 4]);
    assert_eq!(p.payment_type, PaymentType::Escrow);
    assert_eq!(p.escrow_status, EscrowStatus::Locked);
    assert!(!p.is_disputed);
    assert_eq!(t, Transfer { token: SETTLEMENT_TOKEN, from: USER, to: VAULT, amount: 1000 });

    let mut book = Balances::new();
    book.set_balance(USER, 1500);
    book.apply_transfer(&t);
    assert_eq!(book.balance_of(USER), 500);
    assert_eq!(book.balance_of(VAULT), 1000);
}

#[test]
fn platform_fee_truncates() {
    assert_eq!(compute_platform_fee(0), 0);
    assert_eq!(compute_platform_fee(199), 0);
    assert_eq!(compute_platform_fee(200), 1);
    assert_eq!(compute_platform_fee(999), 4);
    assert_eq!(compute_platform_fee(1000), 5);
    // The double-width intermediate product makes the fee exact for every
    // 64-bit principal.
    assert_eq!(compute_platform_fee(u64::MAX), 92_233_720_368_547_758);
}

#[test]
fn confirm_requires_locked_status_and_user() {
    let mut p = locked(1000);
    assert_eq!(confirm_payment(&mut p, LP, LOCK_T + 1), Err(UnitPayError::Unauthorized));
    assert_eq!(p.escrow_status, EscrowStatus::Locked);
    assert_eq!(confirm_payment(&mut p, USER, LOCK_T + 1), Ok(()));
    assert_eq!(p.escrow_status, EscrowStatus::Confirmed);
    assert_eq!(p.release_time, LOCK_T + 1);
    // Effective exactly once: a second confirmation finds a non-locked record.
    assert_eq!(confirm_payment(&mut p, USER, LOCK_T + 2), Err(UnitPayError::InvalidStatus));
    assert_eq!(p.release_time, LOCK_T + 1);
}

#[test]
fn auto_release_is_time_gated_and_effective_once() {
    let mut p = locked(1000);
    let due = LOCK_T + AUTO_RELEASE_DELAY;
    assert_eq!(auto_release_payment(&mut p, due - 1), Err(UnitPayError::NotDueYet));
    assert_eq!(p.escrow_status, EscrowStatus::Locked);
    assert_eq!(auto_release_payment(&mut p, due), Ok(()));
    assert_eq!(p.escrow_status, EscrowStatus::Confirmed);
    assert_eq!(p.release_time, due);
    assert_eq!(auto_release_payment(&mut p, due + 1), Err(UnitPayError::InvalidStatus));
    // The same applies after a manual confirmation.
    let mut q = locked(1000);
    assert_eq!(confirm_payment(&mut q, USER, LOCK_T + 1), Ok(()));
    assert_eq!(auto_release_payment(&mut q, due), Err(UnitPayError::InvalidStatus));
}

#[test]
fn dispute_requires_locked_window_and_participant() {
    let mut p = locked(1000);
    let edge = LOCK_T + DISPUTE_WINDOW;
    assert_eq!(dispute_payment(&mut p, STRANGER, LOCK_T + 1), Err(UnitPayError::NotPaymentParticipant));
    assert_eq!(dispute_payment(&mut p, USER, edge + 1), Err(UnitPayError::DisputeWindowClosed));
    // Exactly at the window edge the dispute still succeeds (the record is
    // still locked only if nobody auto-released it).
    assert_eq!(dispute_payment(&mut p, USER, edge), Ok(()));
    assert!(p.is_disputed);
    assert_eq!(p.escrow_status, EscrowStatus::Locked);
    // A second dispute is rejected rather than silently succeeding.
    assert_eq!(dispute_payment(&mut p, LP, edge), Err(UnitPayError::AlreadyDisputed));
}

#[test]
fn lp_may_dispute_too() {
    let mut p = locked(1000);
    assert_eq!(dispute_payment(&mut p, LP, LOCK_T + 10), Ok(()));
    assert!(p.is_disputed);
}

#[test]
fn dispute_after_confirmation_fails_even_inside_window() {
    let mut p = locked(1000);
    assert_eq!(confirm_payment(&mut p, USER, LOCK_T + 10), Ok(()));
    // Well inside the nominal 72-hour window, but the record left Locked.
    let r = dispute_payment(&mut p, USER, LOCK_T + 20);
    assert_eq!(r, Err(UnitPayError::InvalidStatus));
    assert!(!p.is_disputed);
}

#[test]
fn withdraw_respects_cooldown_caller_and_status() {
    let mut g = initialize(OWNER, SETTLEMENT_TOKEN);
    let mut p = locked(1000);
    assert_eq!(
        withdraw_payment(&mut p, &mut g, LP, LOCK_T + 1),
        Err(UnitPayError::InvalidStatus)
    );
    assert_eq!(confirm_payment(&mut p, USER, LOCK_T + 100), Ok(()));
    let due = p.release_time + WITHDRAW_DELAY;
    assert_eq!(withdraw_payment(&mut p, &mut g, LP, due - 1), Err(UnitPayError::NotDueYet));
    assert_eq!(withdraw_payment(&mut p, &mut g, USER, due), Err(UnitPayError::Unauthorized));
    assert_eq!(g.platform_pending_fees, 0);
    // Succeeds exactly at the boundary.
    let t = withdraw_payment(&mut p, &mut g, LP, due).unwrap();
    assert_eq!(t, Transfer { token: SETTLEMENT_TOKEN, from: VAULT, to: LP, amount: 995 });
    assert_eq!(p.escrow_status, EscrowStatus::Released);
    assert_eq!(g.platform_pending_fees, 5);
    // Effective exactly once.
    assert_eq!(withdraw_payment(&mut p, &mut g, LP, due + 1), Err(UnitPayError::InvalidStatus));
    assert_eq!(g.platform_pending_fees, 5);
}

#[test]
fn refund_requires_dispute_flag() {
    let mut p = locked(1000);
    assert_eq!(refund_payment(&mut p), Err(UnitPayError::NotDisputed));
    assert_eq!(p.escrow_status, EscrowStatus::Locked);
}

#[test]
fn dispute_does_not_block_release_and_refund_needs_only_the_flag() {
    // Disputing leaves the record locked, so it can still be confirmed; and
    // because refunding checks nothing but the dispute flag, it still
    // succeeds on the confirmed record — the deliberately weak refund
    // authorization the engine preserves.
    let mut p = locked(1000);
    assert_eq!(dispute_payment(&mut p, USER, LOCK_T + 100), Ok(()));
    assert_eq!(p.escrow_status, EscrowStatus::Locked);
    assert_eq!(confirm_payment(&mut p, USER, LOCK_T + 200), Ok(()));
    assert_eq!(p.escrow_status, EscrowStatus::Confirmed);
    let t = refund_payment(&mut p).unwrap();
    assert_eq!(t.amount, 1000);
    assert_eq!(t.to, USER);
    assert_eq!(p.escrow_status, EscrowStatus::Refunded);
}

#[test]
fn auto_release_then_withdraw_scenario() {
    // Lock 1000: the fee reserved is 5; auto-release at lock + 3h; withdraw
    // at release + 24h: the LP receives 995 and the pending fees grow by 5.
    let mut g = initialize(OWNER, SETTLEMENT_TOKEN);
    let mut book = Balances::new();
    book.set_balance(USER, 1000);

    let (mut p, t_lock) = lock_payment(USER, LP, SETTLEMENT_TOKEN, 1000, [0; 4], LOCK_T).unwrap();
    assert_eq!(p.platform_fee, 5);
    book.apply_transfer(&t_lock);
    assert_eq!(book.balance_of(USER), 0);
    assert_eq!(book.balance_of(VAULT), 1000);

    let released_at = LOCK_T + AUTO_RELEASE_DELAY;
    assert_eq!(auto_release_payment(&mut p, released_at), Ok(()));

    let withdrawn_at = released_at + WITHDRAW_DELAY;
    let t_out = withdraw_payment(&mut p, &mut g, LP, withdrawn_at).unwrap();
    assert_eq!(t_out.amount, 995);
    book.apply_transfer(&t_out);
    assert_eq!(book.balance_of(LP), 995);
    assert_eq!(book.balance_of(VAULT), 5);
    assert_eq!(g.platform_pending_fees, 5);

    // Value conservation: principal = paid to LP + platform fee.
    assert_eq!(p.amount, t_out.amount + p.platform_fee);

    // The owner collects the fee; the vault is drained completely.
    let t_fees = withdraw_platform_fees(&mut g, OWNER).unwrap();
    assert_eq!(t_fees.amount, 5);
    book.apply_transfer(&t_fees);
    assert_eq!(book.balance_of(VAULT), 0);
    assert_eq!(book.balance_of(OWNER), 5);
    assert_eq!(g.platform_pending_fees, 0);
}

#[test]
fn dispute_then_refund_scenario() {
    // Lock 1000, dispute one hour in while still locked, refund: the user's
    // balance is fully restored and no fee is collected.
    let g = initialize(OWNER, SETTLEMENT_TOKEN);
    let mut book = Balances::new();
    book.set_balance(USER, 1000);

    let (mut p, t_lock) = lock_payment(USER, LP, SETTLEMENT_TOKEN, 1000, [0; 4], LOCK_T).unwrap();
    book.apply_transfer(&t_lock);
    assert_eq!(book.balance_of(USER), 0);

    assert_eq!(dispute_payment(&mut p, USER, LOCK_T + 3600), Ok(()));
    let t_refund = refund_payment(&mut p).unwrap();
    assert_eq!(p.escrow_status, EscrowStatus::Refunded);
    assert_eq!(
        t_refund,
        Transfer { token: SETTLEMENT_TOKEN, from: VAULT, to: USER, amount: 1000 }
    );
    book.apply_transfer(&t_refund);
    assert_eq!(book.balance_of(USER), 1000);
    assert_eq!(book.balance_of(VAULT), 0);
    assert_eq!(book.balance_of(LP), 0);
    assert_eq!(g.platform_pending_fees, 0);
}
