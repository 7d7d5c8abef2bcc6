//! System-wide guarantees of the settlement engine, each stated over the
//! spec-level transition model in [`crate::engine`] and the balance model in
//! [`crate::ledger`], and proved once and for all.

use crate::engine::{
    auto_release_allowed, confirm_allowed, confirmed_record, direct_record, dispute_allowed,
    disputed_record, escrow_record, lock_transfer, refund_allowed, refund_transfer,
    refunded_record, released_record, settle_transfer, withdraw_allowed, withdraw_transfer,
};
use crate::ledger::{apply_transfer_spec, balance_in, lemma_transfer_effect};
use crate::state::{
    lemma_platform_fee_bound, platform_fee_of, EscrowStatus, PaymentRecord, PaymentType,
    DISPUTE_WINDOW, VAULT,
};
use vstd::prelude::*;

verus! {

/// A successful direct settlement moves exactly the principal from the
/// user's balance to the LP's and touches no other balance. (A settlement
/// between one and the same account moves nothing, so the two parties are
/// assumed distinct here.)
pub proof fn direct_settlement_moves_amount(
    book: Map<u64, u64>,
    user: u64,
    lp: u64,
    token: u64,
    amount: u64,
)
    requires
        user != lp,
        amount <= balance_in(book, user),
        balance_in(book, lp) + amount <= u64::MAX,
    ensures
        balance_in(apply_transfer_spec(book, settle_transfer(user, lp, token, amount)), lp)
            == balance_in(book, lp) + amount,
        balance_in(apply_transfer_spec(book, settle_transfer(user, lp, token, amount)), user)
            == balance_in(book, user) - amount,
        forall|other: u64| other != user && other != lp ==> balance_in(
            apply_transfer_spec(book, settle_transfer(user, lp, token, amount)),
            other,
        ) == balance_in(book, other),
{
    lemma_transfer_effect(book, settle_transfer(user, lp, token, amount));
}

/// A direct settlement record is terminal: its escrow status is `NoEscrow`
/// and no lifecycle operation — confirm, auto release, withdraw, dispute or
/// refund — ever succeeds on it, whoever calls and whenever.
pub proof fn direct_record_is_terminal(
    user: u64,
    lp: u64,
    token: u64,
    amount: u64,
    payment_seed: [u8; 4],
    created: u64,
    caller: u64,
    now: u64,
)
    ensures
        direct_record(user, lp, token, amount, payment_seed, created).escrow_status
            is NoEscrow,
        !confirm_allowed(direct_record(user, lp, token, amount, payment_seed, created), caller),
        !auto_release_allowed(direct_record(user, lp, token, amount, payment_seed, created), now),
        !withdraw_allowed(direct_record(user, lp, token, amount, payment_seed, created), caller, now),
        !dispute_allowed(direct_record(user, lp, token, amount, payment_seed, created), caller, now),
        !refund_allowed(direct_record(user, lp, token, amount, payment_seed, created)),
{
}

/// A successful lock reserves exactly `floor(amount * 5 / 1000)` as the
/// platform fee and moves exactly the full principal from the user's balance
/// into the vault, touching no other balance. (The vault is the engine's own
/// custody balance, so the user is assumed distinct from it.)
pub proof fn lock_escrows_amount(
    book: Map<u64, u64>,
    user: u64,
    lp: u64,
    token: u64,
    amount: u64,
    payment_seed: [u8; 4],
    now: u64,
)
    requires
        user != VAULT,
        amount <= balance_in(book, user),
        balance_in(book, VAULT) + amount <= u64::MAX,
    ensures
        escrow_record(user, lp, token, amount, payment_seed, now).platform_fee == platform_fee_of(
            amount,
        ),
        balance_in(apply_transfer_spec(book, lock_transfer(user, token, amount)), VAULT)
            == balance_in(book, VAULT) + amount,
        balance_in(apply_transfer_spec(book, lock_transfer(user, token, amount)), user)
            == balance_in(book, user) - amount,
        forall|other: u64| other != user && other != VAULT ==> balance_in(
            apply_transfer_spec(book, lock_transfer(user, token, amount)),
            other,
        ) == balance_in(book, other),
{
    lemma_platform_fee_bound(amount);
    lemma_transfer_effect(book, lock_transfer(user, token, amount));
}

/// Value conservation on release: what the withdrawal hands the LP plus the
/// platform fee equals the principal exactly. Together with
/// `withdraw_payment`'s contract — which adds exactly `platform_fee` to the
/// pending-fee accumulator in the same atomic step — every unit locked is
/// accounted for.
pub proof fn release_conserves_value(p: PaymentRecord)
    requires
        p.wf(),
        p.payment_type is Escrow,
    ensures
        withdraw_transfer(p).amount + p.platform_fee == p.amount,
{
    lemma_platform_fee_bound(p.amount);
}

/// The transfer a withdrawal requests moves exactly `amount - platform_fee`
/// from the vault to the LP and touches no other balance.
pub proof fn release_pays_lp(book: Map<u64, u64>, p: PaymentRecord)
    requires
        p.wf(),
        p.payment_type is Escrow,
        p.lp != VAULT,
        p.amount - p.platform_fee <= balance_in(book, VAULT),
        balance_in(book, p.lp) + (p.amount - p.platform_fee) <= u64::MAX,
    ensures
        balance_in(apply_transfer_spec(book, withdraw_transfer(p)), p.lp) == balance_in(
            book,
            p.lp,
        ) + (p.amount - p.platform_fee),
        balance_in(apply_transfer_spec(book, withdraw_transfer(p)), VAULT) == balance_in(
            book,
            VAULT,
        ) - (p.amount - p.platform_fee),
        forall|other: u64| other != p.lp && other != VAULT ==> balance_in(
            apply_transfer_spec(book, withdraw_transfer(p)),
            other,
        ) == balance_in(book, other),
{
    lemma_platform_fee_bound(p.amount);
    lemma_transfer_effect(book, withdraw_transfer(p));
}

/// A refund returns exactly the full principal from the vault to the user's
/// balance — the platform fee is not collected — and touches no other
/// balance; in particular the owner's balance is unchanged, and
/// `refund_payment` never touches the configuration record, so the
/// pending-fee accumulator is unchanged too.
pub proof fn refund_restores_user(book: Map<u64, u64>, p: PaymentRecord)
    requires
        p.user != VAULT,
        p.amount <= balance_in(book, VAULT),
        balance_in(book, p.user) + p.amount <= u64::MAX,
    ensures
        balance_in(apply_transfer_spec(book, refund_transfer(p)), p.user) == balance_in(
            book,
            p.user,
        ) + p.amount,
        balance_in(apply_transfer_spec(book, refund_transfer(p)), VAULT) == balance_in(
            book,
            VAULT,
        ) - p.amount,
        forall|other: u64| other != p.user && other != VAULT ==> balance_in(
            apply_transfer_spec(book, refund_transfer(p)),
            other,
        ) == balance_in(book, other),
{
    lemma_transfer_effect(book, refund_transfer(p));
}

/// What a payment *is* never changes: every lifecycle transition preserves
/// the parties, the token, the principal, the reserved fee, the correlation
/// seed, the creation time and the payment type. Only the escrow status, the
/// release time and the dispute flag ever move.
pub proof fn transitions_preserve_identity(p: PaymentRecord, now: u64)
    ensures
        identity_preserved(p, confirmed_record(p, now)),
        identity_preserved(p, released_record(p)),
        identity_preserved(p, disputed_record(p)),
        identity_preserved(p, refunded_record(p)),
{
}

/// The fields fixed at creation agree between two lifecycle states of one
/// payment.
pub open spec fn identity_preserved(before: PaymentRecord, after: PaymentRecord) -> bool {
    &&& after.user == before.user
    &&& after.lp == before.lp
    &&& after.token == before.token
    &&& after.amount == before.amount
    &&& after.platform_fee == before.platform_fee
    &&& after.payment_seed == before.payment_seed
    &&& after.timestamp == before.timestamp
    &&& after.lock_time == before.lock_time
    &&& after.payment_type == before.payment_type
}

/// Leaving `Locked` happens at most once per payment: after a confirmation
/// or an auto release — both produce the same confirmed record — neither a
/// second confirmation nor an auto release is ever allowed again, whoever
/// calls and whenever.
pub proof fn release_effective_once(p: PaymentRecord, now: u64, later_caller: u64, later: u64)
    ensures
        !confirm_allowed(confirmed_record(p, now), later_caller),
        !auto_release_allowed(confirmed_record(p, now), later),
{
}

/// Disputing is possible only while the escrow is still locked and at most
/// `DISPUTE_WINDOW` after the lock time — and once a payment is confirmed or
/// auto-released it can never be disputed, even inside the nominal window.
/// Since auto release opens after `AUTO_RELEASE_DELAY`, the practical
/// dispute window is that head start, not the nominal 72 hours.
pub proof fn dispute_window_is_closed_by_release(
    p: PaymentRecord,
    caller: u64,
    now: u64,
    release_now: u64,
    later_caller: u64,
    later: u64,
)
    ensures
        dispute_allowed(p, caller, now) ==> p.escrow_status is Locked && now <= p.lock_time
            + DISPUTE_WINDOW,
        !dispute_allowed(confirmed_record(p, release_now), later_caller, later),
{
}

/// Withdrawal is effective exactly once: it requires a confirmed record, and
/// the released record it produces never satisfies the withdrawal
/// precondition again, whoever calls and whenever.
pub proof fn withdraw_effective_once(p: PaymentRecord, later_caller: u64, later: u64)
    ensures
        !withdraw_allowed(released_record(p), later_caller, later),
{
}

} // verus!
