//! The settlement engine: one verified function per operation of the state
//! machine, together with the spec-level model of each transition.
//!
//! Every operation takes the caller's authenticated identity and the current
//! time as plain values (the platform verifies signatures and reads the
//! clock once per operation), mutates the records it was handed, and returns
//! the [`Transfer`] request — if any — that the platform must perform
//! atomically with it. A failed precondition leaves every record unchanged
//! and names the violated condition; the checks run in a fixed order, so the
//! error returned for a given input is pinned exactly.

use crate::state::{
    compute_platform_fee, platform_fee_of, EscrowStatus, GlobalState,
    PaymentRecord, PaymentType, Transfer, UnitPayError, AUTO_RELEASE_DELAY, DISPUTE_WINDOW,
    MAX_ALLOWED_TOKENS, SETTLEMENT_TOKEN, VAULT, WITHDRAW_DELAY,
};
use vstd::prelude::*;

verus! {

// ---------------------------------------------------------------------------
// Spec model of the transitions
// ---------------------------------------------------------------------------

/// The record a direct settlement creates.
pub open spec fn direct_record(
    user: u64,
    lp: u64,
    token: u64,
    amount: u64,
    payment_seed: [u8; 4],
    now: u64,
) -> PaymentRecord {
    PaymentRecord {
        user,
        lp,
        token,
        amount,
        timestamp: now,
        lock_time: 0,
        release_time: 0,
        platform_fee: 0,
        payment_seed,
        payment_type: PaymentType::Direct,
        escrow_status: EscrowStatus::NoEscrow,
        is_disputed: false,
    }
}

/// The record an escrow lock creates: locked at `now`, carrying the platform
/// fee reserved out of its principal.
pub open spec fn escrow_record(
    user: u64,
    lp: u64,
    token: u64,
    amount: u64,
    payment_seed: [u8; 4],
    now: u64,
) -> PaymentRecord {
    PaymentRecord {
        user,
        lp,
        token,
        amount,
        timestamp: now,
        lock_time: now,
        release_time: 0,
        platform_fee: platform_fee_of(amount) as u64,
        payment_seed,
        payment_type: PaymentType::Escrow,
        escrow_status: EscrowStatus::Locked,
        is_disputed: false,
    }
}

/// Settlement and lock accept exactly the configured settlement token.
pub open spec fn token_accepted(token: u64) -> bool {
    token == SETTLEMENT_TOKEN
}

/// The transfer a direct settlement requests: the full principal, user to LP.
pub open spec fn settle_transfer(user: u64, lp: u64, token: u64, amount: u64) -> Transfer {
    Transfer { token, from: user, to: lp, amount }
}

/// The transfer an escrow lock requests: the full principal, user to vault.
pub open spec fn lock_transfer(user: u64, token: u64, amount: u64) -> Transfer {
    Transfer { token, from: user, to: VAULT, amount }
}

/// Confirmation is allowed exactly while the escrow is locked and the caller
/// is the paying user.
pub open spec fn confirm_allowed(p: PaymentRecord, caller: u64) -> bool {
    p.escrow_status is Locked && caller == p.user
}

/// The error a rejected confirmation reports: the status check runs first.
pub open spec fn confirm_error(p: PaymentRecord, caller: u64) -> UnitPayError {
    if !(p.escrow_status is Locked) {
        UnitPayError::InvalidStatus
    } else {
        UnitPayError::Unauthorized
    }
}

/// Confirmation and auto release perform the same state change: the record
/// leaves `Locked` and its release time is fixed at `now`.
pub open spec fn confirmed_record(p: PaymentRecord, now: u64) -> PaymentRecord {
    PaymentRecord { release_time: now, escrow_status: EscrowStatus::Confirmed, ..p }
}

/// Auto release is permissionless but time-gated: allowed exactly while the
/// escrow is locked and its lock is at least `AUTO_RELEASE_DELAY` old.
pub open spec fn auto_release_allowed(p: PaymentRecord, now: u64) -> bool {
    p.escrow_status is Locked && now >= p.lock_time + AUTO_RELEASE_DELAY
}

/// The error a rejected auto release reports: the status check runs first.
pub open spec fn auto_release_error(p: PaymentRecord, now: u64) -> UnitPayError {
    if !(p.escrow_status is Locked) {
        UnitPayError::InvalidStatus
    } else {
        UnitPayError::NotDueYet
    }
}

/// Withdrawal is allowed exactly when the escrow is confirmed, the cooldown
/// after the release time has elapsed, and the caller is the LP.
pub open spec fn withdraw_allowed(p: PaymentRecord, caller: u64, now: u64) -> bool {
    &&& p.escrow_status is Confirmed
    &&& now >= p.release_time + WITHDRAW_DELAY
    &&& caller == p.lp
}

/// The error a rejected withdrawal reports: status, then time, then caller.
pub open spec fn withdraw_error(p: PaymentRecord, caller: u64, now: u64) -> UnitPayError {
    if !(p.escrow_status is Confirmed) {
        UnitPayError::InvalidStatus
    } else if !(now >= p.release_time + WITHDRAW_DELAY) {
        UnitPayError::NotDueYet
    } else {
        UnitPayError::Unauthorized
    }
}

/// A withdrawn escrow record.
pub open spec fn released_record(p: PaymentRecord) -> PaymentRecord {
    PaymentRecord { escrow_status: EscrowStatus::Released, ..p }
}

/// The transfer a withdrawal requests: the principal less the platform fee,
/// vault to LP.
pub open spec fn withdraw_transfer(p: PaymentRecord) -> Transfer {
    Transfer { token: p.token, from: VAULT, to: p.lp, amount: (p.amount - p.platform_fee) as u64 }
}

/// Disputing is allowed exactly while the escrow is still locked, within
/// `DISPUTE_WINDOW` of the lock time, by the user or the LP, and only once.
/// Confirmation and auto release close the window early by leaving `Locked`.
pub open spec fn dispute_allowed(p: PaymentRecord, caller: u64, now: u64) -> bool {
    &&& p.escrow_status is Locked
    &&& now <= p.lock_time + DISPUTE_WINDOW
    &&& (caller == p.user || caller == p.lp)
    &&& !p.is_disputed
}

/// The error a rejected dispute reports: status, then window, then caller,
/// then the repeat-dispute check.
pub open spec fn dispute_error(p: PaymentRecord, caller: u64, now: u64) -> UnitPayError {
    if !(p.escrow_status is Locked) {
        UnitPayError::InvalidStatus
    } else if !(now <= p.lock_time + DISPUTE_WINDOW) {
        UnitPayError::DisputeWindowClosed
    } else if !(caller == p.user || caller == p.lp) {
        UnitPayError::NotPaymentParticipant
    } else {
        UnitPayError::AlreadyDisputed
    }
}

/// A disputed record: the flag is set, the status is untouched.
pub open spec fn disputed_record(p: PaymentRecord) -> PaymentRecord {
    PaymentRecord { is_disputed: true, ..p }
}

/// Refunding requires only that the record carries a dispute flag. The
/// caller's identity is deliberately not consulted; see `refund_payment`.
pub open spec fn refund_allowed(p: PaymentRecord) -> bool {
    p.is_disputed
}

/// A refunded record.
pub open spec fn refunded_record(p: PaymentRecord) -> PaymentRecord {
    PaymentRecord { escrow_status: EscrowStatus::Refunded, ..p }
}

/// The transfer a refund requests: the full principal, vault back to the
/// user, bypassing fee collection.
pub open spec fn refund_transfer(p: PaymentRecord) -> Transfer {
    Transfer { token: p.token, from: VAULT, to: p.user, amount: p.amount }
}

// ---------------------------------------------------------------------------
// Global configuration management
// ---------------------------------------------------------------------------

/// Creates the singleton configuration record: the deploying authority
/// becomes the owner, no fees are pending, and the allow-list holds exactly
/// the initial token. The platform's storage layer guarantees this runs once
/// per deployment; a second attempt fails there because the slot exists.
pub fn initialize(authority: u64, initial_token: u64) -> (g: GlobalState)
    ensures
        g.owner == authority,
        g.platform_pending_fees == 0,
        g.allowed_tokens@ == seq![initial_token],
        g.wf(),
{
    let mut allowed_tokens: Vec<u64> = Vec::new();
    allowed_tokens.push(initial_token);
    GlobalState { owner: authority, platform_pending_fees: 0, allowed_tokens }
}

/// True exactly when the allow-list contains `token`.
fn tokens_contain(tokens: &Vec<u64>, token: u64) -> (found: bool)
    ensures
        found == tokens@.contains(token),
{
    let mut i: usize = 0;
    while i < tokens.len()
        invariant
            i <= tokens@.len(),
            forall|j: int| 0 <= j < i ==> tokens@[j] != token,
        decreases tokens@.len() - i,
    {
        if tokens[i] == token {
            return true;
        }
        i += 1;
    }
    false
}

/// Removes the (unique) occurrence of `token` from the allow-list, if any.
fn remove_token(tokens: &mut Vec<u64>, token: u64)
    ensures
        final(tokens)@ == old(tokens)@.remove_value(token),
{
    let ghost orig = tokens@;
    let mut i: usize = 0;
    while i < tokens.len()
        invariant
            orig == old(tokens)@,
            tokens@ == orig,
            i <= orig.len(),
            forall|j: int| 0 <= j < i ==> orig[j] != token,
        decreases orig.len() - i,
    {
        if tokens[i] == token {
            proof {
                assert(orig.contains(token));
                orig.index_of_first_ensures(token);
                assert(orig.index_of_first(token) == Some(i as int));
            }
            tokens.remove(i);
            return;
        }
        i += 1;
    }
    proof {
        orig.index_of_first_ensures(token);
        assert(!orig.contains(token));
    }
}

/// The allow-list after enabling a token: unchanged when the token is
/// already present, extended by it otherwise.
pub open spec fn enabled_tokens(tokens: Seq<u64>, token: u64) -> Seq<u64> {
    if tokens.contains(token) {
        tokens
    } else {
        tokens.push(token)
    }
}

/// Owner-only maintenance of the token allow-list. Enabling rejects with
/// `TooManyTokens` when the list already sits at its capacity (even if the
/// token is already present — the capacity check runs first), is a no-op for
/// a token already present, and otherwise appends. Disabling removes the
/// token if present and is a no-op otherwise.
pub fn update_token_config(
    global_state: &mut GlobalState,
    caller: u64,
    token: u64,
    enable: bool,
) -> (r: Result<(), UnitPayError>)
    ensures
        final(global_state).owner == old(global_state).owner,
        final(global_state).platform_pending_fees == old(global_state).platform_pending_fees,
        r is Err ==> final(global_state).allowed_tokens@ == old(global_state).allowed_tokens@,
        r is Ok <==> caller == old(global_state).owner && (enable
            ==> old(global_state).allowed_tokens@.len() < MAX_ALLOWED_TOKENS),
        r matches Err(e) ==> e == (if caller != old(global_state).owner {
            UnitPayError::Unauthorized
        } else {
            UnitPayError::TooManyTokens
        }),
        r is Ok && enable ==> final(global_state).allowed_tokens@ == enabled_tokens(
            old(global_state).allowed_tokens@,
            token,
        ),
        r is Ok && !enable ==> final(global_state).allowed_tokens@
            == old(global_state).allowed_tokens@.remove_value(token),
        old(global_state).wf() ==> final(global_state).wf(),
        old(global_state).wf() && r is Ok && !enable
            ==> !final(global_state).allowed_tokens@.contains(token),
{
    if caller != global_state.owner {
        return Err(UnitPayError::Unauthorized);
    }
    if enable {
        if global_state.allowed_tokens.len() >= MAX_ALLOWED_TOKENS {
            return Err(UnitPayError::TooManyTokens);
        }
        if !tokens_contain(&global_state.allowed_tokens, token) {
            global_state.allowed_tokens.push(token);
        }
    } else {
        remove_token(&mut global_state.allowed_tokens, token);
        proof {
            lemma_remove_value_wf(old(global_state).allowed_tokens@, token);
        }
    }
    Ok(())
}

/// Removing a value keeps a duplicate-free sequence duplicate-free, does not
/// lengthen it, and — because the value occurred at most once — leaves no
/// occurrence behind.
proof fn lemma_remove_value_wf(s: Seq<u64>, token: u64)
    ensures
        s.remove_value(token).len() <= s.len(),
        s.no_duplicates() ==> s.remove_value(token).no_duplicates(),
        s.no_duplicates() ==> !s.remove_value(token).contains(token),
{
    s.index_of_first_ensures(token);
    if s.contains(token) {
        let i = s.index_of_first(token)->Some_0;
        let out = s.remove(i);
        if s.no_duplicates() {
            assert forall|j: int, k: int|
                0 <= j < out.len() && 0 <= k < out.len() && j != k implies out[j] != out[k] by {
                let sj = if j < i { j } else { j + 1 };
                let sk = if k < i { k } else { k + 1 };
                assert(out[j] == s[sj] && out[k] == s[sk]);
            }
            assert forall|j: int| 0 <= j < out.len() implies out[j] != token by {
                let sj = if j < i { j } else { j + 1 };
                assert(out[j] == s[sj]);
            }
        }
    }
}

/// Owner-only collection of the accumulated platform fees: the accumulator
/// is zeroed atomically with a transfer of its full value from the vault to
/// the owner. Fails with `NoFees` when nothing is pending, so the platform
/// is never asked for an empty transfer.
pub fn withdraw_platform_fees(global_state: &mut GlobalState, caller: u64) -> (r: Result<
    Transfer,
    UnitPayError,
>)
    ensures
        final(global_state).owner == old(global_state).owner,
        final(global_state).allowed_tokens@ == old(global_state).allowed_tokens@,
        r is Ok <==> caller == old(global_state).owner
            && old(global_state).platform_pending_fees > 0,
        r matches Ok(t) ==> {
            &&& t == (Transfer {
                token: SETTLEMENT_TOKEN,
                from: VAULT,
                to: old(global_state).owner,
                amount: old(global_state).platform_pending_fees,
            })
            &&& final(global_state).platform_pending_fees == 0
        },
        r is Err ==> final(global_state).platform_pending_fees
            == old(global_state).platform_pending_fees,
        r matches Err(e) ==> e == (if caller != old(global_state).owner {
            UnitPayError::Unauthorized
        } else {
            UnitPayError::NoFees
        }),
{
    if caller != global_state.owner {
        return Err(UnitPayError::Unauthorized);
    }
    if global_state.platform_pending_fees == 0 {
        return Err(UnitPayError::NoFees);
    }
    let amount = global_state.platform_pending_fees;
    global_state.platform_pending_fees = 0;
    Ok(Transfer { token: SETTLEMENT_TOKEN, from: VAULT, to: global_state.owner, amount })
}

/// Owner-only teardown of the configuration record. The engine checks the
/// authority; releasing the storage slot itself is the platform's work.
pub fn close_global_state(global_state: &GlobalState, caller: u64) -> (r: Result<
    (),
    UnitPayError,
>)
    ensures
        r is Ok <==> caller == global_state.owner,
        r matches Err(e) ==> e == UnitPayError::Unauthorized,
{
    if caller != global_state.owner {
        return Err(UnitPayError::Unauthorized);
    }
    Ok(())
}

// ---------------------------------------------------------------------------
// The payment state machine
// ---------------------------------------------------------------------------

/// Direct settlement: creates a terminal record and requests an immediate
/// transfer of the full principal from the user to the LP. No fee is taken
/// and no further transition ever applies to the record.
pub fn settle_payment(
    user: u64,
    lp: u64,
    token_mint: u64,
    amount: u64,
    payment_seed: [u8; 4],
    now: u64,
) -> (r: Result<(PaymentRecord, Transfer), UnitPayError>)
    ensures
        r is Ok <==> token_accepted(token_mint),
        r matches Ok(out) ==> {
            &&& out.0 == direct_record(user, lp, token_mint, amount, payment_seed, now)
            &&& out.0.wf()
            &&& out.1 == settle_transfer(user, lp, token_mint, amount)
        },
        r matches Err(e) ==> e == UnitPayError::TokenNotSupported,
{
    if token_mint != SETTLEMENT_TOKEN {
        return Err(UnitPayError::TokenNotSupported);
    }
    let payment = PaymentRecord {
        user,
        lp,
        token: token_mint,
        amount,
        timestamp: now,
        lock_time: 0,
        release_time: 0,
        platform_fee: 0,
        payment_seed,
        payment_type: PaymentType::Direct,
        escrow_status: EscrowStatus::NoEscrow,
        is_disputed: false,
    };
    Ok((payment, Transfer { token: token_mint, from: user, to: lp, amount }))
}

/// Escrow entry: reserves the platform fee out of the principal, creates a
/// locked record, and requests a transfer of the full principal from the
/// user into the vault.
pub fn lock_payment(
    user: u64,
    lp: u64,
    token_mint: u64,
    amount: u64,
    payment_seed: [u8; 4],
    now: u64,
) -> (r: Result<(PaymentRecord, Transfer), UnitPayError>)
    ensures
        r is Ok <==> token_accepted(token_mint),
        r matches Ok(out) ==> {
            &&& out.0 == escrow_record(user, lp, token_mint, amount, payment_seed, now)
            &&& out.0.wf()
            &&& out.1 == lock_transfer(user, token_mint, amount)
        },
        r matches Err(e) ==> e == UnitPayError::TokenNotSupported,
{
    if token_mint != SETTLEMENT_TOKEN {
        return Err(UnitPayError::TokenNotSupported);
    }
    let payment = PaymentRecord {
        user,
        lp,
        token: token_mint,
        amount,
        timestamp: now,
        lock_time: now,
        release_time: 0,
        platform_fee: compute_platform_fee(amount),
        payment_seed,
        payment_type: PaymentType::Escrow,
        escrow_status: EscrowStatus::Locked,
        is_disputed: false,
    };
    Ok((payment, Transfer { token: token_mint, from: user, to: VAULT, amount }))
}

/// The user confirms a locked escrow: the release time is fixed at `now` and
/// the record moves to `Confirmed`. No funds move — confirmation only starts
/// the withdrawal cooldown.
pub fn confirm_payment(payment: &mut PaymentRecord, caller: u64, now: u64) -> (r: Result<
    (),
    UnitPayError,
>)
    ensures
        r is Ok <==> confirm_allowed(*old(payment), caller),
        r is Ok ==> *final(payment) == confirmed_record(*old(payment), now),
        r is Err ==> *final(payment) == *old(payment),
        r matches Err(e) ==> e == confirm_error(*old(payment), caller),
        old(payment).wf() ==> final(payment).wf(),
{
    if payment.escrow_status != EscrowStatus::Locked {
        return Err(UnitPayError::InvalidStatus);
    }
    if payment.user != caller {
        return Err(UnitPayError::Unauthorized);
    }
    payment.release_time = now;
    payment.escrow_status = EscrowStatus::Confirmed;
    Ok(())
}

/// Permissionless release of a locked escrow once the lock is at least
/// `AUTO_RELEASE_DELAY` old: the state change is exactly the one
/// `confirm_payment` performs. No caller identity is consulted — any
/// interested party may trigger it once the delay has elapsed.
pub fn auto_release_payment(payment: &mut PaymentRecord, now: u64) -> (r: Result<
    (),
    UnitPayError,
>)
    ensures
        r is Ok <==> auto_release_allowed(*old(payment), now),
        r is Ok ==> *final(payment) == confirmed_record(*old(payment), now),
        r is Err ==> *final(payment) == *old(payment),
        r matches Err(e) ==> e == auto_release_error(*old(payment), now),
        old(payment).wf() ==> final(payment).wf(),
{
    if payment.escrow_status != EscrowStatus::Locked {
        return Err(UnitPayError::InvalidStatus);
    }
    if (now as u128) < (payment.lock_time as u128) + (AUTO_RELEASE_DELAY as u128) {
        return Err(UnitPayError::NotDueYet);
    }
    payment.release_time = now;
    payment.escrow_status = EscrowStatus::Confirmed;
    Ok(())
}

/// The LP withdraws a confirmed escrow once the cooldown after its release
/// time has elapsed: the record moves to `Released`, the platform is asked
/// to move the principal less the fee from the vault to the LP, and the fee
/// is added to the pending-fee accumulator in the same atomic step.
pub fn withdraw_payment(
    payment: &mut PaymentRecord,
    global_state: &mut GlobalState,
    caller: u64,
    now: u64,
) -> (r: Result<Transfer, UnitPayError>)
    requires
        withdraw_allowed(*old(payment), caller, now)
            ==> old(payment).platform_fee <= old(payment).amount,
        withdraw_allowed(*old(payment), caller, now) ==> old(global_state).platform_pending_fees
            + old(payment).platform_fee <= u64::MAX,
    ensures
        final(global_state).owner == old(global_state).owner,
        final(global_state).allowed_tokens@ == old(global_state).allowed_tokens@,
        r is Ok <==> withdraw_allowed(*old(payment), caller, now),
        r matches Ok(t) ==> {
            &&& *final(payment) == released_record(*old(payment))
            &&& t == withdraw_transfer(*old(payment))
            &&& final(global_state).platform_pending_fees
                == old(global_state).platform_pending_fees + old(payment).platform_fee
        },
        r is Err ==> *final(payment) == *old(payment) && final(global_state).platform_pending_fees
            == old(global_state).platform_pending_fees,
        r matches Err(e) ==> e == withdraw_error(*old(payment), caller, now),
        old(payment).wf() ==> final(payment).wf(),
{
    if payment.escrow_status != EscrowStatus::Confirmed {
        return Err(UnitPayError::InvalidStatus);
    }
    if (now as u128) < (payment.release_time as u128) + (WITHDRAW_DELAY as u128) {
        return Err(UnitPayError::NotDueYet);
    }
    if payment.lp != caller {
        return Err(UnitPayError::Unauthorized);
    }
    payment.escrow_status = EscrowStatus::Released;
    let withdraw_amount = payment.amount - payment.platform_fee;
    global_state.platform_pending_fees = global_state.platform_pending_fees
        + payment.platform_fee;
    Ok(Transfer { token: payment.token, from: VAULT, to: payment.lp, amount: withdraw_amount })
}

/// The user or the LP flags a locked escrow as disputed, within
/// `DISPUTE_WINDOW` of the lock time. The status is untouched, so a disputed
/// escrow can still be confirmed or auto-released; a second dispute is
/// rejected with `AlreadyDisputed` rather than silently succeeding. Because
/// disputing requires `Locked`, confirmation and auto release foreclose it —
/// in practice the dispute window is the `AUTO_RELEASE_DELAY` head start,
/// not the nominal `DISPUTE_WINDOW`.
pub fn dispute_payment(payment: &mut PaymentRecord, caller: u64, now: u64) -> (r: Result<
    (),
    UnitPayError,
>)
    ensures
        r is Ok <==> dispute_allowed(*old(payment), caller, now),
        r is Ok ==> *final(payment) == disputed_record(*old(payment)),
        r is Err ==> *final(payment) == *old(payment),
        r matches Err(e) ==> e == dispute_error(*old(payment), caller, now),
        old(payment).wf() ==> final(payment).wf(),
{
    if payment.escrow_status != EscrowStatus::Locked {
        return Err(UnitPayError::InvalidStatus);
    }
    if (now as u128) > (payment.lock_time as u128) + (DISPUTE_WINDOW as u128) {
        return Err(UnitPayError::DisputeWindowClosed);
    }
    if caller != payment.user && caller != payment.lp {
        return Err(UnitPayError::NotPaymentParticipant);
    }
    if payment.is_disputed {
        return Err(UnitPayError::AlreadyDisputed);
    }
    payment.is_disputed = true;
    Ok(())
}

/// Refund of a disputed payment: the record moves to `Refunded` and the
/// platform is asked to move the full principal from the vault back to the
/// user; no fee is collected. The state machine constrains the caller no
/// further than being a valid signer — it deliberately does not check that
/// the caller is the owner, the user, or the LP, a known weakness of this
/// design rather than an oversight of this implementation.
pub fn refund_payment(payment: &mut PaymentRecord) -> (r: Result<Transfer, UnitPayError>)
    ensures
        r is Ok <==> refund_allowed(*old(payment)),
        r matches Ok(t) ==> {
            &&& *final(payment) == refunded_record(*old(payment))
            &&& t == refund_transfer(*old(payment))
        },
        r is Err ==> *final(payment) == *old(payment),
        r matches Err(e) ==> e == UnitPayError::NotDisputed,
        old(payment).wf() ==> final(payment).wf(),
{
    if !payment.is_disputed {
        return Err(UnitPayError::NotDisputed);
    }
    payment.escrow_status = EscrowStatus::Refunded;
    Ok(Transfer { token: payment.token, from: VAULT, to: payment.user, amount: payment.amount })
}

} // verus!
