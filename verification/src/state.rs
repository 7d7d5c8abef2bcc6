//! Data model: the global configuration record, the per-payment record, the
//! transfer request handed back to the ledger platform, and the fee and
//! time-lock constants that govern the state machine.

use vstd::arithmetic::div_mod::{lemma_div_is_ordered, lemma_div_multiples_vanish};
use vstd::prelude::*;

verus! {

/// Seconds a locked escrow must age before anyone may trigger its
/// automatic release.
pub const AUTO_RELEASE_DELAY: u64 = 3 * 3600;

/// Seconds between confirmation (or auto release) and the moment the LP may
/// withdraw the escrowed funds.
pub const WITHDRAW_DELAY: u64 = 24 * 3600;

/// Length of the dispute window, counted from the moment the escrow was
/// locked.
pub const DISPUTE_WINDOW: u64 = 72 * 3600;

/// Capacity of the token allow-list, kept small so the configuration record
/// has a fixed, bounded storage footprint.
pub const MAX_ALLOWED_TOKENS: usize = 10;

/// Platform fee numerator: the fee is `amount * 5 / 1000` (0.5%), truncating.
pub const FEE_NUMERATOR: u64 = 5;

/// Platform fee denominator.
pub const FEE_DENOMINATOR: u64 = 1000;

/// The single token identity this deployment settles in. The settlement and
/// lock operations check the offered token against this fixed identity, not
/// against the configurable allow-list in [`GlobalState`]: the allow-list is
/// maintained by `update_token_config` but, as deployed, never consulted on
/// the settlement path.
pub const SETTLEMENT_TOKEN: u64 = 840;

/// The custody balance ("vault"): a balance whose transfer authority is held
/// by the engine itself, never by the user or the LP. Escrowed principal
/// sits here between lock and release or refund, and collected platform fees
/// sit here until the owner withdraws them.
pub const VAULT: u64 = 0;

/// How a payment settles: immediately, or through the escrow lifecycle.
#[derive(Clone, Copy, Debug, PartialEq, Eq, Structural)]
pub enum PaymentType {
    Direct,
    Escrow,
}

/// Lifecycle state of a payment record. `NoEscrow` is terminal for direct
/// payments; escrow payments move `Locked` to `Confirmed` to `Released`, or
/// end in `Refunded` after a dispute.
#[derive(Clone, Copy, Debug, PartialEq, Eq, Structural)]
pub enum EscrowStatus {
    NoEscrow,
    Locked,
    Confirmed,
    Released,
    Refunded,
}

/// One named failure per violated precondition. Every operation either
/// commits in full or returns one of these with no state change.
#[derive(Clone, Copy, Debug, PartialEq, Eq, Structural)]
pub enum UnitPayError {
    /// The caller is not the identity the operation requires.
    Unauthorized,
    /// The offered token is not the configured settlement token.
    TokenNotSupported,
    /// The record's escrow status does not admit the operation.
    InvalidStatus,
    /// The payment already carries a dispute flag.
    AlreadyDisputed,
    /// Refund attempted on a payment that was never disputed.
    NotDisputed,
    /// A time-lock has not elapsed yet.
    NotDueYet,
    /// The dispute window has expired.
    DisputeWindowClosed,
    /// Fee withdrawal attempted with an empty accumulator.
    NoFees,
    /// Reserved: a correlation seed was reused. No operation checks for
    /// duplicate seeds today; `payment_seed` is stored metadata only.
    PaymentIdUsed,
    /// Reserved: mismatch in the vault authority handed in by the platform.
    InvalidVaultSigner,
    /// The dispute caller is neither the user nor the LP of the payment.
    NotPaymentParticipant,
    /// The token allow-list is already at capacity.
    TooManyTokens,
}

/// A request to the ledger platform to move `amount` of token `token` from
/// the balance of `from` to the balance of `to`, atomically with the
/// operation that returned it.
#[derive(Clone, Copy, Debug, PartialEq, Eq, Structural)]
pub struct Transfer {
    pub token: u64,
    pub from: u64,
    pub to: u64,
    pub amount: u64,
}

/// The singleton configuration record, owned by the deploying authority.
#[derive(Clone, Debug)]
pub struct GlobalState {
    /// Identity of the administrative authority.
    pub owner: u64,
    /// Fees collected on released escrows, awaiting owner withdrawal.
    pub platform_pending_fees: u64,
    /// Allow-list of acceptable settlement tokens, capacity-bounded.
    pub allowed_tokens: Vec<u64>,
}

impl GlobalState {
    /// The allow-list never exceeds its capacity and never holds a token
    /// twice. Established by `initialize`, preserved by every operation.
    pub open spec fn wf(self) -> bool {
        &&& self.allowed_tokens@.len() <= MAX_ALLOWED_TOKENS
        &&& self.allowed_tokens@.no_duplicates()
    }
}

/// One record per payment, created at settlement or lock time and kept
/// forever as an audit trail.
#[derive(Clone, Copy, Debug)]
pub struct PaymentRecord {
    /// The paying party.
    pub user: u64,
    /// The receiving party.
    pub lp: u64,
    /// The settlement token used for this payment.
    pub token: u64,
    /// Principal value, fixed at creation.
    pub amount: u64,
    /// Creation time.
    pub timestamp: u64,
    /// Time the escrow lock began; 0 for direct payments.
    pub lock_time: u64,
    /// Time the payment was confirmed or auto-released; 0 until then.
    pub release_time: u64,
    /// Fee reserved at lock time; 0 for direct payments.
    pub platform_fee: u64,
    /// Caller-supplied correlation tag; stored, never interpreted.
    pub payment_seed: [u8; 4],
    /// Set once at creation, never changes.
    pub payment_type: PaymentType,
    /// The lifecycle state.
    pub escrow_status: EscrowStatus,
    /// Settable once, from false to true, while the escrow is locked.
    pub is_disputed: bool,
}

/// The platform fee for a given principal: 0.5%, truncating.
pub open spec fn platform_fee_of(amount: u64) -> int {
    (amount as int) * (FEE_NUMERATOR as int) / (FEE_DENOMINATOR as int)
}

/// The platform fee is nonnegative and never exceeds the principal, so the
/// LP's share `amount - platform_fee` is always well defined.
pub proof fn lemma_platform_fee_bound(amount: u64)
    ensures
        0 <= platform_fee_of(amount) <= amount,
{
    let a = amount as int;
    let n = FEE_NUMERATOR as int;
    let d = FEE_DENOMINATOR as int;
    assert(0 <= a * n) by (nonlinear_arith)
        requires 0 <= a && 0 <= n;
    assert(a * n <= d * a) by (nonlinear_arith)
        requires 0 <= a && 0 <= n && n <= d;
    lemma_div_is_ordered(a * n, d * a, d);
    lemma_div_multiples_vanish(a, d);
    assert(0 <= a * n / d) by {
        lemma_div_is_ordered(0, a * n, d);
    }
}

/// Computes `floor(amount * 5 / 1000)` exactly, for every 64-bit principal;
/// the intermediate product is taken at double width so it cannot overflow.
pub fn compute_platform_fee(amount: u64) -> (fee: u64)
    ensures
        fee == platform_fee_of(amount),
{
    proof {
        lemma_platform_fee_bound(amount);
        assert((amount as u128) * (FEE_NUMERATOR as u128) <= u128::MAX) by (nonlinear_arith)
            requires amount <= u64::MAX;
    }
    let wide: u128 = (amount as u128) * (FEE_NUMERATOR as u128);
    (wide / (FEE_DENOMINATOR as u128)) as u64
}

impl PaymentRecord {
    /// Internal consistency of a payment record. Creation establishes it and
    /// every lifecycle transition preserves it: a direct payment never holds
    /// a fee, a lock time, or a dispute flag; an escrow payment always
    /// carries the fee computed from its principal at lock time, and its
    /// release time is set exactly when it leaves `Locked`.
    pub open spec fn wf(self) -> bool {
        &&& self.payment_type is Direct ==> {
            &&& self.escrow_status is NoEscrow
            &&& self.platform_fee == 0
            &&& self.lock_time == 0
            &&& self.release_time == 0
            &&& !self.is_disputed
        }
        &&& self.payment_type is Escrow ==> {
            &&& self.escrow_status !is NoEscrow
            &&& self.platform_fee == platform_fee_of(self.amount)
            &&& (self.escrow_status is Locked ==> self.release_time == 0)
        }
    }
}

} // verus!
