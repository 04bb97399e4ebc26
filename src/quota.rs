use vstd::prelude::*;

verus! {

/// Length of the rolling spend window, in seconds.
pub const QUOTA_WINDOW_SECS: u64 = 86400;

/// Millisatoshis in one satoshi.
pub const MSATS_PER_SAT: u64 = 1000;

/// Largest cap, in satoshis, whose millisatoshi value still fits in a `u64`.
pub const MAX_CAP_SATS: u64 = 18446744073709551;

/// Spending caps of a session, in satoshis. A cap of zero disables its check.
#[derive(Clone, Copy, Debug, PartialEq, Eq, Structural)]
pub struct SessionLimits {
    pub max_amount: u64,
    pub daily_limit: u64,
}

impl SessionLimits {
    /// Both caps can be expressed in millisatoshis without overflow.
    pub open spec fn wf(self) -> bool {
        self.max_amount <= MAX_CAP_SATS && self.daily_limit <= MAX_CAP_SATS
    }

    /// The per-payment cap in millisatoshis.
    pub open spec fn max_msats(self) -> int {
        self.max_amount * 1000
    }

    /// The daily cap in millisatoshis.
    pub open spec fn daily_msats(self) -> int {
        self.daily_limit * 1000
    }

    /// Builds limits from caps given in satoshis; refuses caps too large to
    /// be counted in millisatoshis.
    pub fn new(max_amount: u64, daily_limit: u64) -> (r: Option<SessionLimits>)
        ensures
            r is Some <==> (max_amount <= MAX_CAP_SATS && daily_limit <= MAX_CAP_SATS),
            r matches Some(l) ==> l.wf() && l.max_amount == max_amount && l.daily_limit
                == daily_limit,
    {
        if max_amount <= MAX_CAP_SATS && daily_limit <= MAX_CAP_SATS {
            Some(SessionLimits { max_amount, daily_limit })
        } else {
            None
        }
    }
}

/// Why a payment was refused by the quota gate.
#[derive(Clone, Copy, Debug, PartialEq, Eq, Structural)]
pub enum QuotaError {
    /// The single payment is above the per-payment cap.
    AmountTooHigh,
    /// The payment would take the window's total above the daily cap.
    DailyLimitExceeded,
}

impl QuotaError {
    /// The message sent back to the client.
    pub fn message(&self) -> (r: &'static str)
        ensures
            r@ == quota_error_message(*self),
    {
        match self {
            QuotaError::AmountTooHigh => "Invoice amount too high.",
            QuotaError::DailyLimitExceeded => "Daily limit exceeded.",
        }
    }
}

/// The message a quota refusal is reported with.
pub open spec fn quota_error_message(e: QuotaError) -> Seq<char> {
    match e {
        QuotaError::AmountTooHigh => "Invoice amount too high."@,
        QuotaError::DailyLimitExceeded => "Daily limit exceeded."@,
    }
}

/// One accepted payment: when it was accepted and how much it spent.
#[derive(Clone, Copy, Debug, PartialEq, Eq, Structural)]
pub struct Payment {
    pub timestamp: u64,
    pub msats: u64,
}

/// Sum of the amounts of a sequence of payments.
pub open spec fn total(s: Seq<Payment>) -> int
    decreases s.len(),
{
    if s.len() == 0 {
        0
    } else {
        total(s.drop_last()) + s.last().msats
    }
}

/// A payment accepted at `p.timestamp` still counts at time `now`.
pub open spec fn in_window(p: Payment, now: u64) -> bool {
    (now as int) < p.timestamp + QUOTA_WINDOW_SECS
}

/// The payments of `s` that still count at time `now`, in their order.
pub open spec fn live(s: Seq<Payment>, now: u64) -> Seq<Payment>
    decreases s.len(),
{
    if s.len() == 0 {
        s
    } else {
        let rest = live(s.drop_last(), now);
        if in_window(s.last(), now) {
            rest.push(s.last())
        } else {
            rest
        }
    }
}

/// The quota policy: which check, if any, refuses a payment of `msats` when
/// `spent` has already been accepted in the window.
pub open spec fn quota_violation(limits: SessionLimits, spent: int, msats: int) -> Option<
    QuotaError,
> {
    if limits.max_amount > 0 && msats > limits.max_msats() {
        Some(QuotaError::AmountTooHigh)
    } else if limits.daily_limit > 0 && spent + msats > limits.daily_msats() {
        Some(QuotaError::DailyLimitExceeded)
    } else {
        None
    }
}

/// The ledger after one reservation attempt of `msats` at time `now`: the
/// stale entries are dropped, and an accepted payment is appended.
pub open spec fn reserve_step(s: Seq<Payment>, limits: SessionLimits, now: u64, msats: u64) -> Seq<
    Payment,
> {
    let kept = live(s, now);
    if quota_violation(limits, total(kept), msats as int) is None {
        kept.push(Payment { timestamp: now, msats })
    } else {
        kept
    }
}

/// The ledger after a sequence of reservation attempts `(time, msats)`,
/// applied one after another in the order the lock granted them.
pub open spec fn run_attempts(s: Seq<Payment>, limits: SessionLimits, attempts: Seq<(u64, u64)>) -> Seq<
    Payment,
>
    decreases attempts.len(),
{
    if attempts.len() == 0 {
        s
    } else {
        let prev = run_attempts(s, limits, attempts.drop_last());
        reserve_step(prev, limits, attempts.last().0, attempts.last().1)
    }
}

proof fn lemma_total_nonneg(s: Seq<Payment>)
    ensures
        total(s) >= 0,
    decreases s.len(),
{
    if s.len() > 0 {
        lemma_total_nonneg(s.drop_last());
    }
}

proof fn lemma_live_total(s: Seq<Payment>, now: u64)
    ensures
        total(live(s, now)) <= total(s),
    decreases s.len(),
{
    if s.len() > 0 {
        lemma_live_total(s.drop_last(), now);
        let rest = live(s.drop_last(), now);
        if in_window(s.last(), now) {
            assert(rest.push(s.last()).drop_last() =~= rest);
        }
    }
}

proof fn lemma_total_prefix(s: Seq<Payment>, i: int)
    requires
        0 <= i <= s.len(),
    ensures
        total(s.take(i)) <= total(s),
        i < s.len() ==> total(s.take(i + 1)) == total(s.take(i)) + s[i].msats,
    decreases s.len() - i,
{
    if i == s.len() {
        assert(s.take(i) =~= s);
    } else {
        lemma_total_prefix(s, i + 1);
        assert(s.take(i + 1).drop_last() =~= s.take(i));
    }
}

proof fn lemma_total_remove(s: Seq<Payment>, i: int)
    requires
        0 <= i < s.len(),
    ensures
        total(s.remove(i)) == total(s) - s[i].msats,
    decreases s.len(),
{
    if i == s.len() - 1 {
        assert(s.remove(i) =~= s.drop_last());
    } else {
        lemma_total_remove(s.drop_last(), i);
        assert(s.remove(i).drop_last() =~= s.drop_last().remove(i));
    }
}

/// Every accepted payment respects the policy, so a ledger whose total is
/// within the daily cap stays within it after one more attempt.
pub proof fn lemma_reserve_step_within_cap(
    s: Seq<Payment>,
    limits: SessionLimits,
    now: u64,
    msats: u64,
)
    requires
        limits.daily_limit > 0,
        total(s) <= limits.daily_msats(),
    ensures
        total(reserve_step(s, limits, now, msats)) <= limits.daily_msats(),
{
    lemma_live_total(s, now);
    let kept = live(s, now);
    if quota_violation(limits, total(kept), msats as int) is None {
        assert(kept.push(Payment { timestamp: now, msats }).drop_last() =~= kept);
    }
}

/// However many payment attempts arrive and in whatever order the lock lets
/// them through, the sum of accepted amounts never exceeds the daily cap.
pub proof fn lemma_attempts_never_overspend(
    s: Seq<Payment>,
    limits: SessionLimits,
    attempts: Seq<(u64, u64)>,
)
    requires
        limits.daily_limit > 0,
        total(s) <= limits.daily_msats(),
    ensures
        total(run_attempts(s, limits, attempts)) <= limits.daily_msats(),
    decreases attempts.len(),
{
    if attempts.len() > 0 {
        lemma_attempts_never_overspend(s, limits, attempts.drop_last());
        lemma_reserve_step_within_cap(
            run_attempts(s, limits, attempts.drop_last()),
            limits,
            attempts.last().0,
            attempts.last().1,
        );
    }
}

/// A payment that was reserved and then given back leaves the window's
/// total as it was before the attempt: a failed entry of a batch takes
/// nothing away from its siblings.
pub proof fn lemma_released_reservation_restores_total(
    s: Seq<Payment>,
    limits: SessionLimits,
    now: u64,
    msats: u64,
    i: int,
)
    requires
        0 <= i < reserve_step(s, limits, now, msats).len(),
        reserve_step(s, limits, now, msats)[i] == (Payment { timestamp: now, msats }),
        quota_violation(limits, total(live(s, now)), msats as int) is None,
    ensures
        total(reserve_step(s, limits, now, msats).remove(i)) == total(live(s, now)),
{
    let kept = live(s, now);
    let p = Payment { timestamp: now, msats };
    lemma_total_remove(reserve_step(s, limits, now, msats), i);
    assert(kept.push(p).drop_last() =~= kept);
}

/// A cap set to zero never refuses a payment on its own account.
pub proof fn lemma_zero_cap_never_rejects(limits: SessionLimits, spent: int, msats: int)
    ensures
        limits.max_amount == 0 ==> quota_violation(limits, spent, msats) != Some(
            QuotaError::AmountTooHigh,
        ),
        limits.daily_limit == 0 ==> quota_violation(limits, spent, msats) != Some(
            QuotaError::DailyLimitExceeded,
        ),
        limits.max_amount == 0 && limits.daily_limit == 0 ==> quota_violation(
            limits,
            spent,
            msats,
        ) is None,
{
}

/// A millisatoshi amount as a `u64`, saturating at its largest value.
pub open spec fn saturate(x: int) -> int {
    if x > u64::MAX {
        u64::MAX as int
    } else {
        x
    }
}

/// What may still be spent when `spent` is in the window: the daily cap
/// less `spent`, or `u64::MAX` when no daily cap is set.
pub open spec fn remaining_of(limits: SessionLimits, spent: int) -> int {
    if limits.daily_limit == 0 {
        u64::MAX as int
    } else {
        limits.daily_msats() - spent
    }
}

/// The in-memory ledger of accepted payments, bound to the session's caps.
pub struct QuotaLedger {
    limits: SessionLimits,
    entries: Vec<Payment>,
}

impl View for QuotaLedger {
    type V = Seq<Payment>;

    closed spec fn view(&self) -> Seq<Payment> {
        self.entries@
    }
}

impl QuotaLedger {
    /// The caps this ledger enforces.
    pub closed spec fn spec_limits(&self) -> SessionLimits {
        self.limits
    }

    /// The caps are valid and, when a daily cap is in force, the recorded
    /// payments stay within it.
    pub open spec fn wf(&self) -> bool {
        self.spec_limits().wf() && (self.spec_limits().daily_limit > 0 ==> total(self@)
            <= self.spec_limits().daily_msats())
    }

    /// An empty ledger for the given caps.
    pub fn new(limits: SessionLimits) -> (r: QuotaLedger)
        requires
            limits.wf(),
        ensures
            r.wf(),
            r@ == Seq::<Payment>::empty(),
            r.spec_limits() == limits,
    {
        QuotaLedger { limits, entries: Vec::new() }
    }

    /// The caps this ledger enforces.
    pub fn limits(&self) -> (r: SessionLimits)
        ensures
            r == self.spec_limits(),
    {
        self.limits
    }

    /// Drops the payments that no longer count at time `now`.
    pub fn prune(&mut self, now: u64)
        requires
            old(self).wf(),
        ensures
            final(self).wf(),
            final(self)@ == live(old(self)@, now),
            final(self).spec_limits() == old(self).spec_limits(),
    {
        let mut kept: Vec<Payment> = Vec::new();
        let mut i: usize = 0;
        while i < self.entries.len()
            invariant
                i <= self.entries@.len(),
                kept@ == live(self.entries@.take(i as int), now),
            decreases self.entries@.len() - i,
        {
            let p = self.entries[i];
            proof {
                assert(self.entries@.take(i + 1).drop_last() =~= self.entries@.take(i as int));
            }
            if now < p.timestamp || now - p.timestamp < QUOTA_WINDOW_SECS {
                kept.push(p);
            }
            i = i + 1;
        }
        proof {
            assert(self.entries@.take(i as int) =~= self.entries@);
            lemma_live_total(self.entries@, now);
        }
        self.entries = kept;
    }

    /// The amount, in millisatoshis, accepted in the window that ends at `now`
    /// (stale payments are dropped on the way), saturating at `u64::MAX`
    /// (reachable only without a daily cap).
    pub fn sum_payments(&mut self, now: u64) -> (r: u64)
        requires
            old(self).wf(),
        ensures
            final(self).wf(),
            final(self)@ == live(old(self)@, now),
            final(self).spec_limits() == old(self).spec_limits(),
            r == saturate(total(final(self)@)),
    {
        self.prune(now);
        let mut acc: u64 = 0;
        let mut i: usize = 0;
        while i < self.entries.len()
            invariant
                self.wf(),
                i <= self.entries@.len(),
                acc == saturate(total(self.entries@.take(i as int))),
            decreases self.entries@.len() - i,
        {
            proof {
                lemma_total_prefix(self@, i as int);
                lemma_total_prefix(self@, i + 1);
                lemma_total_nonneg(self@.take(i as int));
            }
            acc = acc.saturating_add(self.entries[i].msats);
            i = i + 1;
        }
        proof {
            assert(self.entries@.take(i as int) =~= self.entries@);
        }
        acc
    }

    /// Millisatoshis that may still be spent in the window that ends at `now`:
    /// the daily cap less what the window holds, or `u64::MAX` when no daily
    /// cap is set (nothing limits the spend).
    pub fn remaining_msats(&mut self, now: u64) -> (r: u64)
        requires
            old(self).wf(),
        ensures
            final(self).wf(),
            final(self)@ == live(old(self)@, now),
            final(self).spec_limits() == old(self).spec_limits(),
            r == remaining_of(old(self).spec_limits(), total(live(old(self)@, now))),
    {
        let spent = self.sum_payments(now);
        if self.limits.daily_limit == 0 {
            return u64::MAX;
        }
        self.limits.daily_limit * MSATS_PER_SAT - spent
    }

    /// Checks a payment of `msats` against both caps and, when it passes,
    /// records it, all in one step: callers hold the ledger's lock across
    /// this call, so two payments can never both pass on a stale total.
    /// The returned record is what `release` takes back.
    pub fn try_reserve(&mut self, msats: u64, now: u64) -> (r: Result<Payment, QuotaError>)
        requires
            old(self).wf(),
        ensures
            final(self).wf(),
            final(self).spec_limits() == old(self).spec_limits(),
            final(self)@ == reserve_step(old(self)@, old(self).spec_limits(), now, msats),
            match quota_violation(
                old(self).spec_limits(),
                total(live(old(self)@, now)),
                msats as int,
            ) {
                Some(e) => r == Err::<Payment, QuotaError>(e),
                None => r == Ok::<Payment, QuotaError>(Payment { timestamp: now, msats }),
            },
    {
        let spent = self.sum_payments(now);
        let limits = self.limits;
        if limits.max_amount > 0 && msats > limits.max_amount * MSATS_PER_SAT {
            return Err(QuotaError::AmountTooHigh);
        }
        if limits.daily_limit > 0 && msats > limits.daily_limit * MSATS_PER_SAT - spent {
            return Err(QuotaError::DailyLimitExceeded);
        }
        let p = Payment { timestamp: now, msats };
        proof {
            assert(self@.push(p).drop_last() =~= self@);
        }
        self.entries.push(p);
        Ok(p)
    }

    /// Takes back a reservation whose payment failed: one entry equal to `p`
    /// is removed, if the ledger still holds one.
    pub fn release(&mut self, p: Payment)
        requires
            old(self).wf(),
        ensures
            final(self).wf(),
            final(self).spec_limits() == old(self).spec_limits(),
            old(self)@.contains(p) ==> exists|i: int|
                0 <= i < old(self)@.len() && old(self)@[i] == p && final(self)@ == old(
                    self,
                )@.remove(i),
            !old(self)@.contains(p) ==> final(self)@ == old(self)@,
            old(self)@.contains(p) ==> total(final(self)@) == total(old(self)@) - p.msats,
    {
        let mut i: usize = 0;
        while i < self.entries.len()
            invariant
                i <= self.entries@.len(),
                self.wf(),
                self@ == old(self)@,
                self.spec_limits() == old(self).spec_limits(),
                forall|j: int| 0 <= j < i ==> self.entries@[j] != p,
            decreases self.entries@.len() - i,
        {
            if self.entries[i] == p {
                let ghost before = self@;
                proof {
                    lemma_total_remove(before, i as int);
                    lemma_total_nonneg(before.remove(i as int));
                }
                self.entries.remove(i);
                assert(0 <= i < before.len() && before[i as int] == p && self@ == before.remove(
                    i as int,
                ));
                return;
            }
            i = i + 1;
        }
    }
}

} // verus!
