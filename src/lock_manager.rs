use vstd::prelude::*;
use crate::access_control::SystemState;
use crate::address::Address;
use crate::error::VaultError;

verus! {

pub const SECONDS_PER_DAY: u64 = 86400;

/// Days after the end of a lock during which its owner may redeem.
pub const REDEMPTION_WINDOW_DAYS: u64 = 14;

/// A user's vesting lock: what is still locked, the lock length in days, the
/// amount released per elapsed day, when the lock started and when the last
/// release happened. Times are in seconds.
#[derive(Clone, Copy, Debug, PartialEq, Eq, Structural)]
pub struct LockRecord {
    pub owner: Address,
    pub amount: u64,
    pub lock_period: u64,
    pub daily_release: u64,
    pub start_time: u64,
    pub last_release_time: u64,
}

/// A read-only view of a lock at some moment.
#[derive(Clone, Copy, Debug, PartialEq, Eq, Structural)]
pub struct LockStatus {
    pub is_locked: bool,
    pub remaining_lock_time: u64,
    pub redeemable_amount: u64,
    pub redemption_deadline: u64,
}

/// Emitted when a lock is created.
#[derive(Clone, Copy, Debug, PartialEq, Eq, Structural)]
pub struct LockEvent {
    pub user: Address,
    pub amount: u64,
    pub lock_period: u64,
    pub daily_release: u64,
}

/// Emitted by a daily release.
#[derive(Clone, Copy, Debug, PartialEq, Eq, Structural)]
pub struct ReleaseEvent {
    pub user: Address,
    pub amount: u64,
}

impl LockRecord {
    /// The lock lasts at least a day, its redemption window ends within the
    /// clock's range, and releases never precede the start.
    pub open spec fn wf(&self) -> bool {
        &&& self.lock_period > 0
        &&& self.start_time + (self.lock_period + REDEMPTION_WINDOW_DAYS) * SECONDS_PER_DAY <= u64::MAX
        &&& self.start_time <= self.last_release_time
    }

    pub open spec fn lock_end(&self) -> int {
        self.start_time + self.lock_period * SECONDS_PER_DAY
    }

    pub open spec fn redemption_end(&self) -> int {
        self.lock_end() + REDEMPTION_WINDOW_DAYS * SECONDS_PER_DAY
    }

    /// Whether a stored record is well formed.
    pub fn is_well_formed(&self) -> (r: bool)
        ensures
            r == self.wf(),
    {
        self.lock_period > 0 && self.start_time <= self.last_release_time && check_lock_window(
            self.lock_period,
            self.start_time,
        )
    }

    /// The end of the lock period, in seconds.
    pub fn lock_end_time(&self) -> (t: u64)
        requires
            self.wf(),
        ensures
            t == self.lock_end(),
    {
        proof {
            assert(self.lock_period * SECONDS_PER_DAY <= (self.lock_period + REDEMPTION_WINDOW_DAYS)
                * SECONDS_PER_DAY) by (nonlinear_arith);
        }
        self.start_time + self.lock_period * SECONDS_PER_DAY
    }

    /// The end of the redemption window, in seconds.
    pub fn redemption_end_time(&self) -> (t: u64)
        requires
            self.wf(),
        ensures
            t == self.redemption_end(),
    {
        proof {
            assert((self.lock_period + REDEMPTION_WINDOW_DAYS) * SECONDS_PER_DAY == self.lock_period
                * SECONDS_PER_DAY + REDEMPTION_WINDOW_DAYS * SECONDS_PER_DAY) by (nonlinear_arith);
        }
        self.lock_end_time() + REDEMPTION_WINDOW_DAYS * SECONDS_PER_DAY
    }
}

pub open spec fn min(a: int, b: int) -> int {
    if a <= b {
        a
    } else {
        b
    }
}

/// A lock of `amount` over `lock_period` days releasing `daily_release` a day
/// is well posed: all three are positive and the schedule fits the amount.
pub open spec fn lock_params_ok(amount: u64, lock_period: u64, daily_release: u64) -> bool {
    amount > 0 && lock_period > 0 && daily_release > 0 && daily_release * lock_period <= amount
}

/// A lock of `lock_period` days started at `now` ends, redemption window
/// included, within the clock's range.
pub open spec fn lock_window_fits(lock_period: u64, now: u64) -> bool {
    now + (lock_period + REDEMPTION_WINDOW_DAYS) * SECONDS_PER_DAY <= u64::MAX
}

pub(crate) fn check_lock_params(amount: u64, lock_period: u64, daily_release: u64) -> (r: bool)
    ensures
        r == lock_params_ok(amount, lock_period, daily_release),
{
    if amount == 0 || lock_period == 0 || daily_release == 0 {
        return false;
    }
    match daily_release.checked_mul(lock_period) {
        Some(total) => total <= amount,
        None => false,
    }
}

pub(crate) fn check_lock_window(lock_period: u64, now: u64) -> (r: bool)
    ensures
        r == lock_window_fits(lock_period, now),
{
    match lock_period.checked_add(REDEMPTION_WINDOW_DAYS) {
        Some(days) => match days.checked_mul(SECONDS_PER_DAY) {
            Some(window) => now.checked_add(window).is_some(),
            None => false,
        },
        None => false,
    }
}

/// Why a lock is refused, in the order the checks are made.
pub open spec fn lock_check(
    gate: SystemState,
    amount: u64,
    lock_period: u64,
    daily_release: u64,
    user_balance: u64,
    now: u64,
) -> Result<(), VaultError> {
    if gate.is_paused {
        Err(VaultError::SystemPaused)
    } else if !lock_params_ok(amount, lock_period, daily_release) {
        Err(VaultError::InvalidLockParameters)
    } else if user_balance < amount {
        Err(VaultError::InsufficientBalance)
    } else if !lock_window_fits(lock_period, now) {
        Err(VaultError::CalculationError)
    } else {
        Ok(())
    }
}

/// What a release at `now` by `user` frees, or why it is refused, in the
/// order the checks are made.
pub open spec fn release_check(gate: SystemState, rec: LockRecord, user: Address, now: u64) -> Result<
    u64,
    VaultError,
> {
    let days = (now - rec.last_release_time) / (SECONDS_PER_DAY as int);
    let releasable = min(rec.daily_release * days, u64::MAX as int);
    let released = min(releasable, rec.amount as int);
    if gate.is_paused {
        Err(VaultError::SystemPaused)
    } else if rec.owner != user {
        Err(VaultError::Unauthorized)
    } else if now >= rec.lock_end() {
        Err(VaultError::LockPeriodEnded)
    } else if rec.last_release_time / SECONDS_PER_DAY >= now / SECONDS_PER_DAY {
        Err(VaultError::AlreadyReleasedToday)
    } else if released == 0 {
        Err(VaultError::NoAmountToRelease)
    } else {
        Ok(released as u64)
    }
}

/// The lock after a release at `now` freed `released`.
pub open spec fn after_release(rec: LockRecord, released: u64, now: u64) -> LockRecord {
    LockRecord { amount: (rec.amount - released) as u64, last_release_time: now, ..rec }
}

/// The result of a release and the lock afterwards.
pub open spec fn release_outcome(gate: SystemState, rec: LockRecord, user: Address, now: u64) -> (Result<
    u64,
    VaultError,
>, LockRecord) {
    match release_check(gate, rec, user, now) {
        Ok(released) => (Ok(released), after_release(rec, released, now)),
        Err(e) => (Err(e), rec),
    }
}

/// At most one release per calendar day: once a release at `t1` succeeded,
/// another release of the same lock by its owner at any `t2` of the same
/// calendar day, before the lock ends, fails with `AlreadyReleasedToday`.
pub proof fn lemma_one_release_per_day(gate: SystemState, rec: LockRecord, user: Address, t1: u64, t2: u64)
    requires
        release_outcome(gate, rec, user, t1).0 is Ok,
        t1 / SECONDS_PER_DAY == t2 / SECONDS_PER_DAY,
        t2 < rec.lock_end(),
    ensures
        release_outcome(gate, release_outcome(gate, rec, user, t1).1, user, t2).0 == Err::<u64, VaultError>(
            VaultError::AlreadyReleasedToday,
        ),
{
}

/// The lock after a series of release attempts; each attempt names its gate,
/// its caller and its time.
pub open spec fn after_releases(rec: LockRecord, attempts: Seq<(SystemState, Address, u64)>) -> LockRecord
    decreases attempts.len(),
{
    if attempts.len() == 0 {
        rec
    } else {
        let (gate, user, now) = attempts.last();
        release_outcome(gate, after_releases(rec, attempts.drop_last()), user, now).1
    }
}

/// Lock monotonicity: whatever releases are attempted over the life of a
/// lock, the locked amount never grows (and, being unsigned, never drops
/// below zero), and the last release time never moves back.
pub proof fn lemma_locked_amount_non_increasing(rec: LockRecord, attempts: Seq<(SystemState, Address, u64)>)
    ensures
        after_releases(rec, attempts).amount <= rec.amount,
        after_releases(rec, attempts).last_release_time >= rec.last_release_time,
        after_releases(rec, attempts).lock_period == rec.lock_period,
        after_releases(rec, attempts).start_time == rec.start_time,
    decreases attempts.len(),
{
    if attempts.len() > 0 {
        lemma_locked_amount_non_increasing(rec, attempts.drop_last());
    }
}

/// Creates `user`'s lock of `amount` units for `lock_period` days releasing
/// `daily_release` a day, starting `now`. `user_balance` is what the user
/// holds; on success the caller moves `amount` into the lock vault.
pub fn lock_xxusd(
    gate: &SystemState,
    user: Address,
    amount: u64,
    lock_period: u64,
    daily_release: u64,
    user_balance: u64,
    now: u64,
) -> (r: Result<(LockRecord, LockEvent), VaultError>)
    ensures
        r is Ok <==> lock_check(*gate, amount, lock_period, daily_release, user_balance, now) is Ok,
        r matches Err(e) ==> lock_check(*gate, amount, lock_period, daily_release, user_balance, now)
            == Err::<(), VaultError>(e),
        r matches Ok((rec, ev)) ==> rec == (LockRecord {
            owner: user,
            amount,
            lock_period,
            daily_release,
            start_time: now,
            last_release_time: now,
        }) && rec.wf() && ev == (LockEvent { user, amount, lock_period, daily_release }),
{
    gate.require_active()?;
    if !check_lock_params(amount, lock_period, daily_release) {
        return Err(VaultError::InvalidLockParameters);
    }
    if user_balance < amount {
        return Err(VaultError::InsufficientBalance);
    }
    if !check_lock_window(lock_period, now) {
        return Err(VaultError::CalculationError);
    }
    let rec = LockRecord {
        owner: user,
        amount,
        lock_period,
        daily_release,
        start_time: now,
        last_release_time: now,
    };
    Ok((rec, LockEvent { user, amount, lock_period, daily_release }))
}

/// Releases to `user` what has vested since the last release: one
/// `daily_release` per whole day elapsed, at most what is still locked, at
/// most once per calendar day and only before the lock ends. On success the
/// caller transfers the released amount from the lock vault to the user under
/// the vault's own authority.
pub fn release_daily_xxusd(gate: &SystemState, record: &mut LockRecord, user: Address, now: u64) -> (r:
    Result<ReleaseEvent, VaultError>)
    requires
        old(record).wf(),
    ensures
        *final(record) == release_outcome(*gate, *old(record), user, now).1,
        r matches Ok(ev) ==> release_outcome(*gate, *old(record), user, now).0 == Ok::<u64, VaultError>(
            ev.amount,
        ) && ev.user == user,
        r matches Err(e) ==> release_outcome(*gate, *old(record), user, now).0 == Err::<u64, VaultError>(e),
        final(record).wf(),
        final(record).amount <= old(record).amount,
        final(record).last_release_time >= old(record).last_release_time,
{
    gate.require_active()?;
    if record.owner != user {
        return Err(VaultError::Unauthorized);
    }
    if now >= record.lock_end_time() {
        return Err(VaultError::LockPeriodEnded);
    }
    if record.last_release_time / SECONDS_PER_DAY >= now / SECONDS_PER_DAY {
        return Err(VaultError::AlreadyReleasedToday);
    }
    let days = (now - record.last_release_time) / SECONDS_PER_DAY;
    let releasable = match record.daily_release.checked_mul(days) {
        Some(v) => v,
        None => u64::MAX,
    };
    let released = if releasable <= record.amount {
        releasable
    } else {
        record.amount
    };
    if released == 0 {
        return Err(VaultError::NoAmountToRelease);
    }
    record.amount = record.amount - released;
    record.last_release_time = now;
    Ok(ReleaseEvent { user, amount: released })
}

/// The state of `record` at `now`: whether it is still locked and for how
/// long, what has vested since the start (capped by what is locked), and
/// when its redemption window closes.
pub fn check_lock_status(record: &LockRecord, now: u64) -> (s: LockStatus)
    requires
        record.wf(),
    ensures
        s.is_locked == (now < record.lock_end()),
        s.remaining_lock_time == (if now < record.lock_end() { record.lock_end() - now } else { 0 }),
        s.redeemable_amount == min(
            min(
                record.daily_release * (if now >= record.start_time { (now - record.start_time) / (
                SECONDS_PER_DAY as int) } else { 0 }),
                u64::MAX as int,
            ),
            record.amount as int,
        ),
        s.redemption_deadline == record.redemption_end(),
{
    let lock_end = record.lock_end_time();
    let is_locked = now < lock_end;
    let remaining_lock_time = if is_locked {
        lock_end - now
    } else {
        0
    };
    let days_since_start = if now >= record.start_time {
        (now - record.start_time) / SECONDS_PER_DAY
    } else {
        0
    };
    let vested = match record.daily_release.checked_mul(days_since_start) {
        Some(v) => v,
        None => u64::MAX,
    };
    let redeemable_amount = if vested <= record.amount {
        vested
    } else {
        record.amount
    };
    LockStatus {
        is_locked,
        remaining_lock_time,
        redeemable_amount,
        redemption_deadline: record.redemption_end_time(),
    }
}

/// Whether `now` lies in the redemption window: from the end of the lock to
/// `REDEMPTION_WINDOW_DAYS` days later, both ends included.
pub fn is_within_redemption_window(record: &LockRecord, now: u64) -> (r: bool)
    requires
        record.wf(),
    ensures
        r == (record.lock_end() <= now <= record.redemption_end()),
{
    now >= record.lock_end_time() && now <= record.redemption_end_time()
}

} // verus!
