use vstd::prelude::*;
use crate::access_control::SystemState;
use crate::address::Address;
use crate::error::VaultError;
use crate::lock_manager::{check_lock_params, check_lock_window, lock_params_ok, lock_window_fits, LockRecord};
use crate::price_oracle::{pull_feed_result, read_outcome, Asset, DataKind, PriceCache, Quote};

verus! {

pub const DAYS_IN_YEAR: u64 = 365;

/// APYs are held in basis points: 762 stands for 7.62%.
pub const APY_PRECISION: u64 = 10000;

pub const MIN_LOCK_PERIOD: u64 = 1;

pub const MAX_LOCK_PERIOD: u64 = 365;

pub const MIN_PRODUCT_PRICE: u64 = 10;

pub const MAX_PRODUCT_PRICE: u64 = 10000;

/// APY a fresh vault starts with, in basis points.
pub const INITIAL_APY: u64 = 762;

/// Product price a fresh vault starts with.
pub const INITIAL_PRODUCT_PRICE: u64 = 1798;

/// Configuration of the vault: its gate, the accepted collateral, the
/// largest single mint, and the APY and product price used to size locks.
#[derive(Clone, Copy, Debug, PartialEq, Eq, Structural)]
pub struct ProgramState {
    pub gate: SystemState,
    pub collateral_mint: Address,
    /// The oracle feed the collateral is priced with.
    pub collateral_asset: Asset,
    pub minting_limit: u64,
    /// Basis points.
    pub current_apy: u64,
    pub last_apy_update: u64,
    pub product_price: u64,
}

/// One depositor's record: collateral deposited, the value it was credited
/// at, and the synthetic units handed to the user. The units held back are
/// recorded in the user's vesting lock.
#[derive(Clone, Copy, Debug, PartialEq, Eq, Structural)]
pub struct UserDeposit {
    pub owner: Address,
    pub raw_amount: u64,
    pub valued_amount: u64,
    pub liquid_amount: u64,
}

/// Emitted by a successful deposit.
#[derive(Clone, Copy, Debug, PartialEq, Eq, Structural)]
pub struct DepositEvent {
    pub user: Address,
    pub amount: u64,
    pub value: u64,
}

/// Emitted by a successful mint: `total_amount` is minted into the vault,
/// `user_amount` of it goes to the user and `locked_amount` stays behind.
#[derive(Clone, Copy, Debug, PartialEq, Eq, Structural)]
pub struct MintAndDistributeEvent {
    pub user: Address,
    pub total_amount: u64,
    pub locked_amount: u64,
    pub user_amount: u64,
}

/// Emitted by a lock period calculation.
#[derive(Clone, Copy, Debug, PartialEq, Eq, Structural)]
pub struct LockPeriodCalculatedEvent {
    pub product_price: u64,
    pub asset_value: u64,
    pub apy: u64,
    pub lock_period: u64,
}

/// Emitted when the admin changes the APY.
#[derive(Clone, Copy, Debug, PartialEq, Eq, Structural)]
pub struct ApyUpdatedEvent {
    pub old_apy: u64,
    pub new_apy: u64,
    pub timestamp: u64,
}

/// Emitted when the admin changes the product price.
#[derive(Clone, Copy, Debug, PartialEq, Eq, Structural)]
pub struct PriceChangedEvent {
    pub old_price: u64,
    pub new_price: u64,
    pub authority: Address,
}

pub open spec fn pow10(n: nat) -> nat
    decreases n,
{
    if n == 0 {
        1
    } else {
        10 * pow10((n - 1) as nat)
    }
}

proof fn lemma_pow10_monotonic(i: nat, j: nat)
    requires
        i <= j,
    ensures
        pow10(i) <= pow10(j),
    decreases j - i,
{
    if i < j {
        lemma_pow10_monotonic(i, (j - 1) as nat);
    }
}

proof fn lemma_pow10_positive(n: nat)
    ensures
        pow10(n) >= 1,
    decreases n,
{
    if n > 0 {
        lemma_pow10_positive((n - 1) as nat);
    }
}

/// The value of `amount` collateral units priced at `price` per whole unit of
/// an asset with `decimals` decimals, truncated; `CalculationError` where a
/// 128-bit intermediate or the 64-bit result cannot hold it.
pub open spec fn collateral_value(amount: u64, price: u64, decimals: u8) -> Result<u64, VaultError> {
    if amount * price > u128::MAX || pow10(decimals as nat) > u128::MAX {
        Err(VaultError::CalculationError)
    } else if amount * price / (pow10(decimals as nat) as int) > u64::MAX {
        Err(VaultError::CalculationError)
    } else {
        Ok((amount * price / (pow10(decimals as nat) as int)) as u64)
    }
}

/// A deposit record after `amount` more collateral worth `value` came in.
pub open spec fn credited(d: UserDeposit, amount: u64, value: u64) -> UserDeposit {
    UserDeposit {
        raw_amount: (d.raw_amount + amount) as u64,
        valued_amount: (d.valued_amount + value) as u64,
        ..d
    }
}

/// A deposit record after `user_amount` units were handed out.
pub open spec fn distributed(d: UserDeposit, user_amount: u64) -> UserDeposit {
    UserDeposit { liquid_amount: (d.liquid_amount + user_amount) as u64, ..d }
}

/// The user's vesting lock after a mint held back `locked` units at `now`,
/// or why it cannot take them. Nothing held back leaves the lock as it is;
/// an existing lock of the user grows by `locked`; otherwise a lock of
/// `locked` is created with the given schedule.
pub open spec fn vesting_after_mint(
    lock: Option<LockRecord>,
    user: Address,
    locked: u64,
    lock_period: u64,
    daily_release: u64,
    now: u64,
) -> Result<Option<LockRecord>, VaultError> {
    if locked == 0 {
        Ok(lock)
    } else {
        match lock {
            Some(rec) => if rec.owner != user {
                Err(VaultError::Unauthorized)
            } else if rec.amount + locked > u64::MAX {
                Err(VaultError::CalculationError)
            } else {
                Ok(Some(LockRecord { amount: (rec.amount + locked) as u64, ..rec }))
            },
            None => if !lock_params_ok(locked, lock_period, daily_release) {
                Err(VaultError::InvalidLockParameters)
            } else if !lock_window_fits(lock_period, now) {
                Err(VaultError::CalculationError)
            } else {
                Ok(
                    Some(
                        LockRecord {
                            owner: user,
                            amount: locked,
                            lock_period,
                            daily_release,
                            start_time: now,
                            last_release_time: now,
                        },
                    ),
                )
            },
        }
    }
}

/// Why a deposit is refused, in the order the checks are made, or the value
/// it is credited at.
pub open spec fn deposit_check(
    state: ProgramState,
    d: UserDeposit,
    user: Address,
    asset_mint: Address,
    asset_decimals: u8,
    amount: u64,
    price: u64,
    user_balance: u64,
) -> Result<u64, VaultError> {
    if state.gate.is_paused {
        Err(VaultError::SystemPaused)
    } else if d.owner != user {
        Err(VaultError::Unauthorized)
    } else if amount == 0 {
        Err(VaultError::InvalidAmount)
    } else if asset_mint != state.collateral_mint {
        Err(VaultError::InvalidAssetType)
    } else if collateral_value(amount, price, asset_decimals) is Err {
        collateral_value(amount, price, asset_decimals)
    } else if user_balance < amount {
        Err(VaultError::InsufficientBalance)
    } else if d.raw_amount + amount > u64::MAX || d.valued_amount
        + collateral_value(amount, price, asset_decimals)->Ok_0 > u64::MAX {
        Err(VaultError::CalculationError)
    } else {
        collateral_value(amount, price, asset_decimals)
    }
}

/// Why a mint is refused, in the order the checks are made, or the amount
/// handed to the user and the user's vesting lock afterwards.
pub open spec fn mint_check(
    state: ProgramState,
    d: UserDeposit,
    lock: Option<LockRecord>,
    user: Address,
    total_value: u64,
    locked_value: u64,
    lock_period: u64,
    daily_release: u64,
    now: u64,
) -> Result<(u64, Option<LockRecord>), VaultError> {
    if state.gate.is_paused {
        Err(VaultError::SystemPaused)
    } else if d.owner != user {
        Err(VaultError::Unauthorized)
    } else if locked_value > total_value {
        Err(VaultError::CalculationError)
    } else if total_value > state.minting_limit {
        Err(VaultError::MintingLimitExceeded)
    } else if d.liquid_amount + (total_value - locked_value) > u64::MAX {
        Err(VaultError::CalculationError)
    } else {
        match vesting_after_mint(lock, user, locked_value, lock_period, daily_release, now) {
            Ok(l) => Ok(((total_value - locked_value) as u64, l)),
            Err(e) => Err(e),
        }
    }
}

/// Lock length in days for a product priced `product_price` bought with
/// `asset_value` earning `apy` basis points a year: the days the yield takes
/// to pay for the product, kept within one day and a year.
pub open spec fn lock_period_days(product_price: u64, asset_value: u64, apy: u64) -> Result<u64, VaultError> {
    if apy == 0 {
        Err(VaultError::InvalidApy)
    } else if asset_value == 0 {
        Err(VaultError::CalculationError)
    } else {
        let days = product_price * DAYS_IN_YEAR * APY_PRECISION / (asset_value * apy);
        Ok(
            if days < MIN_LOCK_PERIOD {
                MIN_LOCK_PERIOD
            } else if days > MAX_LOCK_PERIOD {
                MAX_LOCK_PERIOD
            } else {
                days as u64
            },
        )
    }
}

/// `10^decimals` as a 128-bit integer, if it fits.
fn pow10_u128(decimals: u8) -> (r: Option<u128>)
    ensures
        r == (if pow10(decimals as nat) <= u128::MAX {
            Some(pow10(decimals as nat) as u128)
        } else {
            None
        }),
{
    let mut acc: u128 = 1;
    let mut i: u8 = 0;
    while i < decimals
        invariant
            i <= decimals,
            acc as nat == pow10(i as nat),
        decreases decimals - i,
    {
        match acc.checked_mul(10) {
            Some(next) => {
                acc = next;
                i = i + 1;
            },
            None => {
                proof {
                    lemma_pow10_monotonic((i + 1) as nat, decimals as nat);
                }
                return None;
            },
        }
    }
    Some(acc)
}

/// Values a deposit: `amount * price / 10^decimals` with a 128-bit
/// intermediate, truncated; `CalculationError` on any overflow.
pub fn value_collateral(amount: u64, price: u64, decimals: u8) -> (r: Result<u64, VaultError>)
    ensures
        r == collateral_value(amount, price, decimals),
{
    let product = match (amount as u128).checked_mul(price as u128) {
        Some(p) => p,
        None => return Err(VaultError::CalculationError),
    };
    let scale = match pow10_u128(decimals) {
        Some(s) => s,
        None => return Err(VaultError::CalculationError),
    };
    proof {
        lemma_pow10_positive(decimals as nat);
    }
    let value = match product.checked_div(scale) {
        Some(v) => v,
        None => return Err(VaultError::CalculationError),
    };
    if value > u64::MAX as u128 {
        return Err(VaultError::CalculationError);
    }
    Ok(value as u64)
}

/// Deposits `amount` units of collateral from `user`, priced at `price` per
/// whole unit of the collateral (which has `asset_decimals` decimals),
/// against the user's record `deposit`. `user_balance` is the user's
/// collateral balance. On success the caller moves `amount` from the user to
/// the vault; the record is credited the amount and its value.
pub fn deposit_at_price(
    state: &ProgramState,
    deposit: &mut UserDeposit,
    user: Address,
    asset_mint: Address,
    asset_decimals: u8,
    amount: u64,
    price: u64,
    user_balance: u64,
) -> (r: Result<DepositEvent, VaultError>)
    ensures
        r is Ok <== deposit_check(*state, *old(deposit), user, asset_mint, asset_decimals, amount, price, user_balance) is Ok,
        r matches Ok(ev) ==> deposit_check(
            *state,
            *old(deposit),
            user,
            asset_mint,
            asset_decimals,
            amount,
            price,
            user_balance,
        ) == Ok::<u64, VaultError>(ev.value) && ev.user == user && ev.amount == amount && *final(deposit)
            == credited(*old(deposit), amount, ev.value),
        r matches Err(e) ==> deposit_check(
            *state,
            *old(deposit),
            user,
            asset_mint,
            asset_decimals,
            amount,
            price,
            user_balance,
        ) == Err::<u64, VaultError>(e) && *final(deposit) == *old(deposit),
{
    state.gate.require_active()?;
    if deposit.owner != user {
        return Err(VaultError::Unauthorized);
    }
    if amount == 0 {
        return Err(VaultError::InvalidAmount);
    }
    if asset_mint != state.collateral_mint {
        return Err(VaultError::InvalidAssetType);
    }
    let value = value_collateral(amount, price, asset_decimals)?;
    if user_balance < amount {
        return Err(VaultError::InsufficientBalance);
    }
    let raw_amount = match deposit.raw_amount.checked_add(amount) {
        Some(v) => v,
        None => return Err(VaultError::CalculationError),
    };
    let valued_amount = match deposit.valued_amount.checked_add(value) {
        Some(v) => v,
        None => return Err(VaultError::CalculationError),
    };
    deposit.raw_amount = raw_amount;
    deposit.valued_amount = valued_amount;
    Ok(DepositEvent { user, amount, value })
}

/// Why a deposit priced by the oracle is refused, or the value it is
/// credited at, where `quote` is what the oracle answered. The oracle is only
/// asked once the request itself is valid.
pub open spec fn oracle_deposit_check(
    state: ProgramState,
    d: UserDeposit,
    user: Address,
    asset_mint: Address,
    asset_decimals: u8,
    amount: u64,
    user_balance: u64,
    quote: Result<Quote, VaultError>,
) -> Result<u64, VaultError> {
    if state.gate.is_paused {
        Err(VaultError::SystemPaused)
    } else if d.owner != user {
        Err(VaultError::Unauthorized)
    } else if amount == 0 {
        Err(VaultError::InvalidAmount)
    } else if asset_mint != state.collateral_mint {
        Err(VaultError::InvalidAssetType)
    } else {
        match quote {
            Err(e) => Err(e),
            Ok(q) => deposit_check(state, d, user, asset_mint, asset_decimals, amount, q.price, user_balance),
        }
    }
}

/// Deposits `amount` units of collateral from `user`, valued at the price
/// the cache quotes for the collateral at `now` (reading the pull feed
/// account data `feed_data` only if the cached price is stale, and then using
/// its current result). Atomic: when
/// the deposit fails, neither the record nor the cache changes; when it
/// succeeds, the cache keeps the price it fetched, as a read would.
pub fn deposit_asset(
    state: &ProgramState,
    cache: &mut PriceCache,
    deposit: &mut UserDeposit,
    user: Address,
    asset_mint: Address,
    asset_decimals: u8,
    amount: u64,
    user_balance: u64,
    now: u64,
    feed_data: &[u8],
) -> (r: Result<DepositEvent, VaultError>)
    requires
        old(cache).wf(),
    ensures
        final(cache).wf(),
        ({
                let (q, entries) = read_outcome(
                    old(cache).entries(),
                    state.collateral_asset,
                    DataKind::Price,
                    now,
                    pull_feed_result(feed_data@),
                );
                let check = oracle_deposit_check(
                    *state,
                    *old(deposit),
                    user,
                    asset_mint,
                    asset_decimals,
                    amount,
                    user_balance,
                    q,
                );
                &&& r is Ok <== check is Ok
                &&& r matches Ok(ev) ==> check == Ok::<u64, VaultError>(ev.value) && ev.user == user
                    && ev.amount == amount && *final(deposit) == credited(*old(deposit), amount, ev.value)
                    && final(cache).entries() == entries
                &&& r matches Err(e) ==> check == Err::<u64, VaultError>(e) && *final(deposit)
                    == *old(deposit) && final(cache).entries() == old(cache).entries()
            }),
        final(cache).spec_authority() == old(cache).spec_authority(),
{
    state.gate.require_active()?;
    if deposit.owner != user {
        return Err(VaultError::Unauthorized);
    }
    if amount == 0 {
        return Err(VaultError::InvalidAmount);
    }
    if asset_mint != state.collateral_mint {
        return Err(VaultError::InvalidAssetType);
    }
    let (quote, fetched) = cache.quote(state.collateral_asset, DataKind::Price, now, feed_data);
    let price = match quote {
        Ok(q) => q.price,
        Err(e) => return Err(e),
    };
    let ev = deposit_at_price(state, deposit, user, asset_mint, asset_decimals, amount, price, user_balance)?;
    // Store the price just used: the same fetched result yields the same quote.
    let _stored = cache.read(state.collateral_asset, DataKind::Price, now, fetched);
    Ok(ev)
}

/// Mints `total_value` synthetic units into the vault for `user` and splits
/// them: `total_value - locked_value` go to the user, who is credited them in
/// `deposit`, and `locked_value` stay in the vault as the user's vesting lock
/// `lock`, which grows by that much or, when the user has none yet, is
/// created at `now` with `lock_period` days and `daily_release` a day. No lock
/// is made or grown unless the mint succeeds. On success the caller mints
/// `total_amount` under the vault's own authority, transfers `user_amount` to
/// the user and moves `locked_amount` to the lock vault.
///
/// Both amounts are taken as the caller gives them: they are not checked
/// against the value the deposit was credited. Pairing each mint with the
/// value of its deposit is the caller's duty, and value conservation holds
/// under that pairing only.
pub fn mint_and_distribute_xxusd(
    state: &ProgramState,
    deposit: &mut UserDeposit,
    lock: &mut Option<LockRecord>,
    user: Address,
    total_value: u64,
    locked_value: u64,
    lock_period: u64,
    daily_release: u64,
    now: u64,
) -> (r: Result<MintAndDistributeEvent, VaultError>)
    ensures
        r is Ok <== mint_check(
            *state,
            *old(deposit),
            *old(lock),
            user,
            total_value,
            locked_value,
            lock_period,
            daily_release,
            now,
        ) is Ok,
        r matches Ok(ev) ==> mint_check(
            *state,
            *old(deposit),
            *old(lock),
            user,
            total_value,
            locked_value,
            lock_period,
            daily_release,
            now,
        ) == Ok::<(u64, Option<LockRecord>), VaultError>((ev.user_amount, *final(lock))) && ev == (
        MintAndDistributeEvent {
            user,
            total_amount: total_value,
            locked_amount: locked_value,
            user_amount: (total_value - locked_value) as u64,
        }) && *final(deposit) == distributed(*old(deposit), ev.user_amount),
        r matches Err(e) ==> mint_check(
            *state,
            *old(deposit),
            *old(lock),
            user,
            total_value,
            locked_value,
            lock_period,
            daily_release,
            now,
        ) == Err::<(u64, Option<LockRecord>), VaultError>(e) && *final(deposit) == *old(deposit)
            && *final(lock) == *old(lock),
        (*old(lock) matches Some(rec) ==> rec.wf()) ==> (*final(lock) matches Some(rec) ==> rec.wf()),
{
    state.gate.require_active()?;
    if deposit.owner != user {
        return Err(VaultError::Unauthorized);
    }
    let user_amount = match total_value.checked_sub(locked_value) {
        Some(v) => v,
        None => return Err(VaultError::CalculationError),
    };
    if total_value > state.minting_limit {
        return Err(VaultError::MintingLimitExceeded);
    }
    let liquid_amount = match deposit.liquid_amount.checked_add(user_amount) {
        Some(v) => v,
        None => return Err(VaultError::CalculationError),
    };
    if locked_value > 0 {
        let vested = match *lock {
            Some(rec) => {
                if rec.owner != user {
                    return Err(VaultError::Unauthorized);
                }
                match rec.amount.checked_add(locked_value) {
                    Some(amount) => LockRecord { amount, ..rec },
                    None => return Err(VaultError::CalculationError),
                }
            },
            None => {
                if !check_lock_params(locked_value, lock_period, daily_release) {
                    return Err(VaultError::InvalidLockParameters);
                }
                if !check_lock_window(lock_period, now) {
                    return Err(VaultError::CalculationError);
                }
                LockRecord {
                    owner: user,
                    amount: locked_value,
                    lock_period,
                    daily_release,
                    start_time: now,
                    last_release_time: now,
                }
            },
        };
        *lock = Some(vested);
    }
    deposit.liquid_amount = liquid_amount;
    Ok(MintAndDistributeEvent { user, total_amount: total_value, locked_amount: locked_value, user_amount })
}

/// Total collateral value credited across a set of deposit records.
pub open spec fn total_valued(ledger: Seq<UserDeposit>) -> int
    decreases ledger.len(),
{
    if ledger.len() == 0 {
        0
    } else {
        total_valued(ledger.drop_last()) + ledger.last().valued_amount
    }
}

/// One step of the vault's history, as seen by value accounting.
pub enum LedgerStep {
    /// A successful deposit into record number `user` of `amount` collateral
    /// credited at `value`, followed by the successful mint of exactly `value`
    /// units of which `locked` are held back.
    DepositMint { user: nat, amount: u64, value: u64, locked: u64 },
    /// An executed redemption that burned `burned` units.
    Redeem { burned: u64 },
}

/// A step is possible on `ledger`: the record exists and every counter the
/// deposit and the mint add to still fits.
pub open spec fn step_fits(ledger: Seq<UserDeposit>, step: LedgerStep) -> bool {
    match step {
        LedgerStep::DepositMint { user, amount, value, locked } => {
            &&& user < ledger.len()
            &&& locked <= value
            &&& ledger[user as int].raw_amount + amount <= u64::MAX
            &&& ledger[user as int].valued_amount + value <= u64::MAX
            &&& ledger[user as int].liquid_amount + (value - locked) <= u64::MAX
        },
        LedgerStep::Redeem { .. } => true,
    }
}

/// The records after `steps`, with the total minted and the total burned.
pub open spec fn run_steps(ledger: Seq<UserDeposit>, steps: Seq<LedgerStep>) -> (Seq<UserDeposit>, int, int)
    decreases steps.len(),
{
    if steps.len() == 0 {
        (ledger, 0, 0)
    } else {
        let (l, minted, burned) = run_steps(ledger, steps.drop_last());
        match steps.last() {
            LedgerStep::DepositMint { user, amount, value, locked } => (
                l.update(
                    user as int,
                    distributed(credited(l[user as int], amount, value), (value - locked) as u64),
                ),
                minted + value,
                burned,
            ),
            LedgerStep::Redeem { burned: b } => (l, minted, burned + b),
        }
    }
}

/// Every step of `steps` is possible where it is taken.
pub open spec fn steps_fit(ledger: Seq<UserDeposit>, steps: Seq<LedgerStep>) -> bool
    decreases steps.len(),
{
    steps.len() == 0 || (steps_fit(ledger, steps.drop_last()) && step_fits(
        run_steps(ledger, steps.drop_last()).0,
        steps.last(),
    ))
}

proof fn lemma_total_valued_update(ledger: Seq<UserDeposit>, i: int, d: UserDeposit)
    requires
        0 <= i < ledger.len(),
    ensures
        total_valued(ledger.update(i, d)) == total_valued(ledger) - ledger[i].valued_amount
            + d.valued_amount,
    decreases ledger.len(),
{
    let u = ledger.update(i, d);
    if i == ledger.len() - 1 {
        assert(u.drop_last() =~= ledger.drop_last());
    } else {
        lemma_total_valued_update(ledger.drop_last(), i, d);
        assert(u.drop_last() =~= ledger.drop_last().update(i, d));
    }
}

/// A mint of the value a deposit was credited, by the record's owner on a
/// running vault, within the minting limit, with counters and lock that fit,
/// succeeds, hands out `value - locked`, and leaves the credited value as it
/// is: this is the mint step of `run_steps`.
pub proof fn lemma_mint_after_deposit(
    state: ProgramState,
    d: UserDeposit,
    lock: Option<LockRecord>,
    user: Address,
    value: u64,
    locked: u64,
    lock_period: u64,
    daily_release: u64,
    now: u64,
)
    requires
        !state.gate.is_paused,
        d.owner == user,
        locked <= value <= state.minting_limit,
        d.liquid_amount + (value - locked) <= u64::MAX,
        vesting_after_mint(lock, user, locked, lock_period, daily_release, now) is Ok,
    ensures
        mint_check(state, d, lock, user, value, locked, lock_period, daily_release, now) matches Ok((u, _))
            && u == value - locked,
        distributed(d, (value - locked) as u64).valued_amount == d.valued_amount,
{
}

/// Value conservation: over any history of deposit-then-mint rounds (each
/// mint issuing exactly the value its deposit was credited) and executed
/// redemptions, the credited collateral value grows by exactly what was
/// minted. Redemptions burn from the minted supply and leave the credited
/// value as it is; the total burned is the third component of `run_steps`.
pub proof fn lemma_value_conservation(ledger: Seq<UserDeposit>, steps: Seq<LedgerStep>)
    requires
        steps_fit(ledger, steps),
    ensures
        run_steps(ledger, steps).0.len() == ledger.len(),
        total_valued(run_steps(ledger, steps).0) == total_valued(ledger) + run_steps(ledger, steps).1,
    decreases steps.len(),
{
    if steps.len() > 0 {
        lemma_value_conservation(ledger, steps.drop_last());
        let l = run_steps(ledger, steps.drop_last()).0;
        match steps.last() {
            LedgerStep::DepositMint { user, amount, value, locked } => {
                let d = distributed(credited(l[user as int], amount, value), (value - locked) as u64);
                lemma_total_valued_update(l, user as int, d);
            },
            LedgerStep::Redeem { .. } => {},
        }
    }
}

impl UserDeposit {
    /// The record a user's first deposit creates.
    pub fn new(owner: Address) -> (d: UserDeposit)
        ensures
            d == (UserDeposit {
                owner,
                raw_amount: 0,
                valued_amount: 0,
                liquid_amount: 0,
            }),
    {
        UserDeposit { owner, raw_amount: 0, valued_amount: 0, liquid_amount: 0 }
    }
}

impl ProgramState {
    /// A running vault administered by `authority`, accepting
    /// `collateral_mint`, which the oracle prices as `collateral_asset`.
    pub fn initialize(
        authority: Address,
        collateral_mint: Address,
        collateral_asset: Asset,
        minting_limit: u64,
        now: u64,
    ) -> (s: ProgramState)
        ensures
            s.gate.admin == authority,
            !s.gate.is_paused,
            s.collateral_mint == collateral_mint,
            s.collateral_asset == collateral_asset,
            s.minting_limit == minting_limit,
            s.current_apy == INITIAL_APY,
            s.last_apy_update == now,
            s.product_price == INITIAL_PRODUCT_PRICE,
    {
        ProgramState {
            gate: SystemState::initialize(authority),
            collateral_mint,
            collateral_asset,
            minting_limit,
            current_apy: INITIAL_APY,
            last_apy_update: now,
            product_price: INITIAL_PRODUCT_PRICE,
        }
    }

    /// Pauses the vault; admin only.
    pub fn pause_system(&mut self, caller: Address) -> (r: Result<(), VaultError>)
        ensures
            r == (if caller != old(self).gate.admin {
                Err(VaultError::Unauthorized)
            } else if old(self).gate.is_paused {
                Err(VaultError::AlreadyPaused)
            } else {
                Ok(())
            }),
            final(self).gate.is_paused == (r is Ok || old(self).gate.is_paused),
            *final(self) == (ProgramState { gate: final(self).gate, ..*old(self) }),
            final(self).gate.admin == old(self).gate.admin,
    {
        self.gate.pause_system(caller)
    }

    /// Resumes the vault; admin only.
    pub fn unpause_system(&mut self, caller: Address) -> (r: Result<(), VaultError>)
        ensures
            r == (if caller != old(self).gate.admin {
                Err(VaultError::Unauthorized)
            } else if !old(self).gate.is_paused {
                Err(VaultError::NotPaused)
            } else {
                Ok(())
            }),
            final(self).gate.is_paused == (old(self).gate.is_paused && r is Err),
            *final(self) == (ProgramState { gate: final(self).gate, ..*old(self) }),
            final(self).gate.admin == old(self).gate.admin,
    {
        self.gate.unpause_system(caller)
    }

    /// Sets the APY used to size locks; admin only, and it must be positive.
    pub fn update_apy(&mut self, caller: Address, new_apy: u64, now: u64) -> (r: Result<
        ApyUpdatedEvent,
        VaultError,
    >)
        ensures
            caller != old(self).gate.admin ==> r == Err::<ApyUpdatedEvent, VaultError>(VaultError::Unauthorized),
            caller == old(self).gate.admin && old(self).gate.is_paused ==> r == Err::<
                ApyUpdatedEvent,
                VaultError,
            >(VaultError::SystemPaused),
            caller == old(self).gate.admin && !old(self).gate.is_paused && new_apy == 0 ==> r == Err::<
                ApyUpdatedEvent,
                VaultError,
            >(VaultError::InvalidApy),
            caller == old(self).gate.admin && !old(self).gate.is_paused && new_apy > 0 ==> r == Ok::<
                ApyUpdatedEvent,
                VaultError,
            >(ApyUpdatedEvent { old_apy: old(self).current_apy, new_apy, timestamp: now }),
            r is Ok ==> *final(self) == (ProgramState {
                current_apy: new_apy,
                last_apy_update: now,
                ..*old(self)
            }),
            r is Err ==> *final(self) == *old(self),
    {
        self.gate.require_admin(caller)?;
        self.gate.require_active()?;
        if new_apy == 0 {
            return Err(VaultError::InvalidApy);
        }
        let old_apy = self.current_apy;
        self.current_apy = new_apy;
        self.last_apy_update = now;
        Ok(ApyUpdatedEvent { old_apy, new_apy, timestamp: now })
    }

    /// Sets the product price; admin only, and it must lie in
    /// `MIN_PRODUCT_PRICE..=MAX_PRODUCT_PRICE`.
    pub fn set_product_price(&mut self, caller: Address, new_price: u64) -> (r: Result<
        PriceChangedEvent,
        VaultError,
    >)
        ensures
            caller != old(self).gate.admin ==> r == Err::<PriceChangedEvent, VaultError>(VaultError::Unauthorized),
            caller == old(self).gate.admin && old(self).gate.is_paused ==> r == Err::<
                PriceChangedEvent,
                VaultError,
            >(VaultError::SystemPaused),
            caller == old(self).gate.admin && !old(self).gate.is_paused && !(MIN_PRODUCT_PRICE <= new_price
                <= MAX_PRODUCT_PRICE) ==> r == Err::<PriceChangedEvent, VaultError>(VaultError::InvalidPrice),
            caller == old(self).gate.admin && !old(self).gate.is_paused && MIN_PRODUCT_PRICE <= new_price
                <= MAX_PRODUCT_PRICE ==> r == Ok::<PriceChangedEvent, VaultError>(
                PriceChangedEvent { old_price: old(self).product_price, new_price, authority: caller },
            ),
            r is Ok ==> *final(self) == (ProgramState { product_price: new_price, ..*old(self) }),
            r is Err ==> *final(self) == *old(self),
    {
        self.gate.require_admin(caller)?;
        self.gate.require_active()?;
        if new_price < MIN_PRODUCT_PRICE || new_price > MAX_PRODUCT_PRICE {
            return Err(VaultError::InvalidPrice);
        }
        let old_price = self.product_price;
        self.product_price = new_price;
        Ok(PriceChangedEvent { old_price, new_price, authority: caller })
    }

    /// The lock length, in days, for a product priced `product_price` bought
    /// with `asset_value` at the current APY: `product_price * 365 * 10000 /
    /// (asset_value * apy)`, truncated and kept within 1..=365 days.
    pub fn calculate_lock_period(&self, product_price: u64, asset_value: u64) -> (r: Result<
        LockPeriodCalculatedEvent,
        VaultError,
    >)
        ensures
            r matches Ok(ev) ==> lock_period_days(product_price, asset_value, self.current_apy) == Ok::<
                u64,
                VaultError,
            >(ev.lock_period) && ev.product_price == product_price && ev.asset_value == asset_value
                && ev.apy == self.current_apy,
            r matches Err(e) ==> lock_period_days(product_price, asset_value, self.current_apy) == Err::<
                u64,
                VaultError,
            >(e),
    {
        let apy = self.current_apy;
        if apy == 0 {
            return Err(VaultError::InvalidApy);
        }
        if asset_value == 0 {
            return Err(VaultError::CalculationError);
        }
        assert((product_price as int) * 365 * 10000 <= u128::MAX) by (nonlinear_arith)
            requires
                product_price <= u64::MAX,
        ;
        assert((asset_value as int) * (apy as int) <= u128::MAX) by (nonlinear_arith)
            requires
                asset_value <= u64::MAX,
                apy <= u64::MAX,
        ;
        assert((asset_value as int) * (apy as int) > 0) by (nonlinear_arith)
            requires
                asset_value > 0,
                apy > 0,
        ;
        let numerator = (product_price as u128) * (DAYS_IN_YEAR as u128) * (APY_PRECISION as u128);
        let denominator = (asset_value as u128) * (apy as u128);
        let days = numerator / denominator;
        let lock_period: u64 = if days < MIN_LOCK_PERIOD as u128 {
            MIN_LOCK_PERIOD
        } else if days > MAX_LOCK_PERIOD as u128 {
            MAX_LOCK_PERIOD
        } else {
            days as u64
        };
        Ok(LockPeriodCalculatedEvent { product_price, asset_value, apy, lock_period })
    }
}

} // verus!
