use vstd::prelude::*;
use crate::access_control::SystemState;
use crate::address::Address;
use crate::error::VaultError;
use crate::lock_manager::LockRecord;

verus! {

/// A user's request to redeem synthetic units after their lock ended.
#[derive(Clone, Copy, Debug, PartialEq, Eq, Structural)]
pub struct RedemptionRequest {
    pub user: Address,
    pub amount: u64,
    pub request_time: u64,
    pub is_processed: bool,
}

/// Emitted when a redemption is requested.
#[derive(Clone, Copy, Debug, PartialEq, Eq, Structural)]
pub struct RedemptionInitiatedEvent {
    pub user: Address,
    pub amount: u64,
    pub request_time: u64,
}

/// Emitted when a redemption is carried out: `amount` units are burned and
/// `sol_amount` of the vault's native balance is paid to the user.
#[derive(Clone, Copy, Debug, PartialEq, Eq, Structural)]
pub struct RedemptionExecutedEvent {
    pub user: Address,
    pub amount: u64,
    pub sol_amount: u64,
}

/// Synthetic units redeemed per unit of native payout.
pub open spec fn conversion_rate() -> int {
    1_000_000_000
}

/// Relies on solana_program's `native_token::LAMPORTS_PER_SOL`, the number of
/// lamports in one SOL.
#[verifier::external_body]
fn lamports_per_sol() -> (r: u64)
    ensures
        r == conversion_rate(),
{
    solana_program::native_token::LAMPORTS_PER_SOL
}

/// Why a redemption request is refused, in the order the checks are made.
pub open spec fn initiate_check(
    gate: SystemState,
    lock: LockRecord,
    existing: Option<RedemptionRequest>,
    user: Address,
    amount: u64,
    user_balance: u64,
    now: u64,
) -> Result<(), VaultError> {
    if gate.is_paused {
        Err(VaultError::SystemPaused)
    } else if lock.owner != user {
        Err(VaultError::Unauthorized)
    } else if now < lock.lock_end() {
        Err(VaultError::LockPeriodNotEnded)
    } else if now > lock.redemption_end() {
        Err(VaultError::RedemptionPeriodEnded)
    } else if user_balance < amount {
        Err(VaultError::InsufficientBalance)
    } else if existing matches Some(req) && !req.is_processed {
        Err(VaultError::RedemptionPending)
    } else {
        Ok(())
    }
}

/// The payout of an execution, or why it is refused, in the order the checks
/// are made.
pub open spec fn execute_check(gate: SystemState, req: RedemptionRequest, user: Address, vault_balance: u64) -> Result<
    u64,
    VaultError,
> {
    if gate.is_paused {
        Err(VaultError::SystemPaused)
    } else if req.user != user {
        Err(VaultError::Unauthorized)
    } else if req.is_processed {
        Err(VaultError::AlreadyProcessed)
    } else if vault_balance < req.amount as int / conversion_rate() {
        Err(VaultError::InsufficientBalance)
    } else {
        Ok((req.amount as int / conversion_rate()) as u64)
    }
}

/// The result of an execution and the request afterwards.
pub open spec fn execute_outcome(gate: SystemState, req: RedemptionRequest, user: Address, vault_balance: u64) -> (Result<
    u64,
    VaultError,
>, RedemptionRequest) {
    match execute_check(gate, req, user, vault_balance) {
        Ok(payout) => (Ok(payout), RedemptionRequest { is_processed: true, ..req }),
        Err(e) => (Err(e), req),
    }
}

/// Opens a redemption of `amount` units for `user`, whose lock is `lock`,
/// at `now`. Allowed from the end of the lock to the end of the redemption
/// window, both included, when the user holds `amount` and has no other
/// unprocessed request (`existing`). On success the caller moves `amount`
/// into the redemption vault and stores the request.
pub fn initiate_redeem(
    gate: &SystemState,
    lock: &LockRecord,
    existing: &Option<RedemptionRequest>,
    user: Address,
    amount: u64,
    user_balance: u64,
    now: u64,
) -> (r: Result<(RedemptionRequest, RedemptionInitiatedEvent), VaultError>)
    requires
        lock.wf(),
    ensures
        r is Ok <==> initiate_check(*gate, *lock, *existing, user, amount, user_balance, now) is Ok,
        r matches Err(e) ==> initiate_check(*gate, *lock, *existing, user, amount, user_balance, now)
            == Err::<(), VaultError>(e),
        r matches Ok((req, ev)) ==> req == (RedemptionRequest {
            user,
            amount,
            request_time: now,
            is_processed: false,
        }) && ev == (RedemptionInitiatedEvent { user, amount, request_time: now }),
{
    gate.require_active()?;
    if lock.owner != user {
        return Err(VaultError::Unauthorized);
    }
    if now < lock.lock_end_time() {
        return Err(VaultError::LockPeriodNotEnded);
    }
    if now > lock.redemption_end_time() {
        return Err(VaultError::RedemptionPeriodEnded);
    }
    if user_balance < amount {
        return Err(VaultError::InsufficientBalance);
    }
    if let Some(req) = existing {
        if !req.is_processed {
            return Err(VaultError::RedemptionPending);
        }
    }
    Ok((
        RedemptionRequest { user, amount, request_time: now, is_processed: false },
        RedemptionInitiatedEvent { user, amount, request_time: now },
    ))
}

/// Carries out `user`'s pending request: the requested units are burned
/// from the redemption vault and `amount / conversion_rate()` is paid out of
/// the vault's native balance `vault_balance`. Both happen or neither: the
/// request is marked processed only when the payout is covered. On success
/// the caller burns and pays under the vault's own authority.
pub fn execute_redeem(gate: &SystemState, request: &mut RedemptionRequest, user: Address, vault_balance: u64) -> (r:
    Result<RedemptionExecutedEvent, VaultError>)
    ensures
        *final(request) == execute_outcome(*gate, *old(request), user, vault_balance).1,
        r matches Ok(ev) ==> execute_outcome(*gate, *old(request), user, vault_balance).0 == Ok::<
            u64,
            VaultError,
        >(ev.sol_amount) && ev.user == user && ev.amount == old(request).amount,
        r matches Err(e) ==> execute_outcome(*gate, *old(request), user, vault_balance).0 == Err::<
            u64,
            VaultError,
        >(e),
{
    gate.require_active()?;
    if request.user != user {
        return Err(VaultError::Unauthorized);
    }
    if request.is_processed {
        return Err(VaultError::AlreadyProcessed);
    }
    let sol_amount = request.amount / lamports_per_sol();
    if vault_balance < sol_amount {
        return Err(VaultError::InsufficientBalance);
    }
    request.is_processed = true;
    Ok(RedemptionExecutedEvent { user, amount: request.amount, sol_amount })
}

/// Whether `user_balance` may be redeemed at `now` against `lock`: inside
/// the redemption window and with something to redeem.
pub fn check_redeem_eligibility(lock: &LockRecord, user_balance: u64, now: u64) -> (r: bool)
    requires
        lock.wf(),
    ensures
        r == (lock.lock_end() <= now <= lock.redemption_end() && user_balance > 0),
{
    if now < lock.lock_end_time() {
        return false;
    }
    if now > lock.redemption_end_time() {
        return false;
    }
    user_balance > 0
}

/// The redemption window's bounds: a request one second before the lock
/// ends fails with `LockPeriodNotEnded`, requests at the end of the lock and
/// at the last second of the window are accepted, and one a second later
/// fails with `RedemptionPeriodEnded`.
pub proof fn lemma_redemption_window_boundary(
    gate: SystemState,
    lock: LockRecord,
    user: Address,
    amount: u64,
    user_balance: u64,
    existing: Option<RedemptionRequest>,
)
    requires
        lock.wf(),
        lock.redemption_end() < u64::MAX,
        !gate.is_paused,
        lock.owner == user,
        user_balance >= amount,
        !(existing matches Some(req) && !req.is_processed),
    ensures
        initiate_check(gate, lock, existing, user, amount, user_balance, (lock.lock_end() - 1) as u64)
            == Err::<(), VaultError>(VaultError::LockPeriodNotEnded),
        initiate_check(gate, lock, existing, user, amount, user_balance, lock.lock_end() as u64) is Ok,
        initiate_check(gate, lock, existing, user, amount, user_balance, lock.redemption_end() as u64) is Ok,
        initiate_check(gate, lock, existing, user, amount, user_balance, (lock.redemption_end() + 1) as u64)
            == Err::<(), VaultError>(VaultError::RedemptionPeriodEnded),
{
    assert(lock.lock_period * 86400 >= 86400) by (nonlinear_arith)
        requires
            lock.lock_period > 0,
    ;
}

/// Executing a request is not repeatable: after a successful execution, a
/// second one on the resulting request fails with `AlreadyProcessed` and
/// leaves it as the first left it.
pub proof fn lemma_execute_once(
    gate: SystemState,
    req: RedemptionRequest,
    user: Address,
    first_balance: u64,
    second_balance: u64,
)
    requires
        execute_outcome(gate, req, user, first_balance).0 is Ok,
    ensures
        execute_outcome(gate, execute_outcome(gate, req, user, first_balance).1, user, second_balance)
            == (
            Err::<u64, VaultError>(VaultError::AlreadyProcessed),
            execute_outcome(gate, req, user, first_balance).1,
        ),
{
}

} // verus!
