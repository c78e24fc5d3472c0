use vstd::prelude::*;
use crate::access_control::SystemState;
use crate::address::Address;
use crate::error::VaultError;

verus! {

/// The last hedge a user placed.
#[derive(Clone, Copy, Debug, PartialEq, Eq, Structural)]
pub struct HedgingRecord {
    pub user: Address,
    pub amount: u64,
    pub timestamp: u64,
    pub is_processing: bool,
}

/// Emitted when a hedge completes.
#[derive(Clone, Copy, Debug, PartialEq, Eq, Structural)]
pub struct HedgingCompletedEvent {
    pub user: Address,
    pub amount: u64,
    pub timestamp: u64,
}

/// Why a hedge is refused, in the order the checks are made.
pub open spec fn hedging_check(gate: SystemState, amount: u64, user_balance: u64) -> Result<(), VaultError> {
    if gate.is_paused {
        Err(VaultError::SystemPaused)
    } else if amount == 0 {
        Err(VaultError::InvalidAmount)
    } else if user_balance < amount {
        Err(VaultError::InsufficientBalance)
    } else {
        Ok(())
    }
}

/// Places a hedge of `amount` for `user`, who holds `user_balance`, at `now`.
/// On success the caller moves `amount` into the hedging vault and stores the
/// record, which is complete at once.
pub fn manage_hedging(gate: &SystemState, user: Address, amount: u64, user_balance: u64, now: u64) -> (r: Result<
    (HedgingRecord, HedgingCompletedEvent),
    VaultError,
>)
    ensures
        r is Ok <==> hedging_check(*gate, amount, user_balance) is Ok,
        r matches Err(e) ==> hedging_check(*gate, amount, user_balance) == Err::<(), VaultError>(e),
        r matches Ok((rec, ev)) ==> rec == (HedgingRecord {
            user,
            amount,
            timestamp: now,
            is_processing: false,
        }) && ev == (HedgingCompletedEvent { user, amount, timestamp: now }),
{
    gate.require_active()?;
    if amount == 0 {
        return Err(VaultError::InvalidAmount);
    }
    if user_balance < amount {
        return Err(VaultError::InsufficientBalance);
    }
    let record = HedgingRecord { user, amount, timestamp: now, is_processing: false };
    Ok((record, HedgingCompletedEvent { user, amount, timestamp: now }))
}

} // verus!
