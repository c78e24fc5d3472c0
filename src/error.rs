use vstd::prelude::*;

verus! {

/// Every way an operation of the vault can fail. An error is terminal for the
/// operation that raised it: no state has been changed.
#[derive(Clone, Copy, Debug, PartialEq, Eq, Structural)]
pub enum VaultError {
    /// The caller is not the admin or owner the operation requires.
    Unauthorized,
    /// The subsystem is paused.
    SystemPaused,
    /// A pause was asked for while already paused.
    AlreadyPaused,
    /// A resume was asked for while not paused.
    NotPaused,
    /// An amount is zero where a positive one is required.
    InvalidAmount,
    /// The deposited asset is not the configured collateral.
    InvalidAssetType,
    /// Lock parameters that are zero or do not fit the amount.
    InvalidLockParameters,
    /// A product price outside its allowed range.
    InvalidPrice,
    /// An APY that is zero.
    InvalidApy,
    /// A token mint with more decimals than allowed.
    InvalidDecimals,
    /// Checked arithmetic overflowed, underflowed or divided by zero.
    CalculationError,
    /// A balance is smaller than the amount to move.
    InsufficientBalance,
    /// A mint above the configured minting limit.
    MintingLimitExceeded,
    /// The asset and data kind name no configured feed.
    InvalidAsset,
    /// The feed configuration handed to the cache is malformed.
    InvalidFeedKey,
    /// The price feed produced no value.
    FeedUnavailable,
    /// The feed value does not fit the target numeric type.
    PriceConversionFailed,
    /// The feed produced a price of zero.
    ZeroPrice,
    /// The lock period has not ended yet.
    LockPeriodNotEnded,
    /// The lock period has already ended.
    LockPeriodEnded,
    /// The redemption window has closed.
    RedemptionPeriodEnded,
    /// A release already happened on this calendar day.
    AlreadyReleasedToday,
    /// Nothing is releasable right now.
    NoAmountToRelease,
    /// The redemption request was already executed.
    AlreadyProcessed,
    /// An unprocessed redemption request already exists for the user.
    RedemptionPending,
}

} // verus!
