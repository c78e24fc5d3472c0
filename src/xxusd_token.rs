use vstd::prelude::*;
use crate::address::Address;
use crate::error::VaultError;

verus! {

/// Most decimals the synthetic token may be created with.
pub const MAX_DECIMALS: u8 = 18;

/// Emitted when the synthetic token's mint is created.
#[derive(Clone, Copy, Debug, PartialEq, Eq, Structural)]
pub struct MintInitialized {
    pub mint: Address,
    pub decimals: u8,
    pub authority: Address,
}

/// Emitted when units are minted.
#[derive(Clone, Copy, Debug, PartialEq, Eq, Structural)]
pub struct TokensMinted {
    pub mint: Address,
    pub to: Address,
    pub amount: u64,
}

/// Emitted when units are burned.
#[derive(Clone, Copy, Debug, PartialEq, Eq, Structural)]
pub struct TokensBurned {
    pub mint: Address,
    pub from: Address,
    pub amount: u64,
}

/// Emitted when units are transferred.
#[derive(Clone, Copy, Debug, PartialEq, Eq, Structural)]
pub struct TokensTransferred {
    pub mint: Address,
    pub from: Address,
    pub to: Address,
    pub amount: u64,
}

/// Checks the creation of the token's mint with `decimals` decimals.
pub fn initialize(token_mint: Address, decimals: u8, authority: Address) -> (r: Result<MintInitialized, VaultError>)
    ensures
        decimals > MAX_DECIMALS ==> r == Err::<MintInitialized, VaultError>(VaultError::InvalidDecimals),
        decimals <= MAX_DECIMALS ==> r == Ok::<MintInitialized, VaultError>(
            MintInitialized { mint: token_mint, decimals, authority },
        ),
{
    if decimals > MAX_DECIMALS {
        return Err(VaultError::InvalidDecimals);
    }
    Ok(MintInitialized { mint: token_mint, decimals, authority })
}

/// Checks a mint of `amount` units to `to`: the amount must be positive.
pub fn mint(token_mint: Address, to: Address, amount: u64) -> (r: Result<TokensMinted, VaultError>)
    ensures
        amount == 0 ==> r == Err::<TokensMinted, VaultError>(VaultError::InvalidAmount),
        amount > 0 ==> r == Ok::<TokensMinted, VaultError>(TokensMinted { mint: token_mint, to, amount }),
{
    if amount == 0 {
        return Err(VaultError::InvalidAmount);
    }
    Ok(TokensMinted { mint: token_mint, to, amount })
}

/// Checks a burn of `amount` units from `from`, which holds `from_balance`.
pub fn burn(token_mint: Address, from: Address, amount: u64, from_balance: u64) -> (r: Result<
    TokensBurned,
    VaultError,
>)
    ensures
        amount == 0 ==> r == Err::<TokensBurned, VaultError>(VaultError::InvalidAmount),
        amount > 0 && from_balance < amount ==> r == Err::<TokensBurned, VaultError>(
            VaultError::InsufficientBalance,
        ),
        amount > 0 && from_balance >= amount ==> r == Ok::<TokensBurned, VaultError>(
            TokensBurned { mint: token_mint, from, amount },
        ),
{
    if amount == 0 {
        return Err(VaultError::InvalidAmount);
    }
    if from_balance < amount {
        return Err(VaultError::InsufficientBalance);
    }
    Ok(TokensBurned { mint: token_mint, from, amount })
}

/// Checks a transfer of `amount` units from `from` to `to`.
pub fn transfer(token_mint: Address, from: Address, to: Address, amount: u64) -> (r: Result<
    TokensTransferred,
    VaultError,
>)
    ensures
        amount == 0 ==> r == Err::<TokensTransferred, VaultError>(VaultError::InvalidAmount),
        amount > 0 ==> r == Ok::<TokensTransferred, VaultError>(TokensTransferred { mint: token_mint, from, to, amount }),
{
    if amount == 0 {
        return Err(VaultError::InvalidAmount);
    }
    Ok(TokensTransferred { mint: token_mint, from, to, amount })
}

} // verus!
