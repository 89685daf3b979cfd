//! Balances of native value, and the checks shared by the operations.
use vstd::prelude::*;
use crate::error::AuctionContractError;
use crate::pubkey::{same_bytes, Pubkey, META_ID, RENT_SYSVAR_ID, SYSTEM_PROGRAM_ID, TOKEN_ID};
use crate::state::{AuctionCycleState, AuctionRootState, UnixTimestamp};

verus! {

/// What an operation sees of a record besides its contents: where it sits,
/// which service holds it, the native value in it, and whether the party it
/// belongs to has signed the operation.
#[derive(Clone, Copy, Debug, PartialEq, Eq)]
pub struct AccountInfo {
    pub key: Pubkey,
    pub owner: Pubkey,
    pub lamports: u64,
    pub is_signer: bool,
    pub data_is_empty: bool,
}

/// What the ledger tells an operation about the moment at which it runs.
#[derive(Clone, Copy, Debug, PartialEq, Eq, Structural)]
pub struct Sysvars {
    /// The time.
    pub unix_timestamp: UnixTimestamp,
    /// The deposit that keeps a record without contents alive.
    pub rent_exempt_minimum: u64,
}

/// The operations that depend on the time.
#[derive(Clone, Copy, Debug, PartialEq, Eq, Structural)]
pub enum AuctionInteraction {
    Bid,
    CloseCycle,
}

/// Takes `amount` out of the account, unless it holds less.
pub fn checked_debit_account(account: &mut AccountInfo, amount: u64) -> (result: Result<
    (),
    AuctionContractError,
>)
    ensures
        result == if old(account).lamports >= amount {
            Ok::<(), AuctionContractError>(())
        } else {
            Err(AuctionContractError::ArithmeticError)
        },
        *final(account) == if result is Ok {
            AccountInfo { lamports: (old(account).lamports - amount) as u64, ..*old(account) }
        } else {
            *old(account)
        },
{
    match account.lamports.checked_sub(amount) {
        Some(rest) => {
            account.lamports = rest;
            Ok(())
        },
        None => Err(AuctionContractError::ArithmeticError),
    }
}

/// Puts `amount` into the account, unless its balance would leave `u64`.
pub fn checked_credit_account(account: &mut AccountInfo, amount: u64) -> (result: Result<
    (),
    AuctionContractError,
>)
    ensures
        result == if old(account).lamports + amount <= u64::MAX {
            Ok::<(), AuctionContractError>(())
        } else {
            Err(AuctionContractError::ArithmeticError)
        },
        *final(account) == if result is Ok {
            AccountInfo { lamports: (old(account).lamports + amount) as u64, ..*old(account) }
        } else {
            *old(account)
        },
{
    match account.lamports.checked_add(amount) {
        Some(sum) => {
            account.lamports = sum;
            Ok(())
        },
        None => Err(AuctionContractError::ArithmeticError),
    }
}

/// Whether `amount` can move from one balance to another.
pub open spec fn can_transfer(from: u64, to: u64, amount: u64) -> bool {
    from >= amount && to + amount <= u64::MAX
}

/// Moves `amount` from one account to another: what leaves the first enters
/// the second. Nothing moves when the first holds less than `amount` or the
/// balance of the second would leave `u64`.
pub fn transfer(from: &mut AccountInfo, to: &mut AccountInfo, amount: u64) -> (result: Result<
    (),
    AuctionContractError,
>)
    ensures
        result == if can_transfer(old(from).lamports, old(to).lamports, amount) {
            Ok::<(), AuctionContractError>(())
        } else {
            Err(AuctionContractError::ArithmeticError)
        },
        *final(from) == if result is Ok {
            AccountInfo { lamports: (old(from).lamports - amount) as u64, ..*old(from) }
        } else {
            *old(from)
        },
        *final(to) == if result is Ok {
            AccountInfo { lamports: (old(to).lamports + amount) as u64, ..*old(to) }
        } else {
            *old(to)
        },
        final(from).lamports + final(to).lamports == old(from).lamports + old(to).lamports,
{
    if from.lamports < amount || to.lamports > u64::MAX - amount {
        return Err(AuctionContractError::ArithmeticError);
    }
    from.lamports = from.lamports - amount;
    to.lamports = to.lamports + amount;
    Ok(())
}

/// Whether the auction is open to the interaction at the given time: it is
/// neither frozen nor finished; a bid comes before the end of the cycle, and
/// the cycle is closed at its end or later.
pub open spec fn status_allows(
    root_state: AuctionRootState,
    cycle_state: AuctionCycleState,
    current_timestamp: UnixTimestamp,
    interaction: AuctionInteraction,
) -> bool {
    &&& !root_state.status.is_frozen
    &&& !root_state.status.is_finished
    &&& match interaction {
        AuctionInteraction::Bid => current_timestamp < cycle_state.end_time,
        AuctionInteraction::CloseCycle => current_timestamp >= cycle_state.end_time,
    }
}

/// Rejects an interaction to which the auction is not open.
pub fn check_status(
    root_state: &AuctionRootState,
    cycle_state: &AuctionCycleState,
    current_timestamp: UnixTimestamp,
    interaction: AuctionInteraction,
) -> (result: Result<(), AuctionContractError>)
    ensures
        result == if status_allows(*root_state, *cycle_state, current_timestamp, interaction) {
            Ok::<(), AuctionContractError>(())
        } else {
            Err(AuctionContractError::StatusError)
        },
{
    if root_state.status.is_frozen || root_state.status.is_finished {
        return Err(AuctionContractError::StatusError);
    }
    let in_time = match interaction {
        AuctionInteraction::Bid => current_timestamp < cycle_state.end_time,
        AuctionInteraction::CloseCycle => current_timestamp >= cycle_state.end_time,
    };
    if in_time {
        Ok(())
    } else {
        Err(AuctionContractError::StatusError)
    }
}

/// Whether the open cycle is the last of the auction.
pub fn is_last_auction_cycle(root_state: &AuctionRootState) -> (last: bool)
    ensures
        last == root_state.is_last_auction_cycle(),
{
    match root_state.auction_config.number_of_cycles {
        Some(number_of_cycles) => root_state.status.current_auction_cycle >= number_of_cycles,
        None => false,
    }
}

/// Rejects an address that is not the expected one.
pub fn assert_program(key: &Pubkey, expected: &[u8; 32]) -> (result: Result<
    (),
    AuctionContractError,
>)
    ensures
        result == if key.bytes == *expected {
            Ok::<(), AuctionContractError>(())
        } else {
            Err(AuctionContractError::InvalidProgramAddress)
        },
{
    if same_bytes(&key.bytes, expected) {
        Ok(())
    } else {
        Err(AuctionContractError::InvalidProgramAddress)
    }
}

/// Rejects an address that is not that of the record with the price of
/// storage.
pub fn assert_rent_program(key: &Pubkey) -> (result: Result<(), AuctionContractError>)
    ensures
        result == if key.bytes == RENT_SYSVAR_ID {
            Ok::<(), AuctionContractError>(())
        } else {
            Err(AuctionContractError::InvalidProgramAddress)
        },
{
    assert_program(key, &RENT_SYSVAR_ID)
}

/// Rejects an address that is not that of the service that creates records.
pub fn assert_system_program(key: &Pubkey) -> (result: Result<(), AuctionContractError>)
    ensures
        result == if key.bytes == SYSTEM_PROGRAM_ID {
            Ok::<(), AuctionContractError>(())
        } else {
            Err(AuctionContractError::InvalidProgramAddress)
        },
{
    assert_program(key, &SYSTEM_PROGRAM_ID)
}

/// Rejects an address that is not that of the service that keeps tokens.
pub fn assert_token_program(key: &Pubkey) -> (result: Result<(), AuctionContractError>)
    ensures
        result == if key.bytes == TOKEN_ID {
            Ok::<(), AuctionContractError>(())
        } else {
            Err(AuctionContractError::InvalidProgramAddress)
        },
{
    assert_program(key, &TOKEN_ID)
}

/// Rejects an address that is not that of the service that keeps the names
/// and editions of collectibles.
pub fn assert_metaplex_program(key: &Pubkey) -> (result: Result<(), AuctionContractError>)
    ensures
        result == if key.bytes == META_ID {
            Ok::<(), AuctionContractError>(())
        } else {
            Err(AuctionContractError::InvalidProgramAddress)
        },
{
    assert_program(key, &META_ID)
}

} // verus!
