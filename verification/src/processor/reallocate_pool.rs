//! Resizing and removing the registry.
use vstd::prelude::*;
use crate::error::AuctionContractError;
use crate::pda::{
    auction_pool_seeds, auction_pool_seeds_spec, contract_bank_seeds, contract_bank_seeds_spec,
    verify_spec, SignerPda,
};
use crate::processor::{and_then, rejection, unless};
use crate::pubkey::Pubkey;
use crate::state::{AuctionPool, ContractBankState, MAX_AUCTION_NUM};
use crate::utils::{can_transfer, AccountInfo};

verus! {

/// The records that the operations on the registry work on.
#[derive(Debug)]
pub struct PoolAccounts {
    pub contract_admin_account: AccountInfo,
    pub contract_bank_account: AccountInfo,
    pub contract_bank_state: ContractBankState,
    pub auction_pool_account: AccountInfo,
    pub auction_pool: AuctionPool,
}

/// The checks on who calls: the administrator has signed, and the bank of
/// the contract and the registry sit where they belong.
pub open spec fn pool_access_rejection(program_id: Pubkey, accounts: PoolAccounts) -> Option<
    AuctionContractError,
> {
    and_then(
        unless(accounts.contract_admin_account.is_signer, AuctionContractError::MissingSignature),
        and_then(
            rejection(
                verify_spec(
                    contract_bank_seeds_spec(),
                    program_id,
                    program_id,
                    accounts.contract_bank_account,
                ),
            ),
            and_then(
                rejection(
                    verify_spec(
                        auction_pool_seeds_spec(),
                        program_id,
                        program_id,
                        accounts.auction_pool_account,
                    ),
                ),
                unless(
                    accounts.contract_admin_account.key
                        == accounts.contract_bank_state.contract_admin,
                    AuctionContractError::ContractAdminMismatch,
                ),
            ),
        ),
    )
}

/// Checks who calls.
fn check_pool_access(program_id: &Pubkey, accounts: &PoolAccounts) -> (result: Result<
    (),
    AuctionContractError,
>)
    ensures
        rejection(result) == pool_access_rejection(*program_id, *accounts),
{
    if !accounts.contract_admin_account.is_signer {
        return Err(AuctionContractError::MissingSignature);
    }
    SignerPda::check_owner(
        &contract_bank_seeds(),
        program_id,
        program_id,
        &accounts.contract_bank_account,
    )?;
    SignerPda::check_owner(
        &auction_pool_seeds(),
        program_id,
        program_id,
        &accounts.auction_pool_account,
    )?;
    if accounts.contract_admin_account.key != accounts.contract_bank_state.contract_admin {
        return Err(AuctionContractError::ContractAdminMismatch);
    }
    Ok(())
}

/// Why the registry cannot be resized, if it cannot: the new capacity is
/// too small for the auctions it holds, or exceeds `MAX_AUCTION_NUM`.
pub open spec fn reallocate_pool_rejection(
    program_id: Pubkey,
    accounts: PoolAccounts,
    new_max_auction_num: u32,
) -> Option<AuctionContractError> {
    and_then(
        pool_access_rejection(program_id, accounts),
        unless(
            accounts.auction_pool.pool@.len() <= new_max_auction_num <= MAX_AUCTION_NUM,
            AuctionContractError::InvalidPoolCapacity,
        ),
    )
}

/// What resizing does: a rejected call changes nothing; an accepted one
/// sets the capacity and keeps the auctions.
pub open spec fn reallocate_pool_fits(
    program_id: Pubkey,
    before: PoolAccounts,
    after: PoolAccounts,
    new_max_auction_num: u32,
    result: Result<(), AuctionContractError>,
) -> bool {
    match reallocate_pool_rejection(program_id, before, new_max_auction_num) {
        Some(error) => result == Err::<(), AuctionContractError>(error) && after == before,
        None => {
            &&& result is Ok
            &&& after == (PoolAccounts {
                auction_pool: AuctionPool {
                    max_len: new_max_auction_num,
                    ..before.auction_pool
                },
                ..before
            })
            &&& before.auction_pool.well_formed() ==> after.auction_pool.well_formed()
        },
    }
}

/// Gives the registry room for `new_max_auction_num` auctions.
pub fn reallocate_pool(
    program_id: &Pubkey,
    accounts: &mut PoolAccounts,
    new_max_auction_num: u32,
) -> (result: Result<(), AuctionContractError>)
    ensures
        reallocate_pool_fits(
            *program_id,
            *old(accounts),
            *final(accounts),
            new_max_auction_num,
            result,
        ),
{
    check_pool_access(program_id, accounts)?;
    if accounts.auction_pool.pool.len() > new_max_auction_num as usize || new_max_auction_num
        > MAX_AUCTION_NUM {
        return Err(AuctionContractError::InvalidPoolCapacity);
    }
    accounts.auction_pool.max_len = new_max_auction_num;
    Ok(())
}

/// Why the registry cannot be removed, if it cannot: it holds auctions.
pub open spec fn deallocate_pool_rejection(program_id: Pubkey, accounts: PoolAccounts) -> Option<
    AuctionContractError,
> {
    and_then(
        pool_access_rejection(program_id, accounts),
        and_then(
            unless(
                accounts.auction_pool.pool@.len() == 0,
                AuctionContractError::AuctionPoolNotEmpty,
            ),
            unless(
                can_transfer(
                    accounts.auction_pool_account.lamports,
                    accounts.contract_admin_account.lamports,
                    accounts.auction_pool_account.lamports,
                ),
                AuctionContractError::ArithmeticError,
            ),
        ),
    )
}

/// What removing the registry does: a rejected call changes nothing; an
/// accepted one empties the record of the registry into the account of the
/// administrator and leaves the registry without room.
pub open spec fn deallocate_pool_fits(
    program_id: Pubkey,
    before: PoolAccounts,
    after: PoolAccounts,
    result: Result<(), AuctionContractError>,
) -> bool {
    match deallocate_pool_rejection(program_id, before) {
        Some(error) => result == Err::<(), AuctionContractError>(error) && after == before,
        None => result is Ok && after == (PoolAccounts {
            auction_pool: AuctionPool { max_len: 0, ..before.auction_pool },
            auction_pool_account: AccountInfo { lamports: 0, ..before.auction_pool_account },
            contract_admin_account: AccountInfo {
                lamports: (before.contract_admin_account.lamports
                    + before.auction_pool_account.lamports) as u64,
                ..before.contract_admin_account
            },
            ..before
        }),
    }
}

/// Removes the registry, once it holds no auction.
pub fn deallocate_pool(program_id: &Pubkey, accounts: &mut PoolAccounts) -> (result: Result<
    (),
    AuctionContractError,
>)
    ensures
        deallocate_pool_fits(*program_id, *old(accounts), *final(accounts), result),
{
    check_pool_access(program_id, accounts)?;
    if accounts.auction_pool.pool.len() != 0 {
        return Err(AuctionContractError::AuctionPoolNotEmpty);
    }
    crate::processor::deallocate_state(
        &mut accounts.auction_pool_account,
        &mut accounts.contract_admin_account,
    )?;
    accounts.auction_pool.max_len = 0;
    Ok(())
}

} // verus!
