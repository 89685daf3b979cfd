//! Setting the contract up.
use vstd::prelude::*;
use crate::error::AuctionContractError;
use crate::pda::{
    auction_pool_seeds, auction_pool_seeds_spec, contract_bank_seeds, contract_bank_seeds_spec,
    is_program_address, SignerPda,
};
use crate::processor::{and_then, unless};
use crate::pubkey::{Pubkey, SYSTEM_PROGRAM_ID};
use crate::state::{AuctionPool, ContractBankState, MAX_AUCTION_NUM};
use crate::utils::{assert_system_program, AccountInfo};

verus! {

/// The records that setting the contract up works on.
#[derive(Clone, Copy, Debug)]
pub struct InitializeContractAccounts {
    pub contract_admin_account: AccountInfo,
    pub contract_bank_account: AccountInfo,
    pub auction_pool_account: AccountInfo,
    pub system_program: AccountInfo,
}

/// Why the contract cannot be set up, if it cannot.
pub open spec fn initialize_contract_rejection(
    program_id: Pubkey,
    accounts: InitializeContractAccounts,
    initial_auction_pool_len: u32,
) -> Option<AuctionContractError> {
    and_then(
        unless(accounts.contract_admin_account.is_signer, AuctionContractError::MissingSignature),
        and_then(
            unless(
                accounts.system_program.key.bytes == SYSTEM_PROGRAM_ID,
                AuctionContractError::InvalidProgramAddress,
            ),
            and_then(
                unless(
                    is_program_address(
                        contract_bank_seeds_spec(),
                        program_id,
                        accounts.contract_bank_account.key,
                    ) && is_program_address(
                        auction_pool_seeds_spec(),
                        program_id,
                        accounts.auction_pool_account.key,
                    ),
                    AuctionContractError::InvalidSeeds,
                ),
                and_then(
                    unless(
                        accounts.contract_bank_account.data_is_empty
                            && accounts.auction_pool_account.data_is_empty,
                        AuctionContractError::AccountAlreadyInitialized,
                    ),
                    unless(
                        initial_auction_pool_len <= MAX_AUCTION_NUM,
                        AuctionContractError::InvalidPoolCapacity,
                    ),
                ),
            ),
        ),
    )
}

/// What setting the contract up gives: who signs becomes the administrator,
/// and the registry is empty.
pub open spec fn initialize_contract_fits(
    program_id: Pubkey,
    accounts: InitializeContractAccounts,
    withdraw_authority: Pubkey,
    initial_auction_pool_len: u32,
    result: Result<(ContractBankState, AuctionPool), AuctionContractError>,
) -> bool {
    match initialize_contract_rejection(program_id, accounts, initial_auction_pool_len) {
        Some(error) => result == Err::<(ContractBankState, AuctionPool), AuctionContractError>(
            error,
        ),
        None => {
            &&& result matches Ok((contract_bank_state, auction_pool))
            &&& contract_bank_state == (ContractBankState {
                contract_admin: accounts.contract_admin_account.key,
                withdraw_authority,
            })
            &&& auction_pool.max_len == initial_auction_pool_len
            &&& auction_pool.pool@.len() == 0
            &&& auction_pool.well_formed()
        },
    }
}

/// Sets the contract up: gives the records of its bank and of its registry,
/// which are to be created.
pub fn initialize_contract(
    program_id: &Pubkey,
    accounts: &InitializeContractAccounts,
    withdraw_authority: Pubkey,
    initial_auction_pool_len: u32,
) -> (result: Result<(ContractBankState, AuctionPool), AuctionContractError>)
    ensures
        initialize_contract_fits(
            *program_id,
            *accounts,
            withdraw_authority,
            initial_auction_pool_len,
            result,
        ),
{
    if !accounts.contract_admin_account.is_signer {
        return Err(AuctionContractError::MissingSignature);
    }
    assert_system_program(&accounts.system_program.key)?;
    if SignerPda::new_checked(contract_bank_seeds(), program_id, &accounts.contract_bank_account)
        .is_err() {
        return Err(AuctionContractError::InvalidSeeds);
    }
    if SignerPda::new_checked(auction_pool_seeds(), program_id, &accounts.auction_pool_account)
        .is_err() {
        return Err(AuctionContractError::InvalidSeeds);
    }
    if !accounts.contract_bank_account.data_is_empty
        || !accounts.auction_pool_account.data_is_empty {
        return Err(AuctionContractError::AccountAlreadyInitialized);
    }
    if initial_auction_pool_len > MAX_AUCTION_NUM {
        return Err(AuctionContractError::InvalidPoolCapacity);
    }
    Ok(
        (
            ContractBankState {
                contract_admin: accounts.contract_admin_account.key,
                withdraw_authority,
            },
            AuctionPool::new(initial_auction_pool_len),
        ),
    )
}

} // verus!
