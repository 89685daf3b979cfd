//! Freezing an auction.
use vstd::prelude::*;
use crate::error::AuctionContractError;
use crate::pda::{
    auction_root_state_seeds, auction_root_state_seeds_spec, contract_bank_seeds,
    contract_bank_seeds_spec, verify_spec, SignerPda,
};
use crate::processor::{and_then, rejection, unless};
use crate::pubkey::{AuctionId, Pubkey};
use crate::state::{AuctionRootState, AuctionStatus, ContractBankState};
use crate::utils::AccountInfo;

verus! {

/// The records that the administrator's operations on an auction work on.
#[derive(Debug)]
pub struct AuctionAdminAccounts {
    pub contract_admin_account: AccountInfo,
    pub auction_root_state_account: AccountInfo,
    pub auction_root_state: AuctionRootState,
    pub contract_bank_account: AccountInfo,
    pub contract_bank_state: ContractBankState,
}

/// The checks on who calls and on where the records sit: the administrator
/// of the contract has signed, and the records of the contract's bank and of
/// the auction sit where they belong.
pub open spec fn admin_access_rejection(
    program_id: Pubkey,
    accounts: AuctionAdminAccounts,
    auction_id: AuctionId,
) -> Option<AuctionContractError> {
    and_then(
        unless(accounts.contract_admin_account.is_signer, AuctionContractError::MissingSignature),
        and_then(
            rejection(
                verify_spec(
                    contract_bank_seeds_spec(),
                    program_id,
                    program_id,
                    accounts.contract_bank_account,
                ),
            ),
            and_then(
                rejection(
                    verify_spec(
                        auction_root_state_seeds_spec(auction_id),
                        program_id,
                        program_id,
                        accounts.auction_root_state_account,
                    ),
                ),
                unless(
                    accounts.contract_admin_account.key
                        == accounts.contract_bank_state.contract_admin,
                    AuctionContractError::ContractAdminMismatch,
                ),
            ),
        ),
    )
}

/// Checks who calls and where the records sit.
pub fn check_admin_access(
    program_id: &Pubkey,
    accounts: &AuctionAdminAccounts,
    auction_id: &AuctionId,
) -> (result: Result<(), AuctionContractError>)
    ensures
        rejection(result) == admin_access_rejection(*program_id, *accounts, *auction_id),
{
    if !accounts.contract_admin_account.is_signer {
        return Err(AuctionContractError::MissingSignature);
    }
    SignerPda::check_owner(
        &contract_bank_seeds(),
        program_id,
        program_id,
        &accounts.contract_bank_account,
    )?;
    SignerPda::check_owner(
        &auction_root_state_seeds(auction_id),
        program_id,
        program_id,
        &accounts.auction_root_state_account,
    )?;
    if accounts.contract_admin_account.key != accounts.contract_bank_state.contract_admin {
        return Err(AuctionContractError::ContractAdminMismatch);
    }
    Ok(())
}

/// Why an auction cannot be frozen, if it cannot: a finished auction is not
/// frozen any more.
pub open spec fn freeze_rejection(
    program_id: Pubkey,
    accounts: AuctionAdminAccounts,
    auction_id: AuctionId,
) -> Option<AuctionContractError> {
    and_then(
        admin_access_rejection(program_id, accounts, auction_id),
        unless(
            !accounts.auction_root_state.status.is_finished,
            AuctionContractError::StatusError,
        ),
    )
}

/// The records with the auction frozen or not.
pub open spec fn with_frozen(accounts: AuctionAdminAccounts, is_frozen: bool) -> AuctionAdminAccounts {
    AuctionAdminAccounts {
        auction_root_state: AuctionRootState {
            status: AuctionStatus { is_frozen, ..accounts.auction_root_state.status },
            ..accounts.auction_root_state
        },
        ..accounts
    }
}

/// What freezing does: a rejected call changes nothing; an accepted one
/// leaves the auction frozen, and nothing else changes.
pub open spec fn freeze_fits(
    program_id: Pubkey,
    before: AuctionAdminAccounts,
    after: AuctionAdminAccounts,
    auction_id: AuctionId,
    result: Result<(), AuctionContractError>,
) -> bool {
    match freeze_rejection(program_id, before, auction_id) {
        Some(error) => result == Err::<(), AuctionContractError>(error) && after == before,
        None => result is Ok && after == with_frozen(before, true),
    }
}

/// Freezes an auction, so that it takes no bids. Only the administrator of
/// the contract may do so.
pub fn freeze_auction(
    program_id: &Pubkey,
    accounts: &mut AuctionAdminAccounts,
    auction_id: AuctionId,
) -> (result: Result<(), AuctionContractError>)
    ensures
        freeze_fits(*program_id, *old(accounts), *final(accounts), auction_id, result),
{
    check_admin_access(program_id, accounts, &auction_id)?;
    if accounts.auction_root_state.status.is_finished {
        return Err(AuctionContractError::StatusError);
    }
    accounts.auction_root_state.status.is_frozen = true;
    Ok(())
}

} // verus!
