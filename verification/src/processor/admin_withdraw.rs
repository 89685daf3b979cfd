//! Withdrawing from the bank of the contract.
use vstd::prelude::*;
use crate::error::AuctionContractError;
use crate::pda::{contract_bank_seeds, contract_bank_seeds_spec, verify_spec, SignerPda};
use crate::processor::{and_then, rejection, unless};
use crate::pubkey::Pubkey;
use crate::state::ContractBankState;
use crate::utils::{can_transfer, AccountInfo};

verus! {

/// The records that withdrawing from the bank of the contract works on.
#[derive(Clone, Copy, Debug)]
pub struct AdminWithdrawAccounts {
    pub withdraw_authority_account: AccountInfo,
    pub contract_bank_account: AccountInfo,
    pub contract_bank_state: ContractBankState,
}

/// The checks on who calls: whoever may withdraw has signed, and the bank of
/// the contract sits where it belongs.
pub open spec fn withdraw_access_rejection(
    program_id: Pubkey,
    accounts: AdminWithdrawAccounts,
) -> Option<AuctionContractError> {
    and_then(
        unless(
            accounts.withdraw_authority_account.is_signer,
            AuctionContractError::MissingSignature,
        ),
        and_then(
            rejection(
                verify_spec(
                    contract_bank_seeds_spec(),
                    program_id,
                    program_id,
                    accounts.contract_bank_account,
                ),
            ),
            unless(
                accounts.withdraw_authority_account.key
                    == accounts.contract_bank_state.withdraw_authority,
                AuctionContractError::WithdrawAuthorityMismatch,
            ),
        ),
    )
}

/// Checks who calls.
fn check_withdraw_access(program_id: &Pubkey, accounts: &AdminWithdrawAccounts) -> (result: Result<
    (),
    AuctionContractError,
>)
    ensures
        rejection(result) == withdraw_access_rejection(*program_id, *accounts),
{
    if !accounts.withdraw_authority_account.is_signer {
        return Err(AuctionContractError::MissingSignature);
    }
    SignerPda::check_owner(
        &contract_bank_seeds(),
        program_id,
        program_id,
        &accounts.contract_bank_account,
    )?;
    if accounts.withdraw_authority_account.key != accounts.contract_bank_state.withdraw_authority {
        return Err(AuctionContractError::WithdrawAuthorityMismatch);
    }
    Ok(())
}

/// Why a withdrawal is rejected, if it is.
pub open spec fn admin_withdraw_rejection(
    program_id: Pubkey,
    accounts: AdminWithdrawAccounts,
    amount: u64,
) -> Option<AuctionContractError> {
    and_then(
        withdraw_access_rejection(program_id, accounts),
        unless(
            can_transfer(
                accounts.contract_bank_account.lamports,
                accounts.withdraw_authority_account.lamports,
                amount,
            ),
            AuctionContractError::ArithmeticError,
        ),
    )
}

/// What a withdrawal does: a rejected one changes nothing; an accepted one
/// moves exactly `amount` from the bank of the contract to who withdraws.
pub open spec fn admin_withdraw_fits(
    program_id: Pubkey,
    before: AdminWithdrawAccounts,
    after: AdminWithdrawAccounts,
    amount: u64,
    result: Result<(), AuctionContractError>,
) -> bool {
    match admin_withdraw_rejection(program_id, before, amount) {
        Some(error) => result == Err::<(), AuctionContractError>(error) && after == before,
        None => result is Ok && after == (AdminWithdrawAccounts {
            contract_bank_account: AccountInfo {
                lamports: (before.contract_bank_account.lamports - amount) as u64,
                ..before.contract_bank_account
            },
            withdraw_authority_account: AccountInfo {
                lamports: (before.withdraw_authority_account.lamports + amount) as u64,
                ..before.withdraw_authority_account
            },
            ..before
        }),
    }
}

/// Pays `amount` out of the bank of the contract to who may withdraw.
pub fn process_admin_withdraw(
    program_id: &Pubkey,
    accounts: &mut AdminWithdrawAccounts,
    amount: u64,
) -> (result: Result<(), AuctionContractError>)
    ensures
        admin_withdraw_fits(*program_id, *old(accounts), *final(accounts), amount, result),
{
    check_withdraw_access(program_id, accounts)?;
    crate::utils::transfer(
        &mut accounts.contract_bank_account,
        &mut accounts.withdraw_authority_account,
        amount,
    )
}

/// What a reassignment does: a rejected one changes nothing; an accepted
/// one names who may withdraw from now on.
pub open spec fn admin_withdraw_reassign_fits(
    program_id: Pubkey,
    before: AdminWithdrawAccounts,
    after: AdminWithdrawAccounts,
    new_withdraw_authority: Pubkey,
    result: Result<(), AuctionContractError>,
) -> bool {
    match withdraw_access_rejection(program_id, before) {
        Some(error) => result == Err::<(), AuctionContractError>(error) && after == before,
        None => result is Ok && after == (AdminWithdrawAccounts {
            contract_bank_state: ContractBankState {
                withdraw_authority: new_withdraw_authority,
                ..before.contract_bank_state
            },
            ..before
        }),
    }
}

/// Names who may withdraw from the bank of the contract. Only who may
/// withdraw now can do so.
pub fn process_admin_withdraw_reassign(
    program_id: &Pubkey,
    accounts: &mut AdminWithdrawAccounts,
    new_withdraw_authority: Pubkey,
) -> (result: Result<(), AuctionContractError>)
    ensures
        admin_withdraw_reassign_fits(
            *program_id,
            *old(accounts),
            *final(accounts),
            new_withdraw_authority,
            result,
        ),
{
    check_withdraw_access(program_id, accounts)?;
    accounts.contract_bank_state.withdraw_authority = new_withdraw_authority;
    Ok(())
}

} // verus!
