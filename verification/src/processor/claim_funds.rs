//! Claiming what an auction has earned.
use vstd::prelude::*;
use crate::error::AuctionContractError;
use crate::pda::{
    auction_bank_seeds, auction_bank_seeds_spec, auction_root_state_seeds,
    auction_root_state_seeds_spec, contract_bank_seeds, contract_bank_seeds_spec, verify_spec,
    SignerPda,
};
use crate::processor::{and_then, rejection, unless};
use crate::pubkey::{AuctionId, Pubkey};
use crate::state::{AuctionRootState, ContractBankState};
use crate::utils::{can_transfer, AccountInfo};

verus! {

/// The records that claiming funds works on.
#[derive(Debug)]
pub struct ClaimFundsAccounts {
    /// Who claims: the owner of the auction or the administrator of the
    /// contract.
    pub payer_account: AccountInfo,
    pub auction_bank_account: AccountInfo,
    pub auction_root_state_account: AccountInfo,
    pub auction_root_state: AuctionRootState,
    pub contract_bank_account: AccountInfo,
    pub contract_bank_state: ContractBankState,
}

/// Whether the owner of the auction claims.
pub open spec fn owner_claims(accounts: ClaimFundsAccounts) -> bool {
    accounts.payer_account.key == accounts.auction_root_state.auction_owner
}

/// Whether the administrator of the contract claims.
pub open spec fn admin_claims(accounts: ClaimFundsAccounts) -> bool {
    !owner_claims(accounts) && accounts.payer_account.key
        == accounts.contract_bank_state.contract_admin
}

/// Why a claim is rejected, if it is.
///
/// The owner may claim up to `available_funds`, the administrator up to
/// `admin_funds`; nobody else may claim.
pub open spec fn claim_rejection(
    program_id: Pubkey,
    accounts: ClaimFundsAccounts,
    auction_id: AuctionId,
    amount: u64,
) -> Option<AuctionContractError> {
    and_then(
        unless(accounts.payer_account.is_signer, AuctionContractError::MissingSignature),
        and_then(
            rejection(
                verify_spec(
                    auction_root_state_seeds_spec(auction_id),
                    program_id,
                    program_id,
                    accounts.auction_root_state_account,
                ),
            ),
            and_then(
                rejection(
                    verify_spec(
                        auction_bank_seeds_spec(auction_id),
                        program_id,
                        program_id,
                        accounts.auction_bank_account,
                    ),
                ),
                and_then(
                    rejection(
                        verify_spec(
                            contract_bank_seeds_spec(),
                            program_id,
                            program_id,
                            accounts.contract_bank_account,
                        ),
                    ),
                    and_then(
                        unless(
                            owner_claims(accounts) || admin_claims(accounts),
                            AuctionContractError::AuctionOwnerMismatch,
                        ),
                        unless(
                            if owner_claims(accounts) {
                                accounts.auction_root_state.available_funds >= amount
                                    && can_transfer(
                                    accounts.auction_bank_account.lamports,
                                    accounts.payer_account.lamports,
                                    amount,
                                )
                            } else {
                                accounts.auction_root_state.admin_funds >= amount && can_transfer(
                                    accounts.auction_bank_account.lamports,
                                    accounts.contract_bank_account.lamports,
                                    amount,
                                )
                            },
                            AuctionContractError::ArithmeticError,
                        ),
                    ),
                ),
            ),
        ),
    )
}

/// The records after an accepted claim: `amount` has left the bank of the
/// auction, for the account of the owner or for the bank of the contract,
/// and what the claimant may still claim is less by exactly `amount`.
pub open spec fn claimed(accounts: ClaimFundsAccounts, amount: u64) -> ClaimFundsAccounts {
    let bank = AccountInfo {
        lamports: (accounts.auction_bank_account.lamports - amount) as u64,
        ..accounts.auction_bank_account
    };
    if owner_claims(accounts) {
        ClaimFundsAccounts {
            auction_bank_account: bank,
            payer_account: AccountInfo {
                lamports: (accounts.payer_account.lamports + amount) as u64,
                ..accounts.payer_account
            },
            auction_root_state: AuctionRootState {
                available_funds: (accounts.auction_root_state.available_funds - amount) as u64,
                ..accounts.auction_root_state
            },
            ..accounts
        }
    } else {
        ClaimFundsAccounts {
            auction_bank_account: bank,
            contract_bank_account: AccountInfo {
                lamports: (accounts.contract_bank_account.lamports + amount) as u64,
                ..accounts.contract_bank_account
            },
            auction_root_state: AuctionRootState {
                admin_funds: (accounts.auction_root_state.admin_funds - amount) as u64,
                ..accounts.auction_root_state
            },
            ..accounts
        }
    }
}

/// What claiming does: a rejected claim changes nothing; an accepted one
/// pays out exactly `amount`.
pub open spec fn claim_fits(
    program_id: Pubkey,
    before: ClaimFundsAccounts,
    after: ClaimFundsAccounts,
    auction_id: AuctionId,
    amount: u64,
    result: Result<(), AuctionContractError>,
) -> bool {
    match claim_rejection(program_id, before, auction_id, amount) {
        Some(error) => result == Err::<(), AuctionContractError>(error) && after == before,
        None => result is Ok && after == claimed(before, amount),
    }
}

/// Pays `amount` out of the bank of an auction: to the owner out of what the
/// auction has earned for the owner, or to the bank of the contract out of
/// what it has earned for the administrator.
pub fn process_claim_funds(
    program_id: &Pubkey,
    accounts: &mut ClaimFundsAccounts,
    auction_id: AuctionId,
    amount: u64,
) -> (result: Result<(), AuctionContractError>)
    ensures
        claim_fits(*program_id, *old(accounts), *final(accounts), auction_id, amount, result),
{
    if !accounts.payer_account.is_signer {
        return Err(AuctionContractError::MissingSignature);
    }
    SignerPda::check_owner(
        &auction_root_state_seeds(&auction_id),
        program_id,
        program_id,
        &accounts.auction_root_state_account,
    )?;
    SignerPda::check_owner(
        &auction_bank_seeds(&auction_id),
        program_id,
        program_id,
        &accounts.auction_bank_account,
    )?;
    SignerPda::check_owner(
        &contract_bank_seeds(),
        program_id,
        program_id,
        &accounts.contract_bank_account,
    )?;
    if accounts.payer_account.key == accounts.auction_root_state.auction_owner {
        if accounts.auction_root_state.available_funds < amount
            || accounts.auction_bank_account.lamports < amount || accounts.payer_account.lamports
            > u64::MAX - amount {
            return Err(AuctionContractError::ArithmeticError);
        }
        accounts.auction_root_state.available_funds = accounts.auction_root_state.available_funds
            - amount;
        accounts.auction_bank_account.lamports = accounts.auction_bank_account.lamports - amount;
        accounts.payer_account.lamports = accounts.payer_account.lamports + amount;
        Ok(())
    } else if accounts.payer_account.key == accounts.contract_bank_state.contract_admin {
        if accounts.auction_root_state.admin_funds < amount
            || accounts.auction_bank_account.lamports < amount
            || accounts.contract_bank_account.lamports > u64::MAX - amount {
            return Err(AuctionContractError::ArithmeticError);
        }
        accounts.auction_root_state.admin_funds = accounts.auction_root_state.admin_funds - amount;
        accounts.auction_bank_account.lamports = accounts.auction_bank_account.lamports - amount;
        accounts.contract_bank_account.lamports = accounts.contract_bank_account.lamports + amount;
        Ok(())
    } else {
        Err(AuctionContractError::AuctionOwnerMismatch)
    }
}

} // verus!
