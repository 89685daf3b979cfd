//! Checking that the records of an auction fit together.
use vstd::prelude::*;
use crate::error::AuctionContractError;
use crate::pda::{
    auction_bank_seeds, auction_bank_seeds_spec, auction_cycle_state_seeds,
    auction_cycle_state_seeds_spec, auction_pool_seeds, auction_pool_seeds_spec,
    auction_root_state_seeds, auction_root_state_seeds_spec, verify_spec, SignerPda,
};
use crate::processor::{and_then, rejection, unless};
use crate::pubkey::{AuctionId, Pubkey};
use crate::state::{AuctionCycleState, AuctionPool, AuctionRootState};
use crate::utils::AccountInfo;

verus! {

/// The records that the check looks at.
#[derive(Debug)]
pub struct VerifyAuctionAccounts {
    pub auction_root_state_account: AccountInfo,
    pub auction_root_state: AuctionRootState,
    pub auction_cycle_state_account: AccountInfo,
    pub auction_cycle_state: AuctionCycleState,
    pub auction_bank_account: AccountInfo,
    pub auction_pool_account: AccountInfo,
    pub auction_pool: AuctionPool,
}

/// What is wrong with the records of an auction, if anything is.
///
/// The records of the auction, of its open cycle, of its bank and of the
/// registry sit where they belong; the registry lists the auction under the
/// address of its record; and the bids of the open cycle are in order.
pub open spec fn verify_auction_rejection(
    program_id: Pubkey,
    accounts: VerifyAuctionAccounts,
    auction_id: AuctionId,
) -> Option<AuctionContractError> {
    and_then(
        rejection(
            verify_spec(
                auction_root_state_seeds_spec(auction_id),
                program_id,
                program_id,
                accounts.auction_root_state_account,
            ),
        ),
        and_then(
            rejection(
                verify_spec(
                    auction_cycle_state_seeds_spec(
                        accounts.auction_root_state_account.key,
                        accounts.auction_root_state.status.current_auction_cycle,
                    ),
                    program_id,
                    program_id,
                    accounts.auction_cycle_state_account,
                ),
            ),
            and_then(
                rejection(
                    verify_spec(
                        auction_bank_seeds_spec(auction_id),
                        program_id,
                        program_id,
                        accounts.auction_bank_account,
                    ),
                ),
                and_then(
                    rejection(
                        verify_spec(
                            auction_pool_seeds_spec(),
                            program_id,
                            program_id,
                            accounts.auction_pool_account,
                        ),
                    ),
                    unless(
                        accounts.auction_pool.holds(auction_id)
                            && accounts.auction_root_state.status.current_auction_cycle > 0
                            && accounts.auction_cycle_state.well_formed(),
                        AuctionContractError::StatusError,
                    ),
                ),
            ),
        ),
    )
}

/// Checks that the records of an auction fit together. Changes nothing: the
/// records are only read, and the same records always get the same answer.
pub fn process_verify_auction(
    program_id: &Pubkey,
    accounts: &VerifyAuctionAccounts,
    auction_id: AuctionId,
) -> (result: Result<(), AuctionContractError>)
    ensures
        rejection(result) == verify_auction_rejection(*program_id, *accounts, auction_id),
{
    SignerPda::check_owner(
        &auction_root_state_seeds(&auction_id),
        program_id,
        program_id,
        &accounts.auction_root_state_account,
    )?;
    SignerPda::check_owner(
        &auction_cycle_state_seeds(
            &accounts.auction_root_state_account.key,
            accounts.auction_root_state.status.current_auction_cycle,
        ),
        program_id,
        program_id,
        &accounts.auction_cycle_state_account,
    )?;
    SignerPda::check_owner(
        &auction_bank_seeds(&auction_id),
        program_id,
        program_id,
        &accounts.auction_bank_account,
    )?;
    SignerPda::check_owner(
        &auction_pool_seeds(),
        program_id,
        program_id,
        &accounts.auction_pool_account,
    )?;
    if !accounts.auction_pool.contains(&auction_id)
        || accounts.auction_root_state.status.current_auction_cycle == 0
        || !accounts.auction_cycle_state.is_well_formed() {
        return Err(AuctionContractError::StatusError);
    }
    Ok(())
}

} // verus!
