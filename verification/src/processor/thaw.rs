//! Thawing a frozen auction.
use vstd::prelude::*;
use crate::error::AuctionContractError;
use crate::processor::freeze::{
    admin_access_rejection, check_admin_access, with_frozen, AuctionAdminAccounts,
};
use crate::processor::{and_then, unless};
use crate::pubkey::{AuctionId, Pubkey};

verus! {

/// Why an auction cannot be thawed, if it cannot: it is not frozen, or it is
/// finished.
pub open spec fn thaw_rejection(
    program_id: Pubkey,
    accounts: AuctionAdminAccounts,
    auction_id: AuctionId,
) -> Option<AuctionContractError> {
    and_then(
        admin_access_rejection(program_id, accounts, auction_id),
        unless(
            accounts.auction_root_state.status.is_frozen
                && !accounts.auction_root_state.status.is_finished,
            AuctionContractError::StatusError,
        ),
    )
}

/// What thawing does: a rejected call changes nothing; an accepted one
/// leaves the auction not frozen, and nothing else changes.
pub open spec fn thaw_fits(
    program_id: Pubkey,
    before: AuctionAdminAccounts,
    after: AuctionAdminAccounts,
    auction_id: AuctionId,
    result: Result<(), AuctionContractError>,
) -> bool {
    match thaw_rejection(program_id, before, auction_id) {
        Some(error) => result == Err::<(), AuctionContractError>(error) && after == before,
        None => result is Ok && after == with_frozen(before, false),
    }
}

/// Thaws a frozen auction, so that it takes bids again. Only the
/// administrator of the contract may do so.
pub fn thaw_auction(
    program_id: &Pubkey,
    accounts: &mut AuctionAdminAccounts,
    auction_id: AuctionId,
) -> (result: Result<(), AuctionContractError>)
    ensures
        thaw_fits(*program_id, *old(accounts), *final(accounts), auction_id, result),
{
    check_admin_access(program_id, accounts, &auction_id)?;
    if !accounts.auction_root_state.status.is_frozen
        || accounts.auction_root_state.status.is_finished {
        return Err(AuctionContractError::StatusError);
    }
    accounts.auction_root_state.status.is_frozen = false;
    Ok(())
}

} // verus!
