//! Placing a bid.
use vstd::prelude::*;
use crate::error::AuctionContractError;
use crate::pda::{
    auction_bank_seeds, auction_bank_seeds_spec, auction_cycle_state_seeds,
    auction_cycle_state_seeds_spec, auction_root_state_seeds, auction_root_state_seeds_spec,
    verify_spec, SignerPda,
};
use crate::processor::{and_then, rejection, unless};
use crate::pubkey::{AuctionId, Pubkey};
use crate::state::{
    bid_history_cyclic_push, strictly_increasing, AuctionCycleState, AuctionRootState, BidData,
    UnixTimestamp, MAX_BID_HISTORY_LENGTH,
};
use crate::utils::{check_status, status_allows, AccountInfo, AuctionInteraction, Sysvars};

verus! {

/// The records that placing a bid works on.
#[derive(Debug)]
pub struct BidAccounts {
    /// The account of the bidder, from which the stake is taken.
    pub user_main_account: AccountInfo,
    pub auction_bank_account: AccountInfo,
    pub auction_root_state_account: AccountInfo,
    pub auction_root_state: AuctionRootState,
    pub auction_cycle_state_account: AccountInfo,
    pub auction_cycle_state: AuctionCycleState,
    /// The account of who has bid most so far, to which that stake returns.
    pub top_bidder_account: AccountInfo,
}

/// The bids of a cycle after one more has arrived: it stands last, and a
/// full history has lost its oldest bid.
pub open spec fn bids_after(bids: Seq<BidData>, bid: BidData) -> Seq<BidData> {
    if bids.len() == MAX_BID_HISTORY_LENGTH {
        bids.drop_first().push(bid)
    } else {
        bids.push(bid)
    }
}

/// The checks on who bids, where the records sit and whether the auction
/// takes bids.
pub open spec fn bid_access_rejection(
    program_id: Pubkey,
    accounts: BidAccounts,
    auction_id: AuctionId,
    current_timestamp: UnixTimestamp,
) -> Option<AuctionContractError> {
    and_then(
        unless(accounts.user_main_account.is_signer, AuctionContractError::MissingSignature),
        and_then(
            rejection(
                verify_spec(
                    auction_root_state_seeds_spec(auction_id),
                    program_id,
                    program_id,
                    accounts.auction_root_state_account,
                ),
            ),
            and_then(
                rejection(
                    verify_spec(
                        auction_bank_seeds_spec(auction_id),
                        program_id,
                        program_id,
                        accounts.auction_bank_account,
                    ),
                ),
                and_then(
                    rejection(
                        verify_spec(
                            auction_cycle_state_seeds_spec(
                                accounts.auction_root_state_account.key,
                                accounts.auction_root_state.status.current_auction_cycle,
                            ),
                            program_id,
                            program_id,
                            accounts.auction_cycle_state_account,
                        ),
                    ),
                    unless(
                        status_allows(
                            accounts.auction_root_state,
                            accounts.auction_cycle_state,
                            current_timestamp,
                            AuctionInteraction::Bid,
                        ),
                        AuctionContractError::StatusError,
                    ),
                ),
            ),
        ),
    )
}

/// Why a bid is rejected, if it is.
///
/// A bid has to exceed the highest bid so far, and the bidder has to hold
/// the stake.
pub open spec fn bid_rejection(
    program_id: Pubkey,
    accounts: BidAccounts,
    auction_id: AuctionId,
    amount: u64,
    current_timestamp: UnixTimestamp,
) -> Option<AuctionContractError> {
    let outbid = accounts.auction_cycle_state.top_bid_amount();
    and_then(
        bid_access_rejection(program_id, accounts, auction_id, current_timestamp),
        and_then(
            match accounts.auction_cycle_state.top_bid() {
                Some(top_bid) => unless(
                    accounts.top_bidder_account.key == top_bid.bidder_pubkey,
                    AuctionContractError::TopBidderAccountMismatch,
                ),
                None => None,
            },
            and_then(
                unless(amount > outbid, AuctionContractError::InvalidBidAmount),
                unless(
                    accounts.user_main_account.lamports >= amount
                        && accounts.auction_bank_account.lamports + amount - outbid <= u64::MAX
                        && accounts.top_bidder_account.lamports + outbid <= u64::MAX
                        && accounts.auction_root_state.all_time_treasury + amount - outbid
                        <= u64::MAX,
                    AuctionContractError::ArithmeticError,
                ),
            ),
        ),
    )
}

/// Whether `after` is what an accepted bid of `amount` makes of `before`.
///
/// The stake moves from the bidder to the bank of the auction, and the
/// stake of the bid that is no longer the highest moves from the bank back
/// to its bidder. The bid joins the history of the cycle.
pub open spec fn bid_fits(
    before: BidAccounts,
    after: BidAccounts,
    amount: u64,
    current_timestamp: UnixTimestamp,
) -> bool {
    let outbid = before.auction_cycle_state.top_bid_amount();
    &&& after.auction_root_state_account == before.auction_root_state_account
    &&& after.auction_cycle_state_account == before.auction_cycle_state_account
    &&& after.user_main_account == (AccountInfo {
        lamports: (before.user_main_account.lamports - amount) as u64,
        ..before.user_main_account
    })
    &&& after.auction_bank_account == (AccountInfo {
        lamports: (before.auction_bank_account.lamports + amount - outbid) as u64,
        ..before.auction_bank_account
    })
    &&& after.top_bidder_account == (AccountInfo {
        lamports: (before.top_bidder_account.lamports + outbid) as u64,
        ..before.top_bidder_account
    })
    &&& after.auction_root_state == (AuctionRootState {
        all_time_treasury: (before.auction_root_state.all_time_treasury + amount - outbid) as u64,
        ..before.auction_root_state
    })
    &&& after.auction_cycle_state.end_time == before.auction_cycle_state.end_time
    &&& after.auction_cycle_state.bids() == bids_after(
        before.auction_cycle_state.bids(),
        BidData {
            bidder_pubkey: before.user_main_account.key,
            bid_amount: amount,
            timestamp: current_timestamp,
        },
    )
}

/// What placing a bid does: a rejected bid changes nothing; an accepted one
/// is the highest bid of the cycle, and leaves a well-formed history
/// well-formed.
pub open spec fn bid_outcome_fits(
    program_id: Pubkey,
    before: BidAccounts,
    after: BidAccounts,
    auction_id: AuctionId,
    amount: u64,
    sysvars: Sysvars,
    result: Result<(), AuctionContractError>,
) -> bool {
    match bid_rejection(program_id, before, auction_id, amount, sysvars.unix_timestamp) {
        Some(error) => result == Err::<(), AuctionContractError>(error) && after == before,
        None => {
            &&& result is Ok
            &&& bid_fits(before, after, amount, sysvars.unix_timestamp)
            &&& after.auction_cycle_state.top_bid_amount() == amount
            &&& before.auction_cycle_state.well_formed() ==> after.auction_cycle_state.well_formed()
        },
    }
}

/// A history stays well-formed when a bid arrives that exceeds its last
/// bid.
pub proof fn lemma_bids_after_well_formed(bids: Seq<BidData>, bid: BidData)
    requires
        bids.len() <= MAX_BID_HISTORY_LENGTH,
        strictly_increasing(bids),
        bids.len() > 0 ==> bids.last().bid_amount < bid.bid_amount,
    ensures
        bids_after(bids, bid).len() <= MAX_BID_HISTORY_LENGTH,
        bids_after(bids, bid).len() > 0,
        bids_after(bids, bid).last() == bid,
        strictly_increasing(bids_after(bids, bid)),
{
    let after = bids_after(bids, bid);
    let shift: int = if bids.len() == MAX_BID_HISTORY_LENGTH {
        1
    } else {
        0
    };
    assert forall|i: int, j: int| 0 <= i < j < after.len() implies (#[trigger] after[i]).bid_amount
        < (#[trigger] after[j]).bid_amount by {
        assert(after[i] == bids[i + shift]);
        if j < after.len() - 1 {
            assert(after[j] == bids[j + shift]);
        } else {
            assert(after[j] == bid);
            if i + shift < bids.len() - 1 {
                assert(bids[i + shift].bid_amount < bids[bids.len() - 1].bid_amount);
            }
        }
    }
}

/// The history of a cycle never exceeds its capacity, and its amounts grow
/// in the order of arrival: an accepted bid leaves a well-formed history
/// well-formed, and stands last in it.
pub proof fn lemma_bid_keeps_history_well_formed(
    program_id: Pubkey,
    before: BidAccounts,
    after: BidAccounts,
    auction_id: AuctionId,
    amount: u64,
    current_timestamp: UnixTimestamp,
)
    requires
        bid_rejection(program_id, before, auction_id, amount, current_timestamp) is None,
        bid_fits(before, after, amount, current_timestamp),
        before.auction_cycle_state.well_formed(),
    ensures
        after.auction_cycle_state.well_formed(),
        after.auction_cycle_state.bids().len() <= MAX_BID_HISTORY_LENGTH,
        strictly_increasing(after.auction_cycle_state.bids()),
        after.auction_cycle_state.top_bid() == Some(
            BidData {
                bidder_pubkey: before.user_main_account.key,
                bid_amount: amount,
                timestamp: current_timestamp,
            },
        ),
{
    lemma_bids_after_well_formed(
        before.auction_cycle_state.bids(),
        BidData {
            bidder_pubkey: before.user_main_account.key,
            bid_amount: amount,
            timestamp: current_timestamp,
        },
    );
}

/// The bank of an auction holds the stake of the highest bid and of no
/// other.
///
/// If the bank holds `backing` besides the stake of the highest bid, then
/// it does so after an accepted bid too. The stake of the bid that is no
/// longer the highest has returned to the account of its bidder in the same
/// operation. A bid that leaves a full history is not the highest one, so
/// its stake has returned before.
pub proof fn lemma_bank_holds_the_highest_stake(
    program_id: Pubkey,
    before: BidAccounts,
    after: BidAccounts,
    auction_id: AuctionId,
    amount: u64,
    current_timestamp: UnixTimestamp,
    backing: int,
)
    requires
        bid_rejection(program_id, before, auction_id, amount, current_timestamp) is None,
        bid_fits(before, after, amount, current_timestamp),
        before.auction_cycle_state.well_formed(),
        before.auction_bank_account.lamports == backing
            + before.auction_cycle_state.top_bid_amount(),
    ensures
        after.auction_bank_account.lamports == backing
            + after.auction_cycle_state.top_bid_amount(),
        after.auction_cycle_state.top_bid_amount() == amount,
        before.auction_cycle_state.top_bid() matches Some(outbid) ==> {
            &&& before.top_bidder_account.key == outbid.bidder_pubkey
            &&& after.top_bidder_account.key == outbid.bidder_pubkey
            &&& after.top_bidder_account.lamports == before.top_bidder_account.lamports
                + outbid.bid_amount
        },
        before.auction_cycle_state.bids().len() == MAX_BID_HISTORY_LENGTH ==> {
            &&& before.auction_cycle_state.bids()[0].bid_amount
                < before.auction_cycle_state.top_bid_amount()
            &&& after.auction_cycle_state.bids() == before.auction_cycle_state.bids().drop_first().push(
                after.auction_cycle_state.bids().last(),
            )
        },
        after.user_main_account.lamports + after.auction_bank_account.lamports
            + after.top_bidder_account.lamports == before.user_main_account.lamports
            + before.auction_bank_account.lamports + before.top_bidder_account.lamports,
{
    lemma_bid_keeps_history_well_formed(
        program_id,
        before,
        after,
        auction_id,
        amount,
        current_timestamp,
    );
    let bids = before.auction_cycle_state.bids();
    if bids.len() == MAX_BID_HISTORY_LENGTH {
        assert(bids[0].bid_amount < bids[bids.len() - 1].bid_amount);
    }
}

/// Checks who bids, where the records sit and whether the auction takes
/// bids.
fn check_bid_access(
    program_id: &Pubkey,
    accounts: &BidAccounts,
    auction_id: &AuctionId,
    current_timestamp: UnixTimestamp,
) -> (result: Result<(), AuctionContractError>)
    ensures
        rejection(result) == bid_access_rejection(
            *program_id,
            *accounts,
            *auction_id,
            current_timestamp,
        ),
{
    if !accounts.user_main_account.is_signer {
        return Err(AuctionContractError::MissingSignature);
    }
    SignerPda::check_owner(
        &auction_root_state_seeds(auction_id),
        program_id,
        program_id,
        &accounts.auction_root_state_account,
    )?;
    SignerPda::check_owner(
        &auction_bank_seeds(auction_id),
        program_id,
        program_id,
        &accounts.auction_bank_account,
    )?;
    SignerPda::check_owner(
        &auction_cycle_state_seeds(
            &accounts.auction_root_state_account.key,
            accounts.auction_root_state.status.current_auction_cycle,
        ),
        program_id,
        program_id,
        &accounts.auction_cycle_state_account,
    )?;
    check_status(
        &accounts.auction_root_state,
        &accounts.auction_cycle_state,
        current_timestamp,
        AuctionInteraction::Bid,
    )
}

/// Places a bid of `amount` in the open cycle of an auction.
///
/// The auction must be neither frozen nor finished, its cycle must not be
/// over, and the bid must exceed the highest bid so far. The stake moves
/// from the bidder to the bank of the auction; the stake of the bid that
/// was the highest returns from the bank to its bidder. So the bank holds
/// the stake of the highest bid and of no other.
pub fn process_bid(
    program_id: &Pubkey,
    accounts: &mut BidAccounts,
    auction_id: AuctionId,
    amount: u64,
    sysvars: &Sysvars,
) -> (result: Result<(), AuctionContractError>)
    ensures
        bid_outcome_fits(
            *program_id,
            *old(accounts),
            *final(accounts),
            auction_id,
            amount,
            *sysvars,
            result,
        ),
{
    check_bid_access(program_id, accounts, &auction_id, sysvars.unix_timestamp)?;
    let outbid = match accounts.auction_cycle_state.most_recent_bid() {
        Some(most_recent_bid) => {
            if accounts.top_bidder_account.key != most_recent_bid.bidder_pubkey {
                return Err(AuctionContractError::TopBidderAccountMismatch);
            }
            most_recent_bid.bid_amount
        },
        None => 0,
    };
    if amount <= outbid {
        return Err(AuctionContractError::InvalidBidAmount);
    }
    let raise = amount - outbid;
    if accounts.user_main_account.lamports < amount || accounts.auction_bank_account.lamports
        > u64::MAX - raise || accounts.top_bidder_account.lamports > u64::MAX - outbid
        || accounts.auction_root_state.all_time_treasury > u64::MAX - raise {
        return Err(AuctionContractError::ArithmeticError);
    }
    // transfer the stake to the bank
    accounts.user_main_account.lamports = accounts.user_main_account.lamports - amount;
    accounts.auction_bank_account.lamports = accounts.auction_bank_account.lamports + raise;
    // transfer the previous stake back to the previous top bidder
    accounts.top_bidder_account.lamports = accounts.top_bidder_account.lamports + outbid;
    accounts.auction_root_state.all_time_treasury = accounts.auction_root_state.all_time_treasury
        + raise;
    let bid_data = BidData {
        bidder_pubkey: accounts.user_main_account.key,
        bid_amount: amount,
        timestamp: sysvars.unix_timestamp,
    };
    bid_history_cyclic_push(&mut accounts.auction_cycle_state.bid_history, bid_data);
    proof {
        if old(accounts).auction_cycle_state.well_formed() {
            lemma_bids_after_well_formed(old(accounts).auction_cycle_state.bids(), bid_data);
        }
        let bids = old(accounts).auction_cycle_state.bids();
        assert(bids_after(bids, bid_data).last() == bid_data);
    }
    Ok(())
}

} // verus!
