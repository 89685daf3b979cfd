//! Taking an auction down: its bidder is refunded, the records of its
//! cycles are removed, the last one first, and in the end the auction
//! itself.
use vstd::prelude::*;
use crate::error::AuctionContractError;
use crate::pda::{
    auction_bank_seeds, auction_bank_seeds_spec, auction_cycle_state_seeds,
    auction_cycle_state_seeds_spec, auction_pool_seeds, auction_pool_seeds_spec,
    auction_root_state_seeds, auction_root_state_seeds_spec, contract_bank_seeds,
    contract_bank_seeds_spec, verify_spec, SignerPda,
};
use crate::processor::{and_then, rejection, unless};
use crate::pubkey::{AuctionId, Pubkey};
use crate::state::{AuctionCycleState, AuctionPool, AuctionRootState, AuctionStatus, BidData};
use crate::utils::{can_transfer, AccountInfo};

verus! {

/// The number of cycle records that can safely be removed by one call.
pub const RECOMMENDED_CYCLE_STATES_DELETED_PER_CALL: u64 = 30;

/// The records that taking an auction down works on.
#[derive(Debug)]
pub struct DeleteAuctionAccounts {
    pub auction_owner_account: AccountInfo,
    pub top_bidder_account: AccountInfo,
    pub auction_root_state_account: AccountInfo,
    pub auction_root_state: AuctionRootState,
    pub auction_bank_account: AccountInfo,
    pub contract_bank_account: AccountInfo,
    pub auction_pool_account: AccountInfo,
    pub auction_pool: AuctionPool,
    /// The records of cycles, the open cycle first, each followed by the
    /// cycle before it: those that are to be removed, and in any case that
    /// of the open cycle while the auction is not frozen.
    pub auction_cycle_state_accounts: Vec<AccountInfo>,
    /// The state of the open cycle, as the first of those records holds it.
    pub auction_cycle_state: AuctionCycleState,
}

/// The native value in all of `records`.
pub open spec fn total_lamports(records: Seq<AccountInfo>) -> nat
    decreases records.len(),
{
    if records.len() == 0 {
        0
    } else {
        total_lamports(records.drop_last()) + records.last().lamports as nat
    }
}

/// `records` with nothing left in the first `count` of them.
pub open spec fn emptied(records: Seq<AccountInfo>, count: int) -> Seq<AccountInfo> {
    Seq::new(
        records.len(),
        |i: int|
            if i < count {
                AccountInfo { lamports: 0, ..records[i] }
            } else {
                records[i]
            },
    )
}

/// The first of `records[from..to]` that does not sit at the address of the
/// cycle that it stands for, the record at `from` standing for the cycle
/// `top_cycle - from`.
pub open spec fn cycle_records_rejection(
    program_id: Pubkey,
    auction_root_state: Pubkey,
    records: Seq<AccountInfo>,
    top_cycle: u64,
    from: int,
    to: int,
) -> Option<AuctionContractError>
    decreases to - from,
{
    if from >= to {
        None
    } else {
        and_then(
            rejection(
                verify_spec(
                    auction_cycle_state_seeds_spec(auction_root_state, (top_cycle - from) as u64),
                    program_id,
                    program_id,
                    records[from],
                ),
            ),
            cycle_records_rejection(
                program_id,
                auction_root_state,
                records,
                top_cycle,
                from + 1,
                to,
            ),
        )
    }
}

/// Why the highest bid of a cycle cannot be given back, if it cannot: the
/// account handed in is not the bidder's, or a balance leaves its type.
pub open spec fn refund_rejection(
    auction_bank_account: AccountInfo,
    top_bidder_account: AccountInfo,
    auction_cycle_state: AuctionCycleState,
    auction_root_state: AuctionRootState,
) -> Option<AuctionContractError> {
    match auction_cycle_state.top_bid() {
        None => None,
        Some(bid) => and_then(
            unless(
                top_bidder_account.key == bid.bidder_pubkey,
                AuctionContractError::TopBidderAccountMismatch,
            ),
            unless(
                can_transfer(
                    auction_bank_account.lamports,
                    top_bidder_account.lamports,
                    bid.bid_amount,
                ) && auction_root_state.all_time_treasury >= bid.bid_amount,
                AuctionContractError::ArithmeticError,
            ),
        ),
    }
}

/// Says whether the highest bid of a cycle can be given back.
fn check_refund(
    auction_bank_account: &AccountInfo,
    top_bidder_account: &AccountInfo,
    auction_cycle_state: &AuctionCycleState,
    auction_root_state: &AuctionRootState,
) -> (result: Result<(), AuctionContractError>)
    ensures
        rejection(result) == refund_rejection(
            *auction_bank_account,
            *top_bidder_account,
            *auction_cycle_state,
            *auction_root_state,
        ),
{
    if let Some(most_recent_bid) = auction_cycle_state.most_recent_bid() {
        if top_bidder_account.key != most_recent_bid.bidder_pubkey {
            return Err(AuctionContractError::TopBidderAccountMismatch);
        }
        if auction_bank_account.lamports < most_recent_bid.bid_amount
            || top_bidder_account.lamports > u64::MAX - most_recent_bid.bid_amount
            || auction_root_state.all_time_treasury < most_recent_bid.bid_amount {
            return Err(AuctionContractError::ArithmeticError);
        }
    }
    Ok(())
}

/// Gives the highest bid of a cycle back to its bidder: the stake moves from
/// the bank of the auction to the bidder and no longer counts as taken in.
/// Without a bid nothing happens.
pub fn refund_top_bidder(
    auction_bank_account: &mut AccountInfo,
    top_bidder_account: &mut AccountInfo,
    auction_cycle_state: &AuctionCycleState,
    auction_root_state: &mut AuctionRootState,
) -> (result: Result<(), AuctionContractError>)
    ensures
        rejection(result) == refund_rejection(
            *old(auction_bank_account),
            *old(top_bidder_account),
            *auction_cycle_state,
            *old(auction_root_state),
        ),
        result is Err ==> {
            &&& *final(auction_bank_account) == *old(auction_bank_account)
            &&& *final(top_bidder_account) == *old(top_bidder_account)
            &&& *final(auction_root_state) == *old(auction_root_state)
        },
        result is Ok ==> {
            let amount = auction_cycle_state.top_bid_amount();
            &&& *final(auction_bank_account) == (AccountInfo {
                lamports: (old(auction_bank_account).lamports - amount) as u64,
                ..*old(auction_bank_account)
            })
            &&& *final(top_bidder_account) == (AccountInfo {
                lamports: (old(top_bidder_account).lamports + amount) as u64,
                ..*old(top_bidder_account)
            })
            &&& *final(auction_root_state) == (AuctionRootState {
                all_time_treasury: (old(auction_root_state).all_time_treasury - amount) as u64,
                ..*old(auction_root_state)
            })
        },
{
    check_refund(
        auction_bank_account,
        top_bidder_account,
        auction_cycle_state,
        auction_root_state,
    )?;
    if let Some(most_recent_bid) = auction_cycle_state.most_recent_bid() {
        auction_bank_account.lamports = auction_bank_account.lamports - most_recent_bid.bid_amount;
        top_bidder_account.lamports = top_bidder_account.lamports + most_recent_bid.bid_amount;
        auction_root_state.all_time_treasury = auction_root_state.all_time_treasury
            - most_recent_bid.bid_amount;
    }
    Ok(())
}

/// The number of cycle records that a call removes: those asked for, but
/// no more than the auction has.
pub open spec fn removable_cycles(accounts: DeleteAuctionAccounts, num_of_cycles_to_delete: u64) -> u64 {
    if accounts.auction_root_state.status.current_auction_cycle < num_of_cycles_to_delete {
        accounts.auction_root_state.status.current_auction_cycle
    } else {
        num_of_cycles_to_delete
    }
}

/// Whether a call refunds: the auction is not frozen yet and has an open
/// cycle. How many cycle records the call removes does not matter.
pub open spec fn refunds(accounts: DeleteAuctionAccounts) -> bool {
    !accounts.auction_root_state.status.is_frozen
        && accounts.auction_root_state.status.current_auction_cycle > 0
}

/// The bid that a call gives back: the highest bid of the open cycle, while
/// the auction is not frozen yet.
pub open spec fn refunded_bid(accounts: DeleteAuctionAccounts) -> Option<BidData> {
    if refunds(accounts) {
        accounts.auction_cycle_state.top_bid()
    } else {
        None
    }
}

/// The amount that a call gives back to the highest bidder.
pub open spec fn refunded_amount(accounts: DeleteAuctionAccounts) -> nat {
    match refunded_bid(accounts) {
        Some(bid) => bid.bid_amount as nat,
        None => 0,
    }
}

/// The number of cycle records that a call reads: those that it removes,
/// and that of the open cycle where it refunds.
pub open spec fn needed_records(accounts: DeleteAuctionAccounts, num_of_cycles_to_delete: u64) -> int {
    if removable_cycles(accounts, num_of_cycles_to_delete) > 0 {
        removable_cycles(accounts, num_of_cycles_to_delete) as int
    } else if refunds(accounts) {
        1
    } else {
        0
    }
}

/// Whether a call removes the last cycle records of the auction, and with
/// them the auction.
pub open spec fn removes_auction(accounts: DeleteAuctionAccounts, num_of_cycles_to_delete: u64) -> bool {
    accounts.auction_root_state.status.current_auction_cycle <= num_of_cycles_to_delete
}

/// The checks on who calls and on where the records of the auction sit.
pub open spec fn delete_access_rejection(
    program_id: Pubkey,
    accounts: DeleteAuctionAccounts,
    auction_id: AuctionId,
) -> Option<AuctionContractError> {
    and_then(
        unless(accounts.auction_owner_account.is_signer, AuctionContractError::MissingSignature),
        and_then(
            rejection(
                verify_spec(
                    auction_root_state_seeds_spec(auction_id),
                    program_id,
                    program_id,
                    accounts.auction_root_state_account,
                ),
            ),
            and_then(
                rejection(
                    verify_spec(
                        contract_bank_seeds_spec(),
                        program_id,
                        program_id,
                        accounts.contract_bank_account,
                    ),
                ),
                and_then(
                    rejection(
                        verify_spec(
                            auction_pool_seeds_spec(),
                            program_id,
                            program_id,
                            accounts.auction_pool_account,
                        ),
                    ),
                    and_then(
                        rejection(
                            verify_spec(
                                auction_bank_seeds_spec(auction_id),
                                program_id,
                                program_id,
                                accounts.auction_bank_account,
                            ),
                        ),
                        unless(
                            accounts.auction_owner_account.key
                                == accounts.auction_root_state.auction_owner,
                            AuctionContractError::AuctionOwnerMismatch,
                        ),
                    ),
                ),
            ),
        ),
    )
}

/// Why a call is rejected, if it is.
///
/// The owner has to have signed, and the records have to sit where they
/// belong: first the record of the open cycle, where the call reads it.
/// Then the refund has to be possible, where one is due. Then the other
/// cycle records have to sit where they belong, and no balance may leave
/// its type.
#[verifier::opaque]
pub open spec fn delete_rejection(
    program_id: Pubkey,
    accounts: DeleteAuctionAccounts,
    auction_id: AuctionId,
    num_of_cycles_to_delete: u64,
) -> Option<AuctionContractError> {
    let removable = removable_cycles(accounts, num_of_cycles_to_delete);
    let records = accounts.auction_cycle_state_accounts@;
    let top_cycle = accounts.auction_root_state.status.current_auction_cycle;
    let refund = refunded_amount(accounts);
    let needed = needed_records(accounts, num_of_cycles_to_delete);
    and_then(
        delete_access_rejection(program_id, accounts, auction_id),
        and_then(
            unless(needed <= records.len(), AuctionContractError::NotEnoughAccountKeys),
            and_then(
                cycle_records_rejection(
                    program_id,
                    accounts.auction_root_state_account.key,
                    records,
                    top_cycle,
                    0,
                    if needed > 0 {
                        1
                    } else {
                        0
                    },
                ),
                and_then(
                    if refunds(accounts) {
                        refund_rejection(
                            accounts.auction_bank_account,
                            accounts.top_bidder_account,
                            accounts.auction_cycle_state,
                            accounts.auction_root_state,
                        )
                    } else {
                        None
                    },
                    and_then(
                        cycle_records_rejection(
                            program_id,
                            accounts.auction_root_state_account.key,
                            records,
                            top_cycle,
                            1,
                            removable as int,
                        ),
                        unless(
                            accounts.contract_bank_account.lamports + total_lamports(
                                records.take(removable as int),
                            ) <= u64::MAX && (removes_auction(accounts, num_of_cycles_to_delete)
                                ==> accounts.auction_owner_account.lamports
                                + accounts.auction_bank_account.lamports - refund
                                + accounts.auction_root_state_account.lamports <= u64::MAX),
                            AuctionContractError::ArithmeticError,
                        ),
                    ),
                ),
            ),
        ),
    )
}

/// Whether `after` is what an accepted call makes of `before`.
///
/// The highest bidder of the open cycle is refunded, unless the auction
/// was frozen, and the auction is frozen, however many cycle records are
/// removed. Then that many cycle records are emptied into the bank of the
/// contract, and the auction counts that many cycles less. Once it counts none, its bank and its record are emptied into the
/// account of the owner, and it leaves the registry.
pub open spec fn deletion_fits(
    before: DeleteAuctionAccounts,
    after: DeleteAuctionAccounts,
    auction_id: AuctionId,
    num_of_cycles_to_delete: u64,
) -> bool {
    let removable = removable_cycles(before, num_of_cycles_to_delete);
    let refund = refunded_amount(before);
    let removed_value = total_lamports(before.auction_cycle_state_accounts@.take(removable as int));
    let bank_rest = before.auction_bank_account.lamports - refund;
    let whole = removes_auction(before, num_of_cycles_to_delete);
    &&& after.auction_cycle_state == before.auction_cycle_state
    &&& after.auction_pool_account == before.auction_pool_account
    &&& after.auction_cycle_state_accounts@ == emptied(
        before.auction_cycle_state_accounts@,
        removable as int,
    )
    &&& after.contract_bank_account == (AccountInfo {
        lamports: (before.contract_bank_account.lamports + removed_value) as u64,
        ..before.contract_bank_account
    })
    &&& after.top_bidder_account == (AccountInfo {
        lamports: (before.top_bidder_account.lamports + refund) as u64,
        ..before.top_bidder_account
    })
    &&& after.auction_root_state == (AuctionRootState {
        all_time_treasury: (before.auction_root_state.all_time_treasury - refund) as u64,
        status: AuctionStatus {
            is_frozen: true,
            current_auction_cycle: (before.auction_root_state.status.current_auction_cycle
                - removable) as u64,
            ..before.auction_root_state.status
        },
        ..before.auction_root_state
    })
    &&& after.auction_bank_account == (AccountInfo {
        lamports: if whole {
            0
        } else {
            bank_rest as u64
        },
        ..before.auction_bank_account
    })
    &&& after.auction_root_state_account == (AccountInfo {
        lamports: if whole {
            0
        } else {
            before.auction_root_state_account.lamports
        },
        ..before.auction_root_state_account
    })
    &&& after.auction_owner_account == (AccountInfo {
        lamports: if whole {
            (before.auction_owner_account.lamports + bank_rest
                + before.auction_root_state_account.lamports) as u64
        } else {
            before.auction_owner_account.lamports
        },
        ..before.auction_owner_account
    })
    &&& after.auction_pool.max_len == before.auction_pool.max_len
    &&& if whole {
        &&& before.auction_pool.well_formed() ==> after.auction_pool.well_formed()
            && !after.auction_pool.holds(auction_id)
        &&& !before.auction_pool.holds(auction_id) ==> after.auction_pool.pool@
            == before.auction_pool.pool@
        &&& before.auction_pool.holds(auction_id) ==> exists|i: int|
            0 <= i < before.auction_pool.pool@.len() && before.auction_pool.ids()[i] == auction_id
                && #[trigger] before.auction_pool.pool@.remove(i) == after.auction_pool.pool@
    } else {
        after.auction_pool.pool@ == before.auction_pool.pool@
    }
}

/// The value in a beginning of `records` is part of the value in all of
/// them.
proof fn lemma_total_lamports_of_prefix(records: Seq<AccountInfo>, count: int)
    requires
        0 <= count <= records.len(),
    ensures
        total_lamports(records.take(count)) <= total_lamports(records),
    decreases records.len(),
{
    if count == records.len() {
        assert(records.take(count) =~= records);
    } else {
        assert(records.drop_last().take(count) =~= records.take(count));
        lemma_total_lamports_of_prefix(records.drop_last(), count);
    }
}

/// The native value in the first `count` of `records`, unless it leaves
/// `u64`.
fn sum_lamports(records: &Vec<AccountInfo>, count: usize) -> (sum: Option<u64>)
    requires
        count <= records@.len(),
    ensures
        match sum {
            Some(sum) => sum == total_lamports(records@.take(count as int)),
            None => total_lamports(records@.take(count as int)) > u64::MAX,
        },
{
    let mut sum: u64 = 0;
    let mut i: usize = 0;
    while i < count
        invariant
            i <= count <= records@.len(),
            sum == total_lamports(records@.take(i as int)),
        decreases count - i,
    {
        proof {
            assert(records@.take(i + 1).drop_last() =~= records@.take(i as int));
            assert(records@.take(count as int).take(i + 1) =~= records@.take(i + 1));
            lemma_total_lamports_of_prefix(records@.take(count as int), i + 1);
        }
        sum = match sum.checked_add(records[i].lamports) {
            Some(sum) => sum,
            None => {
                return None;
            },
        };
        i += 1;
    }
    Some(sum)
}

/// Checks that the records from `from` up to `to` sit at the addresses of
/// the cycles they stand for.
fn check_cycle_records(
    program_id: &Pubkey,
    auction_root_state: &Pubkey,
    records: &Vec<AccountInfo>,
    top_cycle: u64,
    from: usize,
    to: usize,
) -> (result: Result<(), AuctionContractError>)
    requires
        to <= records@.len(),
        to <= top_cycle,
    ensures
        rejection(result) == cycle_records_rejection(
            *program_id,
            *auction_root_state,
            records@,
            top_cycle,
            from as int,
            to as int,
        ),
{
    let mut i: usize = from;
    while i < to
        invariant
            from <= i,
            to <= records@.len(),
            to <= top_cycle,
            cycle_records_rejection(
                *program_id,
                *auction_root_state,
                records@,
                top_cycle,
                from as int,
                to as int,
            ) == cycle_records_rejection(
                *program_id,
                *auction_root_state,
                records@,
                top_cycle,
                i as int,
                to as int,
            ),
        decreases to - i,
    {
        let cycle_num = top_cycle - i as u64;
        SignerPda::check_owner(
            &auction_cycle_state_seeds(auction_root_state, cycle_num),
            program_id,
            program_id,
            &records[i],
        )?;
        i += 1;
    }
    Ok(())
}

/// Empties the first `count` of `records`.
fn empty_records(records: &mut Vec<AccountInfo>, count: usize)
    requires
        count <= old(records)@.len(),
    ensures
        final(records)@ == emptied(old(records)@, count as int),
{
    let ghost before = records@;
    let mut i: usize = 0;
    while i < count
        invariant
            i <= count <= before.len(),
            records@ == emptied(before, i as int),
        decreases count - i,
    {
        let record = records[i];
        records.set(i, AccountInfo { lamports: 0, ..record });
        i += 1;
        proof {
            assert(records@ =~= emptied(before, i as int));
        }
    }
    proof {
        assert(emptied(before, 0) =~= before);
    }
}

/// Checks who calls and where the records of the auction sit.
fn check_delete_access(
    program_id: &Pubkey,
    accounts: &DeleteAuctionAccounts,
    auction_id: &AuctionId,
) -> (result: Result<(), AuctionContractError>)
    ensures
        rejection(result) == delete_access_rejection(*program_id, *accounts, *auction_id),
{
    if !accounts.auction_owner_account.is_signer {
        return Err(AuctionContractError::MissingSignature);
    }
    // check account owners and seeds
    SignerPda::check_owner(
        &auction_root_state_seeds(auction_id),
        program_id,
        program_id,
        &accounts.auction_root_state_account,
    )?;
    SignerPda::check_owner(
        &contract_bank_seeds(),
        program_id,
        program_id,
        &accounts.contract_bank_account,
    )?;
    SignerPda::check_owner(
        &auction_pool_seeds(),
        program_id,
        program_id,
        &accounts.auction_pool_account,
    )?;
    SignerPda::check_owner(
        &auction_bank_seeds(auction_id),
        program_id,
        program_id,
        &accounts.auction_bank_account,
    )?;
    // check auction owner account
    if accounts.auction_owner_account.key != accounts.auction_root_state.auction_owner {
        return Err(AuctionContractError::AuctionOwnerMismatch);
    }
    Ok(())
}

/// Checks a call, and says how many cycle records it removes and how much
/// value they hold.
fn check_delete(
    program_id: &Pubkey,
    accounts: &DeleteAuctionAccounts,
    auction_id: &AuctionId,
    num_of_cycles_to_delete: u64,
) -> (result: Result<(usize, u64), AuctionContractError>)
    ensures
        match delete_rejection(*program_id, *accounts, *auction_id, num_of_cycles_to_delete) {
            Some(error) => result == Err::<(usize, u64), AuctionContractError>(error),
            None => {
                &&& result matches Ok((removable, removed_value))
                &&& removable == removable_cycles(*accounts, num_of_cycles_to_delete)
                &&& removable <= accounts.auction_cycle_state_accounts@.len()
                &&& removed_value == total_lamports(
                    accounts.auction_cycle_state_accounts@.take(removable as int),
                )
            },
        },
{
    reveal(delete_rejection);
    check_delete_access(program_id, accounts, auction_id)?;
    let top_cycle = accounts.auction_root_state.status.current_auction_cycle;
    let removable_cycle_states_num = if top_cycle < num_of_cycles_to_delete {
        top_cycle
    } else {
        num_of_cycles_to_delete
    };
    // the top bidder is refunded by the first call, whatever it removes
    let refunds = !accounts.auction_root_state.status.is_frozen && top_cycle > 0;
    // the auction cycle states to remove, in reverse chronological order,
    // and in any case the open one where its top bidder is refunded
    if removable_cycle_states_num > accounts.auction_cycle_state_accounts.len() as u64 || (refunds
        && accounts.auction_cycle_state_accounts.len() == 0) {
        return Err(AuctionContractError::NotEnoughAccountKeys);
    }
    let removable = removable_cycle_states_num as usize;
    check_cycle_records(
        program_id,
        &accounts.auction_root_state_account.key,
        &accounts.auction_cycle_state_accounts,
        top_cycle,
        0,
        if removable > 0 || refunds {
            1
        } else {
            0
        },
    )?;
    let mut refund: u64 = 0;
    if refunds {
        check_refund(
            &accounts.auction_bank_account,
            &accounts.top_bidder_account,
            &accounts.auction_cycle_state,
            &accounts.auction_root_state,
        )?;
        if let Some(most_recent_bid) = accounts.auction_cycle_state.most_recent_bid() {
            refund = most_recent_bid.bid_amount;
        }
    }
    check_cycle_records(
        program_id,
        &accounts.auction_root_state_account.key,
        &accounts.auction_cycle_state_accounts,
        top_cycle,
        1,
        removable,
    )?;
    let removed_value = match sum_lamports(&accounts.auction_cycle_state_accounts, removable) {
        Some(removed_value) => removed_value,
        None => {
            return Err(AuctionContractError::ArithmeticError);
        },
    };
    if accounts.contract_bank_account.lamports > u64::MAX - removed_value {
        return Err(AuctionContractError::ArithmeticError);
    }
    if top_cycle == removable_cycle_states_num {
        let bank_rest = accounts.auction_bank_account.lamports - refund;
        if bank_rest > u64::MAX - accounts.auction_owner_account.lamports || bank_rest
            + accounts.auction_owner_account.lamports > u64::MAX
            - accounts.auction_root_state_account.lamports {
            return Err(AuctionContractError::ArithmeticError);
        }
    }
    Ok((removable, removed_value))
}

/// What holds of a call that is not rejected.
proof fn lemma_accepted_delete(
    program_id: Pubkey,
    accounts: DeleteAuctionAccounts,
    auction_id: AuctionId,
    num_of_cycles_to_delete: u64,
)
    requires
        delete_rejection(program_id, accounts, auction_id, num_of_cycles_to_delete) is None,
    ensures
        removable_cycles(accounts, num_of_cycles_to_delete)
            <= accounts.auction_cycle_state_accounts@.len(),
        refunds(accounts) ==> refund_rejection(
            accounts.auction_bank_account,
            accounts.top_bidder_account,
            accounts.auction_cycle_state,
            accounts.auction_root_state,
        ) is None,
        accounts.contract_bank_account.lamports + total_lamports(
            accounts.auction_cycle_state_accounts@.take(
                removable_cycles(accounts, num_of_cycles_to_delete) as int,
            ),
        ) <= u64::MAX,
        removes_auction(accounts, num_of_cycles_to_delete)
            ==> accounts.auction_owner_account.lamports + accounts.auction_bank_account.lamports
            - refunded_amount(accounts) + accounts.auction_root_state_account.lamports
            <= u64::MAX,
{
    reveal(delete_rejection);
}

/// Refunds the highest bidder of the open cycle, unless the auction is
/// frozen, freezes the auction, and then empties the first `removable` cycle
/// records into the bank of the contract.
fn remove_cycle_records(accounts: &mut DeleteAuctionAccounts, removable: usize, removed_value: u64)
    requires
        removable <= old(accounts).auction_cycle_state_accounts@.len(),
        removable <= old(accounts).auction_root_state.status.current_auction_cycle,
        removed_value == total_lamports(
            old(accounts).auction_cycle_state_accounts@.take(removable as int),
        ),
        old(accounts).contract_bank_account.lamports + removed_value <= u64::MAX,
        refunds(*old(accounts)) ==> refund_rejection(
            old(accounts).auction_bank_account,
            old(accounts).top_bidder_account,
            old(accounts).auction_cycle_state,
            old(accounts).auction_root_state,
        ) is None,
    ensures
        ({
            let before = *old(accounts);
            let after = *final(accounts);
            let refund = refunded_amount(before);
            &&& after.auction_cycle_state == before.auction_cycle_state
            &&& after.auction_pool_account == before.auction_pool_account
            &&& after.auction_pool == before.auction_pool
            &&& after.auction_owner_account == before.auction_owner_account
            &&& after.auction_root_state_account == before.auction_root_state_account
            &&& after.auction_cycle_state_accounts@ == emptied(
                before.auction_cycle_state_accounts@,
                removable as int,
            )
            &&& after.contract_bank_account == (AccountInfo {
                lamports: (before.contract_bank_account.lamports + removed_value) as u64,
                ..before.contract_bank_account
            })
            &&& after.top_bidder_account == (AccountInfo {
                lamports: (before.top_bidder_account.lamports + refund) as u64,
                ..before.top_bidder_account
            })
            &&& after.auction_bank_account == (AccountInfo {
                lamports: (before.auction_bank_account.lamports - refund) as u64,
                ..before.auction_bank_account
            })
            &&& after.auction_root_state == (AuctionRootState {
                all_time_treasury: (before.auction_root_state.all_time_treasury - refund) as u64,
                status: AuctionStatus {
                    is_frozen: true,
                    current_auction_cycle: (before.auction_root_state.status.current_auction_cycle
                        - removable) as u64,
                    ..before.auction_root_state.status
                },
                ..before.auction_root_state
            })
        }),
{
    // refund the top bidder of the last cycle
    if !accounts.auction_root_state.status.is_frozen
        && accounts.auction_root_state.status.current_auction_cycle > 0 {
        let refunded = refund_top_bidder(
            &mut accounts.auction_bank_account,
            &mut accounts.top_bidder_account,
            &accounts.auction_cycle_state,
            &mut accounts.auction_root_state,
        );
        assert(refunded is Ok);
    }
    accounts.auction_root_state.status.is_frozen = true;
    // deallocate cycle states
    empty_records(&mut accounts.auction_cycle_state_accounts, removable);
    accounts.contract_bank_account.lamports = accounts.contract_bank_account.lamports
        + removed_value;
    // decrement cycle number
    accounts.auction_root_state.status.current_auction_cycle =
        accounts.auction_root_state.status.current_auction_cycle - removable as u64;
}

/// Empties the bank and the record of an auction into the account of its
/// owner, and takes the auction out of the registry.
fn remove_auction(accounts: &mut DeleteAuctionAccounts, auction_id: &AuctionId)
    requires
        old(accounts).auction_owner_account.lamports + old(accounts).auction_bank_account.lamports
            + old(accounts).auction_root_state_account.lamports <= u64::MAX,
    ensures
        ({
            let before = *old(accounts);
            let after = *final(accounts);
            &&& after.auction_cycle_state == before.auction_cycle_state
            &&& after.auction_pool_account == before.auction_pool_account
            &&& after.auction_cycle_state_accounts == before.auction_cycle_state_accounts
            &&& after.contract_bank_account == before.contract_bank_account
            &&& after.top_bidder_account == before.top_bidder_account
            &&& after.auction_root_state == before.auction_root_state
            &&& after.auction_bank_account == (AccountInfo {
                lamports: 0,
                ..before.auction_bank_account
            })
            &&& after.auction_root_state_account == (AccountInfo {
                lamports: 0,
                ..before.auction_root_state_account
            })
            &&& after.auction_owner_account == (AccountInfo {
                lamports: (before.auction_owner_account.lamports
                    + before.auction_bank_account.lamports
                    + before.auction_root_state_account.lamports) as u64,
                ..before.auction_owner_account
            })
            &&& after.auction_pool.max_len == before.auction_pool.max_len
            &&& before.auction_pool.well_formed() ==> after.auction_pool.well_formed()
                && !after.auction_pool.holds(*auction_id)
            &&& !before.auction_pool.holds(*auction_id) ==> after.auction_pool.pool@
                == before.auction_pool.pool@
            &&& before.auction_pool.holds(*auction_id) ==> exists|i: int|
                0 <= i < before.auction_pool.pool@.len() && before.auction_pool.ids()[i]
                    == *auction_id && #[trigger] before.auction_pool.pool@.remove(i)
                    == after.auction_pool.pool@
        }),
{
    accounts.auction_owner_account.lamports = accounts.auction_owner_account.lamports
        + accounts.auction_bank_account.lamports + accounts.auction_root_state_account.lamports;
    accounts.auction_bank_account.lamports = 0;
    accounts.auction_root_state_account.lamports = 0;
    accounts.auction_pool.remove(auction_id);
}

/// What is taken out of the first `count` records is what they held.
pub proof fn lemma_emptied_value(records: Seq<AccountInfo>, count: int)
    requires
        0 <= count <= records.len(),
    ensures
        total_lamports(emptied(records, count)) + total_lamports(records.take(count))
            == total_lamports(records),
    decreases records.len(),
{
    if records.len() > 0 {
        let rest = records.drop_last();
        let kept = if count < records.len() {
            count
        } else {
            records.len() - 1
        };
        lemma_emptied_value(rest, kept);
        assert(emptied(records, count).drop_last() =~= emptied(rest, kept));
        if count < records.len() {
            assert(records.take(count) =~= rest.take(count));
        } else {
            assert(records.take(count) =~= records);
            assert(rest.take(kept) =~= rest);
        }
    }
}

/// Taking an auction down moves value and neither makes nor loses any: the
/// accounts and records that a call works on hold as much after the call as
/// before.
pub proof fn lemma_deletion_keeps_value(
    program_id: Pubkey,
    before: DeleteAuctionAccounts,
    after: DeleteAuctionAccounts,
    auction_id: AuctionId,
    num_of_cycles_to_delete: u64,
)
    requires
        delete_rejection(program_id, before, auction_id, num_of_cycles_to_delete) is None,
        deletion_fits(before, after, auction_id, num_of_cycles_to_delete),
    ensures
        after.auction_owner_account.lamports + after.top_bidder_account.lamports
            + after.auction_root_state_account.lamports + after.auction_bank_account.lamports
            + after.contract_bank_account.lamports + after.auction_pool_account.lamports
            + total_lamports(after.auction_cycle_state_accounts@)
            == before.auction_owner_account.lamports + before.top_bidder_account.lamports
            + before.auction_root_state_account.lamports + before.auction_bank_account.lamports
            + before.contract_bank_account.lamports + before.auction_pool_account.lamports
            + total_lamports(before.auction_cycle_state_accounts@),
{
    lemma_accepted_delete(program_id, before, auction_id, num_of_cycles_to_delete);
    lemma_emptied_value(
        before.auction_cycle_state_accounts@,
        removable_cycles(before, num_of_cycles_to_delete) as int,
    );
}

/// Taking an auction down refunds its highest bidder once and not again.
///
/// A call on an auction that is not frozen leaves it frozen and moves the
/// stake of the highest bid of the open cycle from the bank to its bidder,
/// however many cycle records it removes, be it none. Whatever is asked of
/// the auction as that call has left it, no later call gives anything back.
pub proof fn lemma_highest_bidder_is_refunded_once(
    program_id: Pubkey,
    before: DeleteAuctionAccounts,
    after: DeleteAuctionAccounts,
    auction_id: AuctionId,
    num_of_cycles_to_delete: u64,
    later: DeleteAuctionAccounts,
)
    requires
        delete_rejection(program_id, before, auction_id, num_of_cycles_to_delete) is None,
        deletion_fits(before, after, auction_id, num_of_cycles_to_delete),
        !before.auction_root_state.status.is_frozen,
        later.auction_root_state == after.auction_root_state,
    ensures
        after.auction_root_state.status.is_frozen,
        before.auction_root_state.status.current_auction_cycle > 0 ==> refunded_amount(before)
            == before.auction_cycle_state.top_bid_amount(),
        after.top_bidder_account.lamports == before.top_bidder_account.lamports + refunded_amount(
            before,
        ),
        after.auction_root_state.all_time_treasury == before.auction_root_state.all_time_treasury
            - refunded_amount(before),
        !removes_auction(before, num_of_cycles_to_delete) ==> after.auction_bank_account.lamports
            == before.auction_bank_account.lamports - refunded_amount(before),
        refunded_bid(before) matches Some(bid) ==> before.top_bidder_account.key
            == bid.bidder_pubkey,
        refunded_amount(later) == 0,
{
    lemma_accepted_delete(program_id, before, auction_id, num_of_cycles_to_delete);
}

/// What taking an auction down does: a rejected call changes nothing; an
/// accepted one leaves the records that `deletion_fits` describes.
pub open spec fn delete_fits(
    program_id: Pubkey,
    before: DeleteAuctionAccounts,
    after: DeleteAuctionAccounts,
    auction_id: AuctionId,
    num_of_cycles_to_delete: u64,
    result: Result<(), AuctionContractError>,
) -> bool {
    match delete_rejection(program_id, before, auction_id, num_of_cycles_to_delete) {
        Some(error) => result == Err::<(), AuctionContractError>(error) && after == before,
        None => result is Ok && deletion_fits(before, after, auction_id, num_of_cycles_to_delete),
    }
}

/// Takes an auction down, as far as `num_of_cycles_to_delete` cycle records
/// go.
///
/// Only the owner may do so. The first call refunds the highest bidder of
/// the open cycle and freezes the auction, even where it is asked to remove
/// no cycle record. Every call removes cycle records, the last one first,
/// and hands their deposits to the bank of the contract.
/// The call that removes the first cycle hands the deposits of the auction's
/// bank and record to the owner and takes the auction out of the registry.
pub fn process_delete_auction(
    program_id: &Pubkey,
    accounts: &mut DeleteAuctionAccounts,
    auction_id: AuctionId,
    num_of_cycles_to_delete: u64,
) -> (result: Result<(), AuctionContractError>)
    ensures
        delete_fits(
            *program_id,
            *old(accounts),
            *final(accounts),
            auction_id,
            num_of_cycles_to_delete,
            result,
        ),
{
    let (removable, removed_value) = check_delete(
        program_id,
        accounts,
        &auction_id,
        num_of_cycles_to_delete,
    )?;
    // nothing can fail from here on
    proof {
        lemma_accepted_delete(*program_id, *accounts, auction_id, num_of_cycles_to_delete);
    }
    remove_cycle_records(accounts, removable, removed_value);
    // return if there are still cycle states to remove
    if accounts.auction_root_state.status.current_auction_cycle > 0 {
        return Ok(());
    }
    // deallocate remaining states if all cycle states are deallocated
    remove_auction(accounts, &auction_id);
    Ok(())
}

} // verus!
