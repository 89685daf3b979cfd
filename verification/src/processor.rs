//! The operations on auctions.
//!
//! An operation either is accepted and carried out as a whole, or is
//! rejected and leaves every record as it was.
use vstd::prelude::*;
use crate::error::AuctionContractError;
use crate::instruction::AuctionInstruction;
use crate::pubkey::Pubkey;
use crate::state::{AuctionCycleState, AuctionPool, AuctionRootState, ContractBankState};
use crate::utils::{can_transfer, AccountInfo, Sysvars};
use crate::processor::admin_withdraw::{
    admin_withdraw_fits, admin_withdraw_reassign_fits, AdminWithdrawAccounts,
};
use crate::processor::bid::{bid_outcome_fits, BidAccounts};
use crate::processor::claim_funds::{claim_fits, ClaimFundsAccounts};
use crate::processor::close_auction_cycle::{
    close_cycle_fits, CloseAuctionCycleAccounts, CycleClosure,
};
use crate::processor::delete_auction::{delete_fits, DeleteAuctionAccounts};
use crate::processor::freeze::{freeze_fits, AuctionAdminAccounts};
use crate::processor::initialize_auction::{initialize_auction_fits, InitializeAuctionAccounts};
use crate::processor::initialize_contract::{
    initialize_contract_fits, InitializeContractAccounts,
};
use crate::processor::reallocate_pool::{deallocate_pool_fits, reallocate_pool_fits, PoolAccounts};
use crate::processor::thaw::thaw_fits;
use crate::processor::verify_auction::{verify_auction_rejection, VerifyAuctionAccounts};

pub mod admin_withdraw;
pub mod bid;
pub mod claim_funds;
pub mod close_auction_cycle;
pub mod delete_auction;
pub mod freeze;
pub mod initialize_auction;
pub mod initialize_contract;
pub mod reallocate_pool;
pub mod thaw;
pub mod verify_auction;


verus! {

/// What is rejected, where the check fails.
pub open spec fn unless(holds: bool, error: AuctionContractError) -> Option<AuctionContractError> {
    if holds {
        None
    } else {
        Some(error)
    }
}

/// The rejection of a check, where it rejects.
pub open spec fn rejection(check: Result<(), AuctionContractError>) -> Option<
    AuctionContractError,
> {
    match check {
        Ok(_) => None,
        Err(error) => Some(error),
    }
}

/// The first rejection of two checks made one after the other.
pub open spec fn and_then(
    first: Option<AuctionContractError>,
    second: Option<AuctionContractError>,
) -> Option<AuctionContractError> {
    if first is Some {
        first
    } else {
        second
    }
}

/// Empties a record into another one: all the native value of `from` moves
/// to `to`, unless the balance of `to` would leave `u64`.
pub fn deallocate_state(from: &mut AccountInfo, to: &mut AccountInfo) -> (result: Result<
    (),
    AuctionContractError,
>)
    ensures
        result == if can_transfer(old(from).lamports, old(to).lamports, old(from).lamports) {
            Ok::<(), AuctionContractError>(())
        } else {
            Err(AuctionContractError::ArithmeticError)
        },
        *final(from) == if result is Ok {
            AccountInfo { lamports: 0, ..*old(from) }
        } else {
            *old(from)
        },
        *final(to) == if result is Ok {
            AccountInfo { lamports: (old(to).lamports + old(from).lamports) as u64, ..*old(to) }
        } else {
            *old(to)
        },
{
    let lamports_to_claim = from.lamports;
    crate::utils::transfer(from, to, lamports_to_claim)
}

/// The records that an operation works on.
#[derive(Debug)]
pub enum InstructionAccounts {
    InitializeContract(InitializeContractAccounts),
    InitializeAuction(InitializeAuctionAccounts),
    Bid(BidAccounts),
    CloseAuctionCycle(CloseAuctionCycleAccounts),
    Freeze(AuctionAdminAccounts),
    Thaw(AuctionAdminAccounts),
    ClaimFunds(ClaimFundsAccounts),
    DeleteAuction(DeleteAuctionAccounts),
    VerifyAuction(VerifyAuctionAccounts),
    AdminWithdraw(AdminWithdrawAccounts),
    AdminWithdrawReassign(AdminWithdrawAccounts),
    DeallocatePool(PoolAccounts),
    ReallocatePool(PoolAccounts),
}

/// What is left to do once an operation has been accepted: the records that
/// it has made are to be created, the reward that it has settled is to be
/// issued.
#[derive(Debug)]
pub enum Outcome {
    /// Nothing is left to do.
    Done,
    /// The contract was set up: the records of its bank and registry.
    ContractInitialized(ContractBankState, AuctionPool),
    /// An auction was created: its record and that of its first cycle.
    AuctionInitialized(AuctionRootState, AuctionCycleState),
    /// A cycle was closed.
    CycleClosed(CycleClosure),
}

/// The result of an operation that leaves nothing to do.
pub open spec fn done(result: Result<Outcome, AuctionContractError>) -> Result<
    (),
    AuctionContractError,
> {
    match result {
        Ok(_) => Ok(()),
        Err(error) => Err(error),
    }
}

/// Whether `result` and the records `after` are what the operation asked
/// for makes of the records `before`: what the operation itself is stated
/// to do. An operation that is handed the records of another one is
/// rejected.
pub open spec fn process_fits(
    program_id: Pubkey,
    before: InstructionAccounts,
    after: InstructionAccounts,
    instruction: AuctionInstruction,
    sysvars: Sysvars,
    result: Result<Outcome, AuctionContractError>,
) -> bool {
    match (instruction, before) {
        (
            AuctionInstruction::InitializeContract { withdraw_authority, initial_auction_pool_len },
            InstructionAccounts::InitializeContract(accounts),
        ) => {
            &&& after == before
            &&& match result {
                Ok(Outcome::ContractInitialized(contract_bank_state, auction_pool)) =>
                    initialize_contract_fits(
                    program_id,
                    accounts,
                    withdraw_authority,
                    initial_auction_pool_len,
                    Ok((contract_bank_state, auction_pool)),
                ),
                Ok(_) => false,
                Err(error) => initialize_contract_fits(
                    program_id,
                    accounts,
                    withdraw_authority,
                    initial_auction_pool_len,
                    Err(error),
                ),
            }
        },
        (
            AuctionInstruction::InitializeAuction {
                id,
                auction_name,
                description,
                auction_config,
                create_token_args,
                auction_start_timestamp,
            },
            InstructionAccounts::InitializeAuction(accounts),
        ) => {
            &&& after matches InstructionAccounts::InitializeAuction(after_accounts)
            &&& match result {
                Ok(Outcome::AuctionInitialized(root_state, cycle_state)) =>
                    initialize_auction_fits(
                    program_id,
                    accounts,
                    after_accounts,
                    id,
                    auction_name,
                    description@,
                    auction_config,
                    create_token_args,
                    auction_start_timestamp,
                    sysvars,
                    Ok((root_state, cycle_state)),
                ),
                Ok(_) => false,
                Err(error) => initialize_auction_fits(
                    program_id,
                    accounts,
                    after_accounts,
                    id,
                    auction_name,
                    description@,
                    auction_config,
                    create_token_args,
                    auction_start_timestamp,
                    sysvars,
                    Err(error),
                ),
            }
        },
        (AuctionInstruction::Bid { id, amount }, InstructionAccounts::Bid(accounts)) => {
            &&& after matches InstructionAccounts::Bid(after_accounts)
            &&& result is Ok ==> result->Ok_0 is Done
            &&& bid_outcome_fits(
                program_id,
                accounts,
                after_accounts,
                id,
                amount,
                sysvars,
                done(result),
            )
        },
        (
            AuctionInstruction::CloseAuctionCycle { id },
            InstructionAccounts::CloseAuctionCycle(accounts),
        ) => {
            &&& after matches InstructionAccounts::CloseAuctionCycle(after_accounts)
            &&& match result {
                Ok(Outcome::CycleClosed(closure)) => close_cycle_fits(
                    program_id,
                    accounts,
                    after_accounts,
                    id,
                    sysvars,
                    Ok(closure),
                ),
                Ok(_) => false,
                Err(error) => close_cycle_fits(
                    program_id,
                    accounts,
                    after_accounts,
                    id,
                    sysvars,
                    Err(error),
                ),
            }
        },
        (AuctionInstruction::Freeze { id }, InstructionAccounts::Freeze(accounts)) => {
            &&& after matches InstructionAccounts::Freeze(after_accounts)
            &&& result is Ok ==> result->Ok_0 is Done
            &&& freeze_fits(program_id, accounts, after_accounts, id, done(result))
        },
        (AuctionInstruction::Thaw { id }, InstructionAccounts::Thaw(accounts)) => {
            &&& after matches InstructionAccounts::Thaw(after_accounts)
            &&& result is Ok ==> result->Ok_0 is Done
            &&& thaw_fits(program_id, accounts, after_accounts, id, done(result))
        },
        (
            AuctionInstruction::ClaimFunds { id, amount },
            InstructionAccounts::ClaimFunds(accounts),
        ) => {
            &&& after matches InstructionAccounts::ClaimFunds(after_accounts)
            &&& result is Ok ==> result->Ok_0 is Done
            &&& claim_fits(program_id, accounts, after_accounts, id, amount, done(result))
        },
        (
            AuctionInstruction::DeleteAuction { id, num_of_cycles_to_delete },
            InstructionAccounts::DeleteAuction(accounts),
        ) => {
            &&& after matches InstructionAccounts::DeleteAuction(after_accounts)
            &&& result is Ok ==> result->Ok_0 is Done
            &&& delete_fits(
                program_id,
                accounts,
                after_accounts,
                id,
                num_of_cycles_to_delete,
                done(result),
            )
        },
        (
            AuctionInstruction::VerifyAuction { id },
            InstructionAccounts::VerifyAuction(accounts),
        ) => {
            &&& after == before
            &&& result is Ok ==> result->Ok_0 is Done
            &&& rejection(done(result)) == verify_auction_rejection(program_id, accounts, id)
        },
        (
            AuctionInstruction::AdminWithdraw { amount },
            InstructionAccounts::AdminWithdraw(accounts),
        ) => {
            &&& after matches InstructionAccounts::AdminWithdraw(after_accounts)
            &&& result is Ok ==> result->Ok_0 is Done
            &&& admin_withdraw_fits(program_id, accounts, after_accounts, amount, done(result))
        },
        (
            AuctionInstruction::AdminWithdrawReassign { new_withdraw_authority },
            InstructionAccounts::AdminWithdrawReassign(accounts),
        ) => {
            &&& after matches InstructionAccounts::AdminWithdrawReassign(after_accounts)
            &&& result is Ok ==> result->Ok_0 is Done
            &&& admin_withdraw_reassign_fits(
                program_id,
                accounts,
                after_accounts,
                new_withdraw_authority,
                done(result),
            )
        },
        (AuctionInstruction::DeallocatePool, InstructionAccounts::DeallocatePool(accounts)) => {
            &&& after matches InstructionAccounts::DeallocatePool(after_accounts)
            &&& result is Ok ==> result->Ok_0 is Done
            &&& deallocate_pool_fits(program_id, accounts, after_accounts, done(result))
        },
        (
            AuctionInstruction::ReallocatePool { new_max_auction_num },
            InstructionAccounts::ReallocatePool(accounts),
        ) => {
            &&& after matches InstructionAccounts::ReallocatePool(after_accounts)
            &&& result is Ok ==> result->Ok_0 is Done
            &&& reallocate_pool_fits(
                program_id,
                accounts,
                after_accounts,
                new_max_auction_num,
                done(result),
            )
        },
        _ => {
            &&& after == before
            &&& result == Err::<Outcome, AuctionContractError>(
                AuctionContractError::NotEnoughAccountKeys,
            )
        },
    }
}

/// An operation that is rejected, be it because a number would leave its
/// type or for any other reason, leaves every record as it was.
pub proof fn lemma_rejection_changes_nothing(
    program_id: Pubkey,
    before: InstructionAccounts,
    after: InstructionAccounts,
    instruction: AuctionInstruction,
    sysvars: Sysvars,
    result: Result<Outcome, AuctionContractError>,
)
    requires
        process_fits(program_id, before, after, instruction, sysvars, result),
        result is Err,
    ensures
        after == before,
{
    reveal(delete_auction::delete_rejection);
}

/// Checking an auction changes no record, whatever the answer, and the same
/// records always get the same answer.
pub proof fn lemma_verify_auction_changes_nothing(
    program_id: Pubkey,
    before: InstructionAccounts,
    after: InstructionAccounts,
    instruction: AuctionInstruction,
    sysvars: Sysvars,
    result: Result<Outcome, AuctionContractError>,
    again: Result<Outcome, AuctionContractError>,
)
    requires
        instruction is VerifyAuction,
        process_fits(program_id, before, after, instruction, sysvars, result),
        process_fits(program_id, after, after, instruction, sysvars, again),
    ensures
        after == before,
        done(again) == done(result),
{
}

/// The bank of an auction among the records of an operation, where the
/// operation works on it.
pub open spec fn auction_bank_of(accounts: InstructionAccounts) -> Option<AccountInfo> {
    match accounts {
        InstructionAccounts::Bid(accounts) => Some(accounts.auction_bank_account),
        InstructionAccounts::CloseAuctionCycle(accounts) => Some(accounts.auction_bank_account),
        InstructionAccounts::ClaimFunds(accounts) => Some(accounts.auction_bank_account),
        InstructionAccounts::DeleteAuction(accounts) => Some(accounts.auction_bank_account),
        _ => None,
    }
}

/// The record of an auction among the records of an operation.
pub open spec fn auction_record_of(accounts: InstructionAccounts) -> Option<AuctionRootState> {
    match accounts {
        InstructionAccounts::Bid(accounts) => Some(accounts.auction_root_state),
        InstructionAccounts::CloseAuctionCycle(accounts) => Some(accounts.auction_root_state),
        InstructionAccounts::Freeze(accounts) => Some(accounts.auction_root_state),
        InstructionAccounts::Thaw(accounts) => Some(accounts.auction_root_state),
        InstructionAccounts::ClaimFunds(accounts) => Some(accounts.auction_root_state),
        InstructionAccounts::DeleteAuction(accounts) => Some(accounts.auction_root_state),
        InstructionAccounts::VerifyAuction(accounts) => Some(accounts.auction_root_state),
        _ => None,
    }
}

/// What the owner and the administrator may claim from the bank of an
/// auction: the winning bids that were settled and not claimed yet.
pub open spec fn claimable_funds(root_state: AuctionRootState) -> int {
    root_state.available_funds + root_state.admin_funds
}

/// The highest bid of the open cycle, where the operation looks at it as a
/// stake that the bank holds: a bid outbids it, closing settles it, and
/// taking down an auction that is not frozen refunds it.
pub open spec fn open_stake_of(accounts: InstructionAccounts) -> Option<nat> {
    match accounts {
        InstructionAccounts::Bid(accounts) => Some(accounts.auction_cycle_state.top_bid_amount()),
        InstructionAccounts::CloseAuctionCycle(accounts) => Some(
            accounts.current_auction_cycle_state.top_bid_amount(),
        ),
        InstructionAccounts::DeleteAuction(accounts) => if delete_auction::refunds(accounts) {
            Some(accounts.auction_cycle_state.top_bid_amount())
        } else {
            None
        },
        _ => None,
    }
}

/// Whether the bank of the auction holds its `deposit`, what may be claimed
/// from it, and the `stake` that is neither refunded nor settled, and
/// nothing else.
pub open spec fn bank_is_backed(accounts: InstructionAccounts, deposit: int, stake: int) -> bool {
    match (auction_bank_of(accounts), auction_record_of(accounts)) {
        (Some(bank), Some(root_state)) => bank.lamports == deposit + claimable_funds(root_state)
            + stake,
        _ => true,
    }
}

/// The stake that is neither refunded nor settled once an operation is
/// over: a bid that is accepted is the new stake, closing a cycle settles
/// the stake, taking the auction down refunds it, and nothing else touches
/// it.
pub open spec fn stake_after(
    before: InstructionAccounts,
    instruction: AuctionInstruction,
    result: Result<Outcome, AuctionContractError>,
    stake: int,
) -> int {
    if result is Err {
        stake
    } else {
        match (instruction, before) {
            (AuctionInstruction::Bid { amount, .. }, InstructionAccounts::Bid(_)) => amount as int,
            (
                AuctionInstruction::CloseAuctionCycle { .. },
                InstructionAccounts::CloseAuctionCycle(accounts),
            ) => if accounts.current_auction_cycle_state.top_bid() is Some {
                0
            } else {
                stake
            },
            (
                AuctionInstruction::DeleteAuction { .. },
                InstructionAccounts::DeleteAuction(accounts),
            ) => stake - delete_auction::refunded_amount(accounts),
            _ => stake,
        }
    }
}

/// The deposit of the bank once an operation is over: closing the last
/// cycle hands it to the owner as claimable, and nothing else touches it.
pub open spec fn deposit_after(
    before: InstructionAccounts,
    instruction: AuctionInstruction,
    sysvars: Sysvars,
    result: Result<Outcome, AuctionContractError>,
    deposit: int,
) -> int {
    if result is Err {
        deposit
    } else {
        match (instruction, before) {
            (
                AuctionInstruction::CloseAuctionCycle { .. },
                InstructionAccounts::CloseAuctionCycle(accounts),
            ) => if accounts.current_auction_cycle_state.top_bid() is Some
                && accounts.auction_root_state.is_last_auction_cycle() {
                deposit - sysvars.rent_exempt_minimum
            } else {
                deposit
            },
            _ => deposit,
        }
    }
}

/// Whether an accepted operation removes the auction, and its bank with it.
pub open spec fn removes_the_auction(
    before: InstructionAccounts,
    instruction: AuctionInstruction,
    result: Result<Outcome, AuctionContractError>,
) -> bool {
    result is Ok && match (instruction, before) {
        (
            AuctionInstruction::DeleteAuction { num_of_cycles_to_delete, .. },
            InstructionAccounts::DeleteAuction(accounts),
        ) => delete_auction::removes_auction(accounts, num_of_cycles_to_delete),
        _ => false,
    }
}

/// The bank of an auction holds its deposit, what may be claimed from it,
/// and the stake of the highest bid while that is neither refunded nor
/// settled: if it does before an operation, it does after it, whether the
/// operation is accepted or rejected, as long as the auction is there.
///
/// `stake` is the stake that the bank holds before the operation; where
/// the operation outbids, settles or refunds the highest bid of the open
/// cycle, that bid is the stake. An operation that does not work on the
/// bank leaves what may be claimed from it as it was.
pub proof fn lemma_bank_stays_backed(
    program_id: Pubkey,
    before: InstructionAccounts,
    after: InstructionAccounts,
    instruction: AuctionInstruction,
    sysvars: Sysvars,
    result: Result<Outcome, AuctionContractError>,
    deposit: int,
    stake: int,
)
    requires
        process_fits(program_id, before, after, instruction, sysvars, result),
        bank_is_backed(before, deposit, stake),
        open_stake_of(before) matches Some(open_stake) ==> stake == open_stake,
        !removes_the_auction(before, instruction, result),
    ensures
        bank_is_backed(
            after,
            deposit_after(before, instruction, sysvars, result, deposit),
            stake_after(before, instruction, result, stake),
        ),
        auction_bank_of(after) is Some <==> auction_bank_of(before) is Some,
        auction_record_of(after) is Some <==> auction_record_of(before) is Some,
        auction_bank_of(before) is None && auction_record_of(before) is Some ==> claimable_funds(
            auction_record_of(after)->Some_0,
        ) == claimable_funds(auction_record_of(before)->Some_0),
        result is Ok && open_stake_of(after) is Some && !(instruction is CloseAuctionCycle)
            ==> stake_after(before, instruction, result, stake) == open_stake_of(after)->Some_0,
{
    if result is Err {
        lemma_rejection_changes_nothing(program_id, before, after, instruction, sysvars, result);
    } else {
        match (instruction, before, after) {
            (
                AuctionInstruction::CloseAuctionCycle { id },
                InstructionAccounts::CloseAuctionCycle(accounts),
                InstructionAccounts::CloseAuctionCycle(after_accounts),
            ) => {
                if accounts.current_auction_cycle_state.top_bid() is Some {
                    close_auction_cycle::lemma_highest_bid_is_split(
                        program_id,
                        accounts,
                        after_accounts,
                        id,
                        sysvars,
                        result->Ok_0->CycleClosed_0,
                    );
                }
            },
            (
                AuctionInstruction::DeleteAuction { id, num_of_cycles_to_delete },
                InstructionAccounts::DeleteAuction(accounts),
                InstructionAccounts::DeleteAuction(after_accounts),
            ) => {
                reveal(delete_auction::delete_rejection);
            },
            _ => {},
        }
    }
}

/// Carries out the operation that `instruction` asks for on the records in
/// `accounts`.
pub fn process(
    program_id: &Pubkey,
    accounts: &mut InstructionAccounts,
    instruction: AuctionInstruction,
    sysvars: &Sysvars,
) -> (result: Result<Outcome, AuctionContractError>)
    ensures
        process_fits(*program_id, *old(accounts), *final(accounts), instruction, *sysvars, result),
{
    match instruction {
        AuctionInstruction::InitializeContract { withdraw_authority, initial_auction_pool_len } => {
            match accounts {
                InstructionAccounts::InitializeContract(accounts) => {
                    let (contract_bank_state, auction_pool) =
                        initialize_contract::initialize_contract(
                        program_id,
                        accounts,
                        withdraw_authority,
                        initial_auction_pool_len,
                    )?;
                    Ok(Outcome::ContractInitialized(contract_bank_state, auction_pool))
                },
                _ => Err(AuctionContractError::NotEnoughAccountKeys),
            }
        },
        AuctionInstruction::InitializeAuction {
            id,
            auction_name,
            description,
            auction_config,
            create_token_args,
            auction_start_timestamp,
        } => match accounts {
            InstructionAccounts::InitializeAuction(accounts) => {
                let (root_state, cycle_state) = initialize_auction::initialize_auction(
                    program_id,
                    accounts,
                    id,
                    auction_name,
                    description,
                    auction_config,
                    create_token_args,
                    auction_start_timestamp,
                    sysvars,
                )?;
                Ok(Outcome::AuctionInitialized(root_state, cycle_state))
            },
            _ => Err(AuctionContractError::NotEnoughAccountKeys),
        },
        AuctionInstruction::Bid { id, amount } => match accounts {
            InstructionAccounts::Bid(accounts) => {
                bid::process_bid(program_id, accounts, id, amount, sysvars)?;
                Ok(Outcome::Done)
            },
            _ => Err(AuctionContractError::NotEnoughAccountKeys),
        },
        AuctionInstruction::CloseAuctionCycle { id } => match accounts {
            InstructionAccounts::CloseAuctionCycle(accounts) => {
                let closure = close_auction_cycle::close_auction_cycle(
                    program_id,
                    accounts,
                    id,
                    sysvars,
                )?;
                Ok(Outcome::CycleClosed(closure))
            },
            _ => Err(AuctionContractError::NotEnoughAccountKeys),
        },
        AuctionInstruction::Freeze { id } => match accounts {
            InstructionAccounts::Freeze(accounts) => {
                freeze::freeze_auction(program_id, accounts, id)?;
                Ok(Outcome::Done)
            },
            _ => Err(AuctionContractError::NotEnoughAccountKeys),
        },
        AuctionInstruction::Thaw { id } => match accounts {
            InstructionAccounts::Thaw(accounts) => {
                thaw::thaw_auction(program_id, accounts, id)?;
                Ok(Outcome::Done)
            },
            _ => Err(AuctionContractError::NotEnoughAccountKeys),
        },
        AuctionInstruction::ClaimFunds { id, amount } => match accounts {
            InstructionAccounts::ClaimFunds(accounts) => {
                claim_funds::process_claim_funds(program_id, accounts, id, amount)?;
                Ok(Outcome::Done)
            },
            _ => Err(AuctionContractError::NotEnoughAccountKeys),
        },
        AuctionInstruction::DeleteAuction { id, num_of_cycles_to_delete } => match accounts {
            InstructionAccounts::DeleteAuction(accounts) => {
                delete_auction::process_delete_auction(
                    program_id,
                    accounts,
                    id,
                    num_of_cycles_to_delete,
                )?;
                Ok(Outcome::Done)
            },
            _ => Err(AuctionContractError::NotEnoughAccountKeys),
        },
        AuctionInstruction::VerifyAuction { id } => match accounts {
            InstructionAccounts::VerifyAuction(accounts) => {
                verify_auction::process_verify_auction(program_id, accounts, id)?;
                Ok(Outcome::Done)
            },
            _ => Err(AuctionContractError::NotEnoughAccountKeys),
        },
        AuctionInstruction::AdminWithdraw { amount } => match accounts {
            InstructionAccounts::AdminWithdraw(accounts) => {
                admin_withdraw::process_admin_withdraw(program_id, accounts, amount)?;
                Ok(Outcome::Done)
            },
            _ => Err(AuctionContractError::NotEnoughAccountKeys),
        },
        AuctionInstruction::AdminWithdrawReassign { new_withdraw_authority } => match accounts {
            InstructionAccounts::AdminWithdrawReassign(accounts) => {
                admin_withdraw::process_admin_withdraw_reassign(
                    program_id,
                    accounts,
                    new_withdraw_authority,
                )?;
                Ok(Outcome::Done)
            },
            _ => Err(AuctionContractError::NotEnoughAccountKeys),
        },
        AuctionInstruction::DeallocatePool => match accounts {
            InstructionAccounts::DeallocatePool(accounts) => {
                reallocate_pool::deallocate_pool(program_id, accounts)?;
                Ok(Outcome::Done)
            },
            _ => Err(AuctionContractError::NotEnoughAccountKeys),
        },
        AuctionInstruction::ReallocatePool { new_max_auction_num } => match accounts {
            InstructionAccounts::ReallocatePool(accounts) => {
                reallocate_pool::reallocate_pool(program_id, accounts, new_max_auction_num)?;
                Ok(Outcome::Done)
            },
            _ => Err(AuctionContractError::NotEnoughAccountKeys),
        },
    }
}

} // verus!
