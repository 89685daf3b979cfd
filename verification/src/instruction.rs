//! The operations that can be asked of the contract.
use vstd::prelude::*;
use crate::processor::initialize_auction::CreateTokenArgs;
use crate::pubkey::{AuctionId, Pubkey};
use crate::state::{AuctionConfig, UnixTimestamp};

verus! {

/// An operation together with its arguments.
#[derive(Clone, Debug)]
pub enum AuctionInstruction {
    InitializeContract { withdraw_authority: Pubkey, initial_auction_pool_len: u32 },
    InitializeAuction {
        id: AuctionId,
        auction_name: [u8; 32],
        description: String,
        auction_config: AuctionConfig,
        create_token_args: CreateTokenArgs,
        auction_start_timestamp: Option<UnixTimestamp>,
    },
    Bid { id: AuctionId, amount: u64 },
    CloseAuctionCycle { id: AuctionId },
    Freeze { id: AuctionId },
    Thaw { id: AuctionId },
    ClaimFunds { id: AuctionId, amount: u64 },
    DeleteAuction { id: AuctionId, num_of_cycles_to_delete: u64 },
    VerifyAuction { id: AuctionId },
    AdminWithdraw { amount: u64 },
    AdminWithdrawReassign { new_withdraw_authority: Pubkey },
    DeallocatePool,
    ReallocatePool { new_max_auction_num: u32 },
}

} // verus!
