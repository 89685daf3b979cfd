//! The records that describe an auction.
use vstd::prelude::*;
use agsol_common::MaxLenVec;
use crate::error::AuctionContractError;
use crate::pubkey::{same_bytes, AuctionId, Pubkey};

verus! {

/// Seconds since the first of January 1970.
pub type UnixTimestamp = i64;

/// Maximum number of auctions the registry may have room for.
pub const MAX_AUCTION_NUM: u32 = 100;

/// Maximum number of bids kept in a cycle's bid history.
pub const MAX_BID_HISTORY_LENGTH: usize = 10;

/// `MaxLenVec` of `agsol_common`: a sequence that `cyclic_push` keeps at no
/// more than `N` items. A cycle keeps its bids in one. Nothing is known of
/// a value of it but what the functions below say.
#[verifier::external_type_specification]
#[verifier::external_body]
#[verifier::reject_recursive_types(T)]
pub struct ExMaxLenVec<T, const N: usize>(MaxLenVec<T, N>);

/// A bid: who placed it, how much was staked, and when.
#[derive(Clone, Copy, Debug, PartialEq, Eq)]
pub struct BidData {
    pub bidder_pubkey: Pubkey,
    pub bid_amount: u64,
    pub timestamp: UnixTimestamp,
}

/// The last bids of a cycle in the order in which they arrived. The last one
/// is the highest bid.
pub type BidHistory = MaxLenVec<BidData, MAX_BID_HISTORY_LENGTH>;

/// The bids that a history holds, oldest first.
pub uninterp spec fn bid_history_contents(history: MaxLenVec<BidData, 10>) -> Seq<BidData>;

/// `MaxLenVec::new`: a history that holds no bid.
#[verifier::external_body]
pub(crate) fn new_bid_history() -> (history: BidHistory)
    ensures
        bid_history_contents(history) == Seq::<BidData>::empty(),
{
    MaxLenVec::new()
}

/// `MaxLenVec::clone`: a history that holds the same bids.
#[verifier::external_body]
pub(crate) fn bid_history_clone(history: &BidHistory) -> (copy: BidHistory)
    ensures
        bid_history_contents(copy) == bid_history_contents(*history),
{
    history.clone()
}

/// `MaxLenVec::len`: the number of bids that the history holds.
#[verifier::external_body]
pub(crate) fn bid_history_len(history: &BidHistory) -> (len: usize)
    ensures
        len == bid_history_contents(*history).len(),
{
    history.len()
}

/// `MaxLenVec::contents`, at one index: the bid that stands there.
#[verifier::external_body]
pub(crate) fn bid_history_get(history: &BidHistory, index: usize) -> (bid: BidData)
    requires
        index < bid_history_contents(*history).len(),
    ensures
        bid == bid_history_contents(*history)[index as int],
{
    history.contents()[index]
}

/// `MaxLenVec::get_last_element`: the bid that arrived last, where there is
/// one.
#[verifier::external_body]
pub(crate) fn bid_history_last(history: &BidHistory) -> (bid: Option<BidData>)
    ensures
        bid == if bid_history_contents(*history).len() == 0 {
            None
        } else {
            Some(bid_history_contents(*history).last())
        },
{
    history.get_last_element().copied()
}

/// `MaxLenVec::cyclic_push`: the bid is added at the end; a history that
/// holds exactly `MAX_BID_HISTORY_LENGTH` bids loses its oldest bid first.
#[verifier::external_body]
pub(crate) fn bid_history_cyclic_push(history: &mut BidHistory, bid: BidData)
    ensures
        bid_history_contents(*final(history)) == if bid_history_contents(*old(history)).len()
            == MAX_BID_HISTORY_LENGTH {
            bid_history_contents(*old(history)).drop_first().push(bid)
        } else {
            bid_history_contents(*old(history)).push(bid)
        },
{
    history.cyclic_push(bid)
}

/// Whether the amounts of `bids` grow from each bid to the next.
pub open spec fn strictly_increasing(bids: Seq<BidData>) -> bool {
    forall|i: int, j: int|
        0 <= i < j < bids.len() ==> (#[trigger] bids[i]).bid_amount < (#[trigger] bids[j]).bid_amount
}

/// The state of one cycle: the bids it has taken and the time at which it
/// ends.
#[derive(Debug)]
pub struct AuctionCycleState {
    pub bid_history: BidHistory,
    pub end_time: UnixTimestamp,
}

impl Clone for AuctionCycleState {
    fn clone(&self) -> (copy: Self)
        ensures
            copy.bids() == self.bids(),
            copy.end_time == self.end_time,
    {
        AuctionCycleState {
            bid_history: bid_history_clone(&self.bid_history),
            end_time: self.end_time,
        }
    }
}

impl AuctionCycleState {
    /// The bids of the cycle, oldest first.
    pub open spec fn bids(&self) -> Seq<BidData> {
        bid_history_contents(self.bid_history)
    }

    /// The highest bid of the cycle, where there is one.
    pub open spec fn top_bid(&self) -> Option<BidData> {
        if self.bids().len() == 0 {
            None
        } else {
            Some(self.bids().last())
        }
    }

    /// The amount staked by the highest bid; zero without a bid.
    pub open spec fn top_bid_amount(&self) -> nat {
        match self.top_bid() {
            Some(bid) => bid.bid_amount as nat,
            None => 0,
        }
    }

    /// The history is no longer than its capacity, and every bid exceeds
    /// the one before.
    pub open spec fn well_formed(&self) -> bool {
        &&& self.bids().len() <= MAX_BID_HISTORY_LENGTH
        &&& strictly_increasing(self.bids())
    }

    /// A cycle without bids that ends at `end_time`.
    pub fn new(end_time: UnixTimestamp) -> (cycle: AuctionCycleState)
        ensures
            cycle.bids() == Seq::<BidData>::empty(),
            cycle.end_time == end_time,
            cycle.well_formed(),
    {
        AuctionCycleState { bid_history: new_bid_history(), end_time }
    }

    /// The highest bid of the cycle, where there is one.
    pub fn most_recent_bid(&self) -> (bid: Option<BidData>)
        ensures
            bid == self.top_bid(),
    {
        bid_history_last(&self.bid_history)
    }

    /// Whether the record is well-formed.
    pub fn is_well_formed(&self) -> (well_formed: bool)
        ensures
            well_formed == self.well_formed(),
    {
        let len = bid_history_len(&self.bid_history);
        if len > MAX_BID_HISTORY_LENGTH {
            return false;
        }
        let mut i: usize = 1;
        while i < len
            invariant
                1 <= i,
                len == self.bids().len(),
                i <= len || len == 0,
                forall|j: int, k: int|
                    0 <= j < k < i && k < len ==> (#[trigger] self.bids()[j]).bid_amount < (
                    #[trigger] self.bids()[k]).bid_amount,
            decreases len - i,
        {
            let previous = bid_history_get(&self.bid_history, i - 1);
            let current = bid_history_get(&self.bid_history, i);
            if previous.bid_amount >= current.bid_amount {
                return false;
            }
            proof {
                assert forall|j: int, k: int| 0 <= j < k < i + 1 && k < len implies (
                #[trigger] self.bids()[j]).bid_amount < (#[trigger] self.bids()[k]).bid_amount by {
                    if k == i && j < i - 1 {
                        assert(self.bids()[j].bid_amount < self.bids()[i - 1].bid_amount);
                    }
                }
            }
            i += 1;
        }
        true
    }
}

/// The terms of an auction, fixed when it is created.
#[derive(Clone, Copy, Debug, PartialEq, Eq, Structural)]
pub struct AuctionConfig {
    /// Length of a cycle in seconds.
    pub cycle_period: UnixTimestamp,
    /// Number of cycles after which the auction is finished; none for an
    /// auction without end.
    pub number_of_cycles: Option<u64>,
}

/// Where an auction stands.
#[derive(Clone, Copy, Debug, PartialEq, Eq, Structural)]
pub struct AuctionStatus {
    /// Number of the cycle that is open, counted from one.
    pub current_auction_cycle: u64,
    /// Number of cycles in a row that were closed without a bid.
    pub current_idle_cycle_streak: u32,
    /// A frozen auction takes no bids.
    pub is_frozen: bool,
    /// A finished auction has closed its last cycle.
    pub is_finished: bool,
    /// A filtered auction is not shown. Nothing else depends on it.
    pub is_filtered: bool,
}

/// A collectible reward: one edition of a master per cycle.
#[derive(Clone, Copy, Debug, PartialEq, Eq)]
pub struct NftData {
    pub master_edition: Pubkey,
    /// Whether every edition carries the same name and address.
    pub is_repeating: bool,
}

/// A fungible reward: the same amount of tokens per cycle.
#[derive(Clone, Copy, Debug, PartialEq, Eq)]
pub struct TokenData {
    pub mint: Pubkey,
    pub decimals: u8,
    pub per_cycle_amount: u64,
}

/// The reward that the winner of a cycle receives.
#[derive(Clone, Copy, Debug, PartialEq, Eq)]
pub enum TokenConfig {
    Nft(NftData),
    Token(TokenData),
}

/// The record of an auction, which lives as long as the auction.
#[derive(Clone, Debug)]
pub struct AuctionRootState {
    pub auction_name: [u8; 32],
    pub auction_owner: Pubkey,
    pub description: String,
    pub auction_config: AuctionConfig,
    pub token_config: TokenConfig,
    pub status: AuctionStatus,
    /// Sum of the winning bids so far and of the highest bid of the open
    /// cycle.
    pub all_time_treasury: u64,
    /// What the owner may claim from the auction's bank.
    pub available_funds: u64,
    /// What the administrator may claim from the auction's bank.
    pub admin_funds: u64,
    pub start_time: UnixTimestamp,
}

impl AuctionRootState {
    /// Whether the open cycle is the last of the auction.
    pub open spec fn is_last_auction_cycle(&self) -> bool {
        match self.auction_config.number_of_cycles {
            Some(number_of_cycles) => self.status.current_auction_cycle >= number_of_cycles,
            None => false,
        }
    }
}

/// The record of the contract: who administers it and who may withdraw
/// from its bank.
#[derive(Clone, Copy, Debug, PartialEq, Eq)]
pub struct ContractBankState {
    pub contract_admin: Pubkey,
    pub withdraw_authority: Pubkey,
}

/// An entry of the registry.
#[derive(Clone, Copy, Debug, PartialEq, Eq)]
pub struct PoolEntry {
    pub auction_id: AuctionId,
    pub root_state: Pubkey,
}

/// The registry of auctions: for each identifier the address of the
/// auction's record.
#[derive(Clone, Debug)]
pub struct AuctionPool {
    /// Number of auctions the registry has room for.
    pub max_len: u32,
    pub pool: Vec<PoolEntry>,
}

impl AuctionPool {
    /// The identifiers of the registered auctions, in the order in which
    /// they were registered.
    pub open spec fn ids(&self) -> Seq<AuctionId> {
        self.pool@.map_values(|entry: PoolEntry| entry.auction_id)
    }

    /// The registry holds no more auctions than it has room for, has room
    /// for no more than `MAX_AUCTION_NUM`, and holds no identifier twice.
    pub open spec fn well_formed(&self) -> bool {
        &&& self.pool@.len() <= self.max_len <= MAX_AUCTION_NUM
        &&& self.ids().no_duplicates()
    }

    /// Whether an auction is registered under the identifier.
    pub open spec fn holds(&self, auction_id: AuctionId) -> bool {
        self.ids().contains(auction_id)
    }

    /// A registry without auctions.
    pub fn new(max_len: u32) -> (pool: AuctionPool)
        ensures
            pool.max_len == max_len,
            pool.pool@.len() == 0,
            max_len <= MAX_AUCTION_NUM ==> pool.well_formed(),
    {
        AuctionPool { max_len, pool: Vec::new() }
    }

    /// The place of the auction in the registry.
    pub fn position(&self, auction_id: &AuctionId) -> (place: Option<usize>)
        ensures
            match place {
                Some(index) => {
                    &&& index < self.pool@.len()
                    &&& self.ids()[index as int] == *auction_id
                    &&& forall|j: int| 0 <= j < index ==> self.ids()[j] != *auction_id
                },
                None => !self.holds(*auction_id),
            },
    {
        let mut i: usize = 0;
        while i < self.pool.len()
            invariant
                i <= self.pool@.len(),
                forall|j: int| 0 <= j < i ==> self.ids()[j] != *auction_id,
            decreases self.pool@.len() - i,
        {
            if same_bytes(&self.pool[i].auction_id, auction_id) {
                return Some(i);
            }
            i += 1;
        }
        None
    }

    /// Whether an auction is registered under the identifier.
    pub fn contains(&self, auction_id: &AuctionId) -> (held: bool)
        ensures
            held == self.holds(*auction_id),
    {
        match self.position(auction_id) {
            Some(index) => {
                proof {
                    assert(self.ids()[index as int] == *auction_id);
                }
                true
            },
            None => false,
        }
    }

    /// The address of the record of the auction.
    pub fn get(&self, auction_id: &AuctionId) -> (root_state: Option<Pubkey>)
        ensures
            root_state is Some <==> self.holds(*auction_id),
            root_state matches Some(address) ==> exists|i: int|
                0 <= i < self.pool@.len() && #[trigger] self.pool@[i] == (PoolEntry {
                    auction_id: *auction_id,
                    root_state: address,
                }),
    {
        match self.position(auction_id) {
            Some(index) => {
                proof {
                    assert(self.ids()[index as int] == *auction_id);
                    assert(self.pool@[index as int] == (PoolEntry {
                        auction_id: *auction_id,
                        root_state: self.pool@[index as int].root_state,
                    }));
                }
                Some(self.pool[index].root_state)
            },
            None => None,
        }
    }

    /// Registers an auction, unless its identifier is in use or the registry
    /// is full.
    pub fn try_insert(&mut self, auction_id: AuctionId, root_state: Pubkey) -> (result: Result<
        (),
        AuctionContractError,
    >)
        ensures
            final(self).max_len == old(self).max_len,
            match result {
                Ok(()) => {
                    &&& !old(self).holds(auction_id)
                    &&& old(self).pool@.len() < old(self).max_len
                    &&& final(self).pool@ == old(self).pool@.push(
                        PoolEntry { auction_id, root_state },
                    )
                },
                Err(error) => {
                    &&& final(self).pool@ == old(self).pool@
                    &&& error == if old(self).holds(auction_id) {
                        AuctionContractError::AuctionIdNotUnique
                    } else {
                        AuctionContractError::AuctionPoolFull
                    }
                    &&& old(self).holds(auction_id) || old(self).pool@.len() >= old(self).max_len
                },
            },
            old(self).well_formed() ==> final(self).well_formed(),
    {
        if self.contains(&auction_id) {
            return Err(AuctionContractError::AuctionIdNotUnique);
        }
        if self.pool.len() >= self.max_len as usize {
            return Err(AuctionContractError::AuctionPoolFull);
        }
        self.pool.push(PoolEntry { auction_id, root_state });
        proof {
            assert(final(self).ids() =~= old(self).ids().push(auction_id));
            if old(self).well_formed() {
                assert forall|i: int, j: int|
                    0 <= i < final(self).ids().len() && 0 <= j < final(self).ids().len() && i
                        != j implies final(self).ids()[i] != final(self).ids()[j] by {
                    if i < old(self).ids().len() && j < old(self).ids().len() {
                        assert(old(self).ids()[i] != old(self).ids()[j]);
                    } else if i < old(self).ids().len() {
                        assert(old(self).ids().contains(old(self).ids()[i]));
                    } else {
                        assert(old(self).ids().contains(old(self).ids()[j]));
                    }
                }
            }
        }
        Ok(())
    }

    /// Takes an auction out of the registry. Says whether it was there.
    pub fn remove(&mut self, auction_id: &AuctionId) -> (removed: bool)
        ensures
            final(self).max_len == old(self).max_len,
            removed == old(self).holds(*auction_id),
            !removed ==> final(self).pool@ == old(self).pool@,
            removed ==> exists|i: int|
                0 <= i < old(self).pool@.len() && old(self).ids()[i] == *auction_id
                    && #[trigger] old(self).pool@.remove(i) == final(self).pool@,
            old(self).well_formed() ==> final(self).well_formed() && !final(self).holds(
                *auction_id,
            ),
    {
        match self.position(auction_id) {
            Some(index) => {
                proof {
                    assert(old(self).ids()[index as int] == *auction_id);
                }
                self.pool.remove(index);
                proof {
                    assert(final(self).pool@ == old(self).pool@.remove(index as int));
                    assert(final(self).ids() =~= old(self).ids().remove(index as int));
                    if old(self).well_formed() {
                        let before = old(self).ids();
                        let after = final(self).ids();
                        assert forall|i: int, j: int|
                            0 <= i < after.len() && 0 <= j < after.len() && i != j implies after[i]
                            != after[j] by {
                            let i0 = if i < index { i } else { i + 1 };
                            let j0 = if j < index { j } else { j + 1 };
                            assert(after[i] == before[i0]);
                            assert(after[j] == before[j0]);
                        }
                        assert forall|i: int| 0 <= i < after.len() implies after[i]
                            != *auction_id by {
                            let i0 = if i < index { i } else { i + 1 };
                            assert(after[i] == before[i0]);
                            assert(before[i0] != before[index as int]);
                        }
                    }
                }
                true
            },
            None => false,
        }
    }
}

} // verus!
