//! Creating an auction.
use vstd::prelude::*;
use vstd::string::*;
use crate::error::AuctionContractError;
use crate::metadata::MetadataStateData;
use crate::pda::{
    auction_bank_seeds, auction_bank_seeds_spec, auction_cycle_state_seeds,
    auction_cycle_state_seeds_spec, auction_pool_seeds, auction_pool_seeds_spec,
    auction_root_state_seeds, auction_root_state_seeds_spec, is_program_address, verify_spec,
    SignerPda,
};
use crate::processor::{and_then, rejection, unless};
use crate::pubkey::{AuctionId, Pubkey};
use crate::state::{
    AuctionConfig, AuctionCycleState, AuctionPool, AuctionRootState, AuctionStatus, BidData,
    NftData, PoolEntry, TokenConfig, TokenData, UnixTimestamp,
};
use crate::utils::{AccountInfo, Sysvars};

verus! {

/// Maximum number of bytes in the description of an auction.
pub const MAX_DESCRIPTION_LEN: usize = 200;

/// The reward that a new auction is to hand out.
#[derive(Clone, Debug)]
pub enum CreateTokenArgs {
    /// One edition per cycle of a collectible with the given name and
    /// address.
    Nft { metadata_args: MetadataStateData, is_repeating: bool },
    /// The same amount of tokens per cycle.
    Token { decimals: u8, per_cycle_amount: u64 },
}

/// The records that creating an auction works on.
#[derive(Debug)]
pub struct InitializeAuctionAccounts {
    pub auction_owner_account: AccountInfo,
    pub auction_pool_account: AccountInfo,
    pub auction_pool: AuctionPool,
    pub auction_root_state_account: AccountInfo,
    pub auction_cycle_state_account: AccountInfo,
    pub auction_bank_account: AccountInfo,
    /// The master edition of a collectible reward, or the mint of a
    /// fungible one.
    pub reward_account: AccountInfo,
}

/// The reward configuration that the arguments ask for.
pub open spec fn token_config_of(
    create_token_args: CreateTokenArgs,
    reward_account: Pubkey,
) -> TokenConfig {
    match create_token_args {
        CreateTokenArgs::Nft { is_repeating, .. } => TokenConfig::Nft(
            NftData { master_edition: reward_account, is_repeating },
        ),
        CreateTokenArgs::Token { decimals, per_cycle_amount } => TokenConfig::Token(
            TokenData { mint: reward_account, decimals, per_cycle_amount },
        ),
    }
}

/// The time at which a new auction starts: the time asked for, or now.
pub open spec fn start_time_of(
    auction_start_timestamp: Option<UnixTimestamp>,
    sysvars: Sysvars,
) -> UnixTimestamp {
    match auction_start_timestamp {
        Some(start_time) => start_time,
        None => sysvars.unix_timestamp,
    }
}

/// Why an auction cannot be created, if it cannot.
pub open spec fn initialize_auction_rejection(
    program_id: Pubkey,
    accounts: InitializeAuctionAccounts,
    id: AuctionId,
    description: Seq<char>,
    auction_config: AuctionConfig,
    auction_start_timestamp: Option<UnixTimestamp>,
    sysvars: Sysvars,
) -> Option<AuctionContractError> {
    and_then(
        unless(accounts.auction_owner_account.is_signer, AuctionContractError::MissingSignature),
        and_then(
            rejection(
                verify_spec(
                    auction_pool_seeds_spec(),
                    program_id,
                    program_id,
                    accounts.auction_pool_account,
                ),
            ),
            and_then(
                unless(
                    is_program_address(
                        auction_root_state_seeds_spec(id),
                        program_id,
                        accounts.auction_root_state_account.key,
                    ) && is_program_address(
                        auction_cycle_state_seeds_spec(accounts.auction_root_state_account.key, 1),
                        program_id,
                        accounts.auction_cycle_state_account.key,
                    ) && is_program_address(
                        auction_bank_seeds_spec(id),
                        program_id,
                        accounts.auction_bank_account.key,
                    ),
                    AuctionContractError::InvalidSeeds,
                ),
                and_then(
                    unless(
                        accounts.auction_root_state_account.data_is_empty
                            && accounts.auction_cycle_state_account.data_is_empty,
                        AuctionContractError::AccountAlreadyInitialized,
                    ),
                    and_then(
                        unless(
                            auction_config.cycle_period > 0 && auction_config.number_of_cycles
                                != Some(0u64),
                            AuctionContractError::InvalidCyclePeriod,
                        ),
                        and_then(
                            unless(
                                vstd::utf8::encode_utf8(description).len() <= MAX_DESCRIPTION_LEN,
                                AuctionContractError::InvalidDescriptionLength,
                            ),
                            and_then(
                                unless(
                                    start_time_of(auction_start_timestamp, sysvars)
                                        + auction_config.cycle_period <= i64::MAX,
                                    AuctionContractError::ArithmeticError,
                                ),
                                and_then(
                                    unless(
                                        !accounts.auction_pool.holds(id),
                                        AuctionContractError::AuctionIdNotUnique,
                                    ),
                                    unless(
                                        accounts.auction_pool.pool@.len()
                                            < accounts.auction_pool.max_len,
                                        AuctionContractError::AuctionPoolFull,
                                    ),
                                ),
                            ),
                        ),
                    ),
                ),
            ),
        ),
    )
}

/// What creating an auction gives: the record of the auction, with its
/// first cycle open and nothing earned yet, and the record of that cycle,
/// without bids and ending one period after the start. The registry lists
/// the auction.
pub open spec fn initialize_auction_fits(
    program_id: Pubkey,
    before: InitializeAuctionAccounts,
    after: InitializeAuctionAccounts,
    id: AuctionId,
    auction_name: [u8; 32],
    description: Seq<char>,
    auction_config: AuctionConfig,
    create_token_args: CreateTokenArgs,
    auction_start_timestamp: Option<UnixTimestamp>,
    sysvars: Sysvars,
    result: Result<(AuctionRootState, AuctionCycleState), AuctionContractError>,
) -> bool {
    match initialize_auction_rejection(
        program_id,
        before,
        id,
        description,
        auction_config,
        auction_start_timestamp,
        sysvars,
    ) {
        Some(error) => {
            &&& result == Err::<(AuctionRootState, AuctionCycleState), AuctionContractError>(error)
            &&& after == before
        },
        None => {
            let start_time = start_time_of(auction_start_timestamp, sysvars);
            &&& result matches Ok((root_state, cycle_state))
            &&& root_state.auction_name == auction_name
            &&& root_state.auction_owner == before.auction_owner_account.key
            &&& root_state.description@ == description
            &&& root_state.auction_config == auction_config
            &&& root_state.token_config == token_config_of(
                create_token_args,
                before.reward_account.key,
            )
            &&& root_state.status == (AuctionStatus {
                current_auction_cycle: 1,
                current_idle_cycle_streak: 0,
                is_frozen: false,
                is_finished: false,
                is_filtered: false,
            })
            &&& root_state.all_time_treasury == 0
            &&& root_state.available_funds == 0
            &&& root_state.admin_funds == 0
            &&& root_state.start_time == start_time
            &&& cycle_state.bids() == Seq::<BidData>::empty()
            &&& cycle_state.end_time == start_time + auction_config.cycle_period
            &&& after.auction_pool.max_len == before.auction_pool.max_len
            &&& after.auction_pool.pool@ == before.auction_pool.pool@.push(
                PoolEntry { auction_id: id, root_state: before.auction_root_state_account.key },
            )
            &&& before.auction_pool.well_formed() ==> after.auction_pool.well_formed()
            &&& after == (InitializeAuctionAccounts { auction_pool: after.auction_pool, ..before })
        },
    }
}

/// Checks the records and the terms of a new auction.
fn check_initialize_auction(
    program_id: &Pubkey,
    accounts: &InitializeAuctionAccounts,
    id: &AuctionId,
    description: &String,
    auction_config: &AuctionConfig,
    auction_start_timestamp: Option<UnixTimestamp>,
    sysvars: &Sysvars,
) -> (result: Result<(UnixTimestamp, UnixTimestamp), AuctionContractError>)
    ensures
        match initialize_auction_rejection(
            *program_id,
            *accounts,
            *id,
            description@,
            *auction_config,
            auction_start_timestamp,
            *sysvars,
        ) {
            Some(error) => result == Err::<(UnixTimestamp, UnixTimestamp), AuctionContractError>(
                error,
            ),
            None => {
                &&& result matches Ok((start_time, end_time))
                &&& start_time == start_time_of(auction_start_timestamp, *sysvars)
                &&& end_time == start_time + auction_config.cycle_period
                &&& !accounts.auction_pool.holds(*id)
                &&& accounts.auction_pool.pool@.len() < accounts.auction_pool.max_len
            },
        },
{
    if !accounts.auction_owner_account.is_signer {
        return Err(AuctionContractError::MissingSignature);
    }
    SignerPda::check_owner(
        &auction_pool_seeds(),
        program_id,
        program_id,
        &accounts.auction_pool_account,
    )?;
    if SignerPda::new_checked(
        auction_root_state_seeds(id),
        program_id,
        &accounts.auction_root_state_account,
    ).is_err() {
        return Err(AuctionContractError::InvalidSeeds);
    }
    if SignerPda::new_checked(
        auction_cycle_state_seeds(&accounts.auction_root_state_account.key, 1),
        program_id,
        &accounts.auction_cycle_state_account,
    ).is_err() {
        return Err(AuctionContractError::InvalidSeeds);
    }
    if SignerPda::new_checked(auction_bank_seeds(id), program_id, &accounts.auction_bank_account)
        .is_err() {
        return Err(AuctionContractError::InvalidSeeds);
    }
    if !accounts.auction_root_state_account.data_is_empty
        || !accounts.auction_cycle_state_account.data_is_empty {
        return Err(AuctionContractError::AccountAlreadyInitialized);
    }
    if auction_config.cycle_period <= 0 {
        return Err(AuctionContractError::InvalidCyclePeriod);
    }
    if let Some(number_of_cycles) = auction_config.number_of_cycles {
        if number_of_cycles == 0 {
            return Err(AuctionContractError::InvalidCyclePeriod);
        }
    }
    if description.as_str().as_bytes().len() > MAX_DESCRIPTION_LEN {
        return Err(AuctionContractError::InvalidDescriptionLength);
    }
    let start_time = match auction_start_timestamp {
        Some(start_time) => start_time,
        None => sysvars.unix_timestamp,
    };
    let end_time = match start_time.checked_add(auction_config.cycle_period) {
        Some(end_time) => end_time,
        None => {
            return Err(AuctionContractError::ArithmeticError);
        },
    };
    if accounts.auction_pool.contains(id) {
        return Err(AuctionContractError::AuctionIdNotUnique);
    }
    if accounts.auction_pool.pool.len() >= accounts.auction_pool.max_len as usize {
        return Err(AuctionContractError::AuctionPoolFull);
    }
    Ok((start_time, end_time))
}

/// Creates an auction: gives the record of the auction and that of its
/// first cycle, which are to be created, and lists the auction in the
/// registry.
pub fn initialize_auction(
    program_id: &Pubkey,
    accounts: &mut InitializeAuctionAccounts,
    id: AuctionId,
    auction_name: [u8; 32],
    description: String,
    auction_config: AuctionConfig,
    create_token_args: CreateTokenArgs,
    auction_start_timestamp: Option<UnixTimestamp>,
    sysvars: &Sysvars,
) -> (result: Result<(AuctionRootState, AuctionCycleState), AuctionContractError>)
    ensures
        initialize_auction_fits(
            *program_id,
            *old(accounts),
            *final(accounts),
            id,
            auction_name,
            description@,
            auction_config,
            create_token_args,
            auction_start_timestamp,
            *sysvars,
            result,
        ),
{
    let (start_time, end_time) = check_initialize_auction(
        program_id,
        accounts,
        &id,
        &description,
        &auction_config,
        auction_start_timestamp,
        sysvars,
    )?;
    let token_config = match create_token_args {
        CreateTokenArgs::Nft { metadata_args: _, is_repeating } => TokenConfig::Nft(
            NftData { master_edition: accounts.reward_account.key, is_repeating },
        ),
        CreateTokenArgs::Token { decimals, per_cycle_amount } => TokenConfig::Token(
            TokenData { mint: accounts.reward_account.key, decimals, per_cycle_amount },
        ),
    };
    let registered = accounts.auction_pool.try_insert(id, accounts.auction_root_state_account.key);
    assert(registered is Ok);
    let root_state = AuctionRootState {
        auction_name,
        auction_owner: accounts.auction_owner_account.key,
        description,
        auction_config,
        token_config,
        status: AuctionStatus {
            current_auction_cycle: 1,
            current_idle_cycle_streak: 0,
            is_frozen: false,
            is_finished: false,
            is_filtered: false,
        },
        all_time_treasury: 0,
        available_funds: 0,
        admin_funds: 0,
        start_time,
    };
    Ok((root_state, AuctionCycleState::new(end_time)))
}

} // verus!
