//! Closing a cycle: the highest bid is settled, the reward is issued, and
//! the next cycle opens.
use vstd::prelude::*;
use vstd::utf8::*;
use crate::error::AuctionContractError;
use crate::metadata::{increment_uri, incremented_uri, MetadataStateData};
use crate::pda::{
    auction_bank_seeds, auction_bank_seeds_spec, auction_cycle_state_seeds,
    auction_cycle_state_seeds_spec, auction_root_state_seeds, auction_root_state_seeds_spec,
    child_holding_seeds, child_holding_seeds_spec, child_mint_seeds, child_mint_seeds_spec,
    contract_pda_seeds, contract_pda_seeds_spec, is_program_address, master_holding_seeds,
    master_holding_seeds_spec, master_mint_seeds, master_mint_seeds_spec, metadata_seeds,
    metadata_seeds_spec, token_holding_seeds, token_holding_seeds_spec, token_mint_seeds,
    token_mint_seeds_spec, verify_spec, SignerPda,
};
use crate::processor::{and_then, rejection, unless};
use crate::pubkey::{AuctionId, Pubkey, META_ID, RENT_SYSVAR_ID, SYSTEM_PROGRAM_ID, TOKEN_ID};
use crate::state::{
    AuctionCycleState, AuctionRootState, AuctionStatus, BidData, NftData, TokenConfig, TokenData,
    UnixTimestamp,
};
use crate::utils::{
    assert_metaplex_program, assert_rent_program, assert_system_program, assert_token_program,
    check_status, is_last_auction_cycle, status_allows, AccountInfo, AuctionInteraction, Sysvars,
};

verus! {

/// Time for which an auction may stay without bids before it is hidden:
/// a week.
pub const ALLOWED_AUCTION_IDLE_PERIOD: UnixTimestamp = 604_800;

/// Number of cycles in a row that may close without a bid before the auction
/// is hidden.
pub const ALLOWED_CONSECUTIVE_IDLE_CYCLES: u32 = 10;

/// Of every twenty parts of a winning bid, the owner receives nineteen.
pub const OWNER_SHARE_PARTS: u64 = 19;

/// The number of parts into which a winning bid is split.
pub const SHARE_PARTS: u64 = 20;

/// The most that rounding may cost the owner of an auction.
pub const OWNER_SHARE_TOLERANCE: u64 = 19;

/// The records of a collectible reward.
#[derive(Clone, Debug)]
pub struct NftRewardAccounts {
    pub metadata_program: AccountInfo,
    pub child_edition_marker_account: AccountInfo,
    pub child_metadata_account: AccountInfo,
    pub child_mint_account: AccountInfo,
    pub child_holding_account: AccountInfo,
    pub master_edition_account: AccountInfo,
    pub master_metadata_account: AccountInfo,
    pub master_mint_account: AccountInfo,
    pub master_holding_account: AccountInfo,
    /// Number of editions issued from the master so far.
    pub master_edition_supply: u64,
    /// Who may issue units of the master's mint.
    pub master_mint_authority: Option<Pubkey>,
    /// To whom the master belongs.
    pub master_holding_owner: Pubkey,
    /// Name and address of the master.
    pub master_metadata: MetadataStateData,
}

/// The records of a fungible reward.
#[derive(Clone, Copy, Debug)]
pub struct TokenRewardAccounts {
    pub token_mint_account: AccountInfo,
    pub token_holding_account: AccountInfo,
    /// Who may issue units of the mint.
    pub token_mint_authority: Option<Pubkey>,
}

/// The records of the reward of an auction.
#[derive(Clone, Debug)]
pub enum RewardAccounts {
    Nft(NftRewardAccounts),
    Token(TokenRewardAccounts),
}

/// The records that closing a cycle works on.
#[derive(Debug)]
pub struct CloseAuctionCycleAccounts {
    pub payer_account: AccountInfo,
    pub auction_bank_account: AccountInfo,
    pub auction_owner_account: AccountInfo,
    pub auction_root_state_account: AccountInfo,
    pub auction_root_state: AuctionRootState,
    pub current_auction_cycle_state_account: AccountInfo,
    pub current_auction_cycle_state: AuctionCycleState,
    pub next_auction_cycle_state_account: AccountInfo,
    pub top_bidder_account: AccountInfo,
    pub contract_pda: AccountInfo,
    pub rent_program: AccountInfo,
    pub system_program: AccountInfo,
    pub token_program: AccountInfo,
    pub reward_accounts: RewardAccounts,
}

/// What the winner of a cycle is to receive.
#[derive(Debug)]
pub enum Reward {
    /// The edition of the collectible with the given number. Where the name
    /// and address of the master change with it, they are given too.
    Nft { edition: u64, master_metadata: Option<MetadataStateData> },
    /// An amount of tokens, into an account that may have to be created.
    Token { mint: Pubkey, amount: u64, create_holding_account: bool },
}

/// How a cycle was settled.
#[derive(Debug)]
pub struct Settlement {
    /// Who placed the highest bid.
    pub winner: Pubkey,
    /// What is to be issued to the winner.
    pub reward: Reward,
    /// The record of the cycle that opens; none when the auction is finished.
    pub next_auction_cycle_state: Option<AuctionCycleState>,
}

/// How a cycle was closed.
#[derive(Debug)]
pub enum CycleClosure {
    /// Nobody had bid: the cycle goes on for another period.
    Idle,
    /// The highest bid won.
    Settled(Settlement),
}

/// The part of a winning bid that goes to the owner of the auction:
/// nineteen twentieths, rounded down to a multiple of nineteen.
pub open spec fn owner_share(amount: u64) -> u64 {
    (amount / SHARE_PARTS * OWNER_SHARE_PARTS) as u64
}

/// The part of a winning bid that goes to the administrator: the rest.
pub open spec fn admin_share(amount: u64) -> u64 {
    (amount - owner_share(amount)) as u64
}

/// The two parts of a winning bid make up the bid, and rounding costs the
/// owner less than `OWNER_SHARE_TOLERANCE`: twenty times the owner's share
/// is at most nineteen times the bid, and less than twenty times the
/// tolerance below it.
pub proof fn lemma_shares(amount: u64)
    ensures
        owner_share(amount) + admin_share(amount) == amount,
        SHARE_PARTS * owner_share(amount) <= OWNER_SHARE_PARTS * amount,
        OWNER_SHARE_PARTS * amount - SHARE_PARTS * owner_share(amount) < SHARE_PARTS
            * OWNER_SHARE_TOLERANCE,
        amount % SHARE_PARTS == 0 ==> SHARE_PARTS * owner_share(amount) == OWNER_SHARE_PARTS
            * amount,
{
    let twentieth = amount / 20;
    assert(amount == 20 * twentieth + amount % 20);
    assert(twentieth * 19 <= u64::MAX);
}

/// Splits a winning bid between the owner and the administrator.
pub fn split_bid(amount: u64) -> (shares: (u64, u64))
    ensures
        shares.0 == owner_share(amount),
        shares.1 == admin_share(amount),
{
    proof {
        lemma_shares(amount);
    }
    let owner = amount / SHARE_PARTS * OWNER_SHARE_PARTS;
    (owner, amount - owner)
}

/// Whether an auction that has been idle for `streak` cycles of
/// `cycle_period` seconds is hidden.
pub open spec fn idle_too_long(cycle_period: UnixTimestamp, streak: u32) -> bool {
    cycle_period * streak > ALLOWED_AUCTION_IDLE_PERIOD || streak
        > ALLOWED_CONSECUTIVE_IDLE_CYCLES
}

/// Why a cycle without bids cannot go on for another period: a number
/// leaves its type.
pub open spec fn idle_streak_rejection(
    root_state: AuctionRootState,
    cycle_state: AuctionCycleState,
) -> Option<AuctionContractError> {
    unless(
        cycle_state.end_time + root_state.auction_config.cycle_period <= i64::MAX
            && cycle_state.end_time + root_state.auction_config.cycle_period >= i64::MIN
            && root_state.status.current_idle_cycle_streak < u32::MAX
            && i64::MIN <= root_state.auction_config.cycle_period * (
            root_state.status.current_idle_cycle_streak + 1) <= i64::MAX,
        AuctionContractError::ArithmeticError,
    )
}

/// Lets a cycle without bids go on for another period, and hides an auction
/// that has been idle for too long.
pub fn increment_idle_streak(
    current_auction_cycle_state: &mut AuctionCycleState,
    auction_root_state: &mut AuctionRootState,
) -> (result: Result<(), AuctionContractError>)
    ensures
        match idle_streak_rejection(*old(auction_root_state), *old(current_auction_cycle_state)) {
            Some(error) => {
                &&& result == Err::<(), AuctionContractError>(error)
                &&& *final(auction_root_state) == *old(auction_root_state)
                &&& *final(current_auction_cycle_state) == *old(current_auction_cycle_state)
            },
            None => {
                &&& result is Ok
                &&& *final(current_auction_cycle_state) == (AuctionCycleState {
                    end_time: (old(current_auction_cycle_state).end_time + old(
                        auction_root_state,
                    ).auction_config.cycle_period) as i64,
                    ..*old(current_auction_cycle_state)
                })
                &&& *final(auction_root_state) == (AuctionRootState {
                    status: AuctionStatus {
                        current_idle_cycle_streak: (old(
                            auction_root_state,
                        ).status.current_idle_cycle_streak + 1) as u32,
                        is_filtered: old(auction_root_state).status.is_filtered || idle_too_long(
                            old(auction_root_state).auction_config.cycle_period,
                            (old(auction_root_state).status.current_idle_cycle_streak + 1) as u32,
                        ),
                        ..old(auction_root_state).status
                    },
                    ..*old(auction_root_state)
                })
            },
        },
{
    let cycle_period = auction_root_state.auction_config.cycle_period;
    let end_time = match current_auction_cycle_state.end_time.checked_add(cycle_period) {
        Some(end_time) => end_time,
        None => {
            return Err(AuctionContractError::ArithmeticError);
        },
    };
    let streak = match auction_root_state.status.current_idle_cycle_streak.checked_add(1) {
        Some(streak) => streak,
        None => {
            return Err(AuctionContractError::ArithmeticError);
        },
    };
    let idle_period = match cycle_period.checked_mul(streak as i64) {
        Some(idle_period) => idle_period,
        None => {
            return Err(AuctionContractError::ArithmeticError);
        },
    };
    current_auction_cycle_state.end_time = end_time;
    auction_root_state.status.current_idle_cycle_streak = streak;
    // an auction that was idle for more than a week is filtered automatically
    if idle_period > ALLOWED_AUCTION_IDLE_PERIOD || streak > ALLOWED_CONSECUTIVE_IDLE_CYCLES {
        auction_root_state.status.is_filtered = true;
    }
    Ok(())
}

/// The address of the service that keeps tokens.
pub open spec fn token_program() -> Pubkey {
    Pubkey { bytes: TOKEN_ID }
}

/// The address of the service that keeps the names and editions of
/// collectibles.
pub open spec fn metadata_program() -> Pubkey {
    Pubkey { bytes: META_ID }
}

/// Why the edition with the given number cannot be issued, if it cannot.
pub open spec fn nft_reward_rejection(
    program_id: Pubkey,
    contract_pda: Pubkey,
    nft: NftRewardAccounts,
    nft_data: NftData,
    auction_id: AuctionId,
    edition: u64,
    is_last_cycle: bool,
) -> Option<AuctionContractError> {
    and_then(
        unless(
            nft.child_edition_marker_account.data_is_empty
                || nft.child_edition_marker_account.owner == metadata_program(),
            AuctionContractError::InvalidAccountOwner,
        ),
        and_then(
            unless(
                nft.master_edition_account.owner == metadata_program(),
                AuctionContractError::InvalidAccountOwner,
            ),
            and_then(
                unless(
                    nft.master_holding_owner == contract_pda,
                    AuctionContractError::InvalidAccountOwner,
                ),
                and_then(
                    unless(
                        nft.master_mint_authority == Some(nft.master_edition_account.key),
                        AuctionContractError::InvalidAccountOwner,
                    ),
                    and_then(
                        unless(
                            nft.metadata_program.key == metadata_program(),
                            AuctionContractError::InvalidProgramAddress,
                        ),
                        nft_reward_address_rejection(
                            program_id,
                            nft,
                            nft_data,
                            auction_id,
                            edition,
                            is_last_cycle,
                        ),
                    ),
                ),
            ),
        ),
    )
}

/// The checks on a collectible reward that follow those on who holds its
/// records.
pub open spec fn nft_reward_address_rejection(
    program_id: Pubkey,
    nft: NftRewardAccounts,
    nft_data: NftData,
    auction_id: AuctionId,
    edition: u64,
    is_last_cycle: bool,
) -> Option<AuctionContractError> {
    and_then(
        unless(
            is_program_address(
                child_mint_seeds_spec(edition, auction_id),
                program_id,
                nft.child_mint_account.key,
            ) && is_program_address(
                child_holding_seeds_spec(edition, auction_id),
                program_id,
                nft.child_holding_account.key,
            ),
            AuctionContractError::InvalidSeeds,
        ),
        and_then(
            rejection(
                verify_spec(
                    master_mint_seeds_spec(auction_id),
                    program_id,
                    token_program(),
                    nft.master_mint_account,
                ),
            ),
            and_then(
                rejection(
                    verify_spec(
                        master_holding_seeds_spec(auction_id),
                        program_id,
                        token_program(),
                        nft.master_holding_account,
                    ),
                ),
                and_then(
                    rejection(
                        verify_spec(
                            metadata_seeds_spec(nft.master_mint_account.key),
                            metadata_program(),
                            metadata_program(),
                            nft.master_metadata_account,
                        ),
                    ),
                    nft_reward_edition_rejection(nft, nft_data, edition, is_last_cycle),
                ),
            ),
        ),
    )
}

/// The checks on the edition that is to be issued.
pub open spec fn nft_reward_edition_rejection(
    nft: NftRewardAccounts,
    nft_data: NftData,
    edition: u64,
    is_last_cycle: bool,
) -> Option<AuctionContractError> {
    and_then(
        unless(
            nft_data.master_edition == nft.master_edition_account.key,
            AuctionContractError::MasterEditionMismatch,
        ),
        and_then(
            unless(edition >= 1, AuctionContractError::ArithmeticError),
            and_then(
                unless(
                    nft.master_edition_supply == edition - 1,
                    AuctionContractError::ChildEditionNumberMismatch,
                ),
                and_then(
                    unless(
                        nft.child_metadata_account.data_is_empty,
                        AuctionContractError::NftAlreadyExists,
                    ),
                    if nft_data.is_repeating {
                        None
                    } else {
                        match incremented_uri(
                            encode_utf8(nft.master_metadata.uri@),
                            is_last_cycle,
                        ) {
                            Ok(_) => None,
                            Err(error) => Some(error),
                        }
                    },
                ),
            ),
        ),
    )
}

/// Whether `reward` is the edition with the given number, together with the
/// name and address that the master takes on where editions differ: the
/// address with its counter advanced, or set to zero behind the last cycle.
pub open spec fn nft_reward_fits(
    reward: Reward,
    nft: NftRewardAccounts,
    nft_data: NftData,
    edition: u64,
    is_last_cycle: bool,
) -> bool {
    match reward {
        Reward::Nft { edition: issued, master_metadata } => {
            &&& issued == edition
            &&& match master_metadata {
                None => nft_data.is_repeating,
                Some(metadata) => {
                    &&& !nft_data.is_repeating
                    &&& metadata.name@ == nft.master_metadata.name@
                    &&& metadata.symbol@ == nft.master_metadata.symbol@
                    &&& incremented_uri(encode_utf8(nft.master_metadata.uri@), is_last_cycle)
                        == Ok::<Seq<u8>, AuctionContractError>(encode_utf8(metadata.uri@))
                },
            }
        },
        Reward::Token { .. } => false,
    }
}

/// Checks the records of a collectible reward, and says what is to be
/// issued.
fn prepare_nft_reward(
    program_id: &Pubkey,
    contract_pda: &AccountInfo,
    nft: &NftRewardAccounts,
    nft_data: &NftData,
    auction_id: &AuctionId,
    next_edition: u64,
    is_last_cycle: bool,
) -> (result: Result<Reward, AuctionContractError>)
    ensures
        match nft_reward_rejection(
            *program_id,
            contract_pda.key,
            *nft,
            *nft_data,
            *auction_id,
            next_edition,
            is_last_cycle,
        ) {
            Some(error) => result == Err::<Reward, AuctionContractError>(error),
            None => result is Ok && nft_reward_fits(
                result->Ok_0,
                *nft,
                *nft_data,
                next_edition,
                is_last_cycle,
            ),
        },
{
    let meta_id = Pubkey::new_from_array(META_ID);
    let token_id = Pubkey::new_from_array(TOKEN_ID);
    if !nft.child_edition_marker_account.data_is_empty && nft.child_edition_marker_account.owner
        != meta_id {
        return Err(AuctionContractError::InvalidAccountOwner);
    }
    if nft.master_edition_account.owner != meta_id {
        return Err(AuctionContractError::InvalidAccountOwner);
    }
    if nft.master_holding_owner != contract_pda.key {
        return Err(AuctionContractError::InvalidAccountOwner);
    }
    match nft.master_mint_authority {
        Some(authority) => {
            if authority != nft.master_edition_account.key {
                return Err(AuctionContractError::InvalidAccountOwner);
            }
        },
        None => {
            return Err(AuctionContractError::InvalidAccountOwner);
        },
    }
    assert_metaplex_program(&nft.metadata_program.key)?;

    if SignerPda::new_checked(
        child_mint_seeds(next_edition, auction_id),
        program_id,
        &nft.child_mint_account,
    ).is_err() {
        return Err(AuctionContractError::InvalidSeeds);
    }
    if SignerPda::new_checked(
        child_holding_seeds(next_edition, auction_id),
        program_id,
        &nft.child_holding_account,
    ).is_err() {
        return Err(AuctionContractError::InvalidSeeds);
    }
    SignerPda::check_owner(
        &master_mint_seeds(auction_id),
        program_id,
        &token_id,
        &nft.master_mint_account,
    )?;
    SignerPda::check_owner(
        &master_holding_seeds(auction_id),
        program_id,
        &token_id,
        &nft.master_holding_account,
    )?;
    SignerPda::check_owner(
        &metadata_seeds(&nft.master_mint_account.key),
        &meta_id,
        &meta_id,
        &nft.master_metadata_account,
    )?;

    // check nft validity
    if nft_data.master_edition != nft.master_edition_account.key {
        return Err(AuctionContractError::MasterEditionMismatch);
    }
    let current_edition = match next_edition.checked_sub(1) {
        Some(current_edition) => current_edition,
        None => {
            return Err(AuctionContractError::ArithmeticError);
        },
    };
    if nft.master_edition_supply != current_edition {
        return Err(AuctionContractError::ChildEditionNumberMismatch);
    }
    if !nft.child_metadata_account.data_is_empty {
        return Err(AuctionContractError::NftAlreadyExists);
    }
    // change master metadata so that the child can inherit it;
    // behind the last cycle the counter is set to zero
    let master_metadata = if nft_data.is_repeating {
        None
    } else {
        let mut uri = nft.master_metadata.uri.clone();
        increment_uri(&mut uri, is_last_cycle)?;
        Some(
            MetadataStateData {
                name: nft.master_metadata.name.clone(),
                symbol: nft.master_metadata.symbol.clone(),
                uri,
            },
        )
    };
    Ok(Reward::Nft { edition: next_edition, master_metadata })
}

/// Why the tokens of a cycle cannot be issued, if they cannot.
pub open spec fn token_reward_rejection(
    program_id: Pubkey,
    contract_pda: Pubkey,
    top_bidder: Pubkey,
    token: TokenRewardAccounts,
    token_data: TokenData,
    auction_id: AuctionId,
) -> Option<AuctionContractError> {
    and_then(
        unless(
            token.token_mint_authority == Some(contract_pda),
            AuctionContractError::InvalidAccountOwner,
        ),
        and_then(
            rejection(
                verify_spec(
                    token_mint_seeds_spec(auction_id),
                    program_id,
                    token_program(),
                    token.token_mint_account,
                ),
            ),
            and_then(
                unless(
                    token.token_mint_account.key == token_data.mint,
                    AuctionContractError::InvalidSeeds,
                ),
                unless(
                    is_program_address(
                        token_holding_seeds_spec(token.token_mint_account.key, top_bidder),
                        program_id,
                        token.token_holding_account.key,
                    ),
                    AuctionContractError::InvalidSeeds,
                ),
            ),
        ),
    )
}

/// Whether `reward` is the amount of tokens of one cycle, into an account
/// that is created where it does not exist.
pub open spec fn token_reward_fits(
    reward: Reward,
    token: TokenRewardAccounts,
    token_data: TokenData,
) -> bool {
    match reward {
        Reward::Token { mint, amount, create_holding_account } => {
            &&& mint == token_data.mint
            &&& amount == token_data.per_cycle_amount
            &&& create_holding_account == token.token_holding_account.data_is_empty
        },
        Reward::Nft { .. } => false,
    }
}

/// Checks the records of a fungible reward, and says what is to be issued.
fn prepare_token_reward(
    program_id: &Pubkey,
    contract_pda: &AccountInfo,
    top_bidder: &AccountInfo,
    token: &TokenRewardAccounts,
    token_data: &TokenData,
    auction_id: &AuctionId,
) -> (result: Result<Reward, AuctionContractError>)
    ensures
        match token_reward_rejection(
            *program_id,
            contract_pda.key,
            top_bidder.key,
            *token,
            *token_data,
            *auction_id,
        ) {
            Some(error) => result == Err::<Reward, AuctionContractError>(error),
            None => result is Ok && token_reward_fits(result->Ok_0, *token, *token_data),
        },
{
    let token_id = Pubkey::new_from_array(TOKEN_ID);
    match token.token_mint_authority {
        Some(authority) => {
            if authority != contract_pda.key {
                return Err(AuctionContractError::InvalidAccountOwner);
            }
        },
        None => {
            return Err(AuctionContractError::InvalidAccountOwner);
        },
    }
    SignerPda::check_owner(
        &token_mint_seeds(auction_id),
        program_id,
        &token_id,
        &token.token_mint_account,
    )?;
    if token.token_mint_account.key != token_data.mint {
        return Err(AuctionContractError::InvalidSeeds);
    }
    if SignerPda::new_checked(
        token_holding_seeds(&token.token_mint_account.key, &top_bidder.key),
        program_id,
        &token.token_holding_account,
    ).is_err() {
        return Err(AuctionContractError::InvalidSeeds);
    }
    Ok(
        Reward::Token {
            mint: token_data.mint,
            amount: token_data.per_cycle_amount,
            create_holding_account: token.token_holding_account.data_is_empty,
        },
    )
}

/// Why the reward of the open cycle cannot be issued, if it cannot.
pub open spec fn reward_rejection(
    program_id: Pubkey,
    accounts: CloseAuctionCycleAccounts,
    auction_id: AuctionId,
) -> Option<AuctionContractError> {
    match (accounts.auction_root_state.token_config, accounts.reward_accounts) {
        (TokenConfig::Nft(nft_data), RewardAccounts::Nft(nft)) => nft_reward_rejection(
            program_id,
            accounts.contract_pda.key,
            nft,
            nft_data,
            auction_id,
            accounts.auction_root_state.status.current_auction_cycle,
            accounts.auction_root_state.is_last_auction_cycle(),
        ),
        (TokenConfig::Token(token_data), RewardAccounts::Token(token)) => token_reward_rejection(
            program_id,
            accounts.contract_pda.key,
            accounts.top_bidder_account.key,
            token,
            token_data,
            auction_id,
        ),
        _ => Some(AuctionContractError::TokenConfigMismatch),
    }
}

/// Whether `reward` is the reward of the open cycle.
pub open spec fn reward_fits(reward: Reward, accounts: CloseAuctionCycleAccounts) -> bool {
    match (accounts.auction_root_state.token_config, accounts.reward_accounts) {
        (TokenConfig::Nft(nft_data), RewardAccounts::Nft(nft)) => nft_reward_fits(
            reward,
            nft,
            nft_data,
            accounts.auction_root_state.status.current_auction_cycle,
            accounts.auction_root_state.is_last_auction_cycle(),
        ),
        (TokenConfig::Token(token_data), RewardAccounts::Token(token)) => token_reward_fits(
            reward,
            token,
            token_data,
        ),
        _ => false,
    }
}

/// The checks that come before the bids are looked at: the payer has signed,
/// the services are the expected ones, the records of the auction, of its
/// open cycle and of its bank sit where they belong, the owner is the owner,
/// and the cycle is over.
pub open spec fn close_cycle_access_rejection(
    program_id: Pubkey,
    accounts: CloseAuctionCycleAccounts,
    auction_id: AuctionId,
    current_timestamp: UnixTimestamp,
) -> Option<AuctionContractError> {
    and_then(
        unless(accounts.payer_account.is_signer, AuctionContractError::MissingSignature),
        and_then(
            unless(
                accounts.rent_program.key.bytes == RENT_SYSVAR_ID
                    && accounts.system_program.key.bytes == SYSTEM_PROGRAM_ID
                    && accounts.token_program.key.bytes == TOKEN_ID,
                AuctionContractError::InvalidProgramAddress,
            ),
            and_then(
                rejection(
                    verify_spec(
                        auction_root_state_seeds_spec(auction_id),
                        program_id,
                        program_id,
                        accounts.auction_root_state_account,
                    ),
                ),
                and_then(
                    rejection(
                        verify_spec(
                            auction_cycle_state_seeds_spec(
                                accounts.auction_root_state_account.key,
                                accounts.auction_root_state.status.current_auction_cycle,
                            ),
                            program_id,
                            program_id,
                            accounts.current_auction_cycle_state_account,
                        ),
                    ),
                    and_then(
                        unless(
                            accounts.auction_owner_account.key
                                == accounts.auction_root_state.auction_owner,
                            AuctionContractError::AuctionOwnerMismatch,
                        ),
                        and_then(
                            unless(
                                status_allows(
                                    accounts.auction_root_state,
                                    accounts.current_auction_cycle_state,
                                    current_timestamp,
                                    AuctionInteraction::CloseCycle,
                                ),
                                AuctionContractError::StatusError,
                            ),
                            rejection(
                                verify_spec(
                                    auction_bank_seeds_spec(auction_id),
                                    program_id,
                                    program_id,
                                    accounts.auction_bank_account,
                                ),
                            ),
                        ),
                    ),
                ),
            ),
        ),
    )
}

/// What the owner may claim once the highest bid has been settled: what was
/// there, the owner's share of the bid and, behind the last cycle, the
/// deposit of the bank.
pub open spec fn settled_available_funds(
    root_state: AuctionRootState,
    bid_amount: u64,
    sysvars: Sysvars,
) -> int {
    root_state.available_funds + owner_share(bid_amount) + if root_state.is_last_auction_cycle() {
        sysvars.rent_exempt_minimum as int
    } else {
        0
    }
}

/// Why the highest bid cannot be settled, if it cannot.
pub open spec fn settlement_rejection(
    program_id: Pubkey,
    accounts: CloseAuctionCycleAccounts,
    auction_id: AuctionId,
    sysvars: Sysvars,
    bid: BidData,
) -> Option<AuctionContractError> {
    let root_state = accounts.auction_root_state;
    and_then(
        unless(
            accounts.top_bidder_account.key == bid.bidder_pubkey,
            AuctionContractError::TopBidderAccountMismatch,
        ),
        and_then(
            unless(
                root_state.available_funds + owner_share(bid.bid_amount) <= u64::MAX
                    && root_state.admin_funds + admin_share(bid.bid_amount) <= u64::MAX
                    && root_state.status.current_auction_cycle < u64::MAX,
                AuctionContractError::ArithmeticError,
            ),
            and_then(
                unless(
                    is_program_address(
                        auction_cycle_state_seeds_spec(
                            accounts.auction_root_state_account.key,
                            (root_state.status.current_auction_cycle + 1) as u64,
                        ),
                        program_id,
                        accounts.next_auction_cycle_state_account.key,
                    ) && is_program_address(
                        contract_pda_seeds_spec(),
                        program_id,
                        accounts.contract_pda.key,
                    ),
                    AuctionContractError::InvalidSeeds,
                ),
                and_then(
                    reward_rejection(program_id, accounts, auction_id),
                    unless(
                        if root_state.is_last_auction_cycle() {
                            settled_available_funds(root_state, bid.bid_amount, sysvars)
                                <= u64::MAX
                        } else {
                            i64::MIN <= sysvars.unix_timestamp
                                + root_state.auction_config.cycle_period <= i64::MAX
                        },
                        AuctionContractError::ArithmeticError,
                    ),
                ),
            ),
        ),
    )
}

/// Why the open cycle cannot be closed, if it cannot.
pub open spec fn close_cycle_rejection(
    program_id: Pubkey,
    accounts: CloseAuctionCycleAccounts,
    auction_id: AuctionId,
    sysvars: Sysvars,
) -> Option<AuctionContractError> {
    and_then(
        close_cycle_access_rejection(program_id, accounts, auction_id, sysvars.unix_timestamp),
        match accounts.current_auction_cycle_state.top_bid() {
            None => idle_streak_rejection(
                accounts.auction_root_state,
                accounts.current_auction_cycle_state,
            ),
            Some(bid) => settlement_rejection(program_id, accounts, auction_id, sysvars, bid),
        },
    )
}

/// The record of an auction after the highest bid of its open cycle has
/// been settled: the bid is split between the owner and the administrator,
/// the streak of idle cycles ends, and either the next cycle opens or,
/// behind the last cycle, the auction is finished.
pub open spec fn settled_root_state(
    root_state: AuctionRootState,
    bid_amount: u64,
    sysvars: Sysvars,
) -> AuctionRootState {
    AuctionRootState {
        available_funds: settled_available_funds(root_state, bid_amount, sysvars) as u64,
        admin_funds: (root_state.admin_funds + admin_share(bid_amount)) as u64,
        status: AuctionStatus {
            current_auction_cycle: if root_state.is_last_auction_cycle() {
                root_state.status.current_auction_cycle
            } else {
                (root_state.status.current_auction_cycle + 1) as u64
            },
            current_idle_cycle_streak: 0,
            is_finished: root_state.status.is_finished || root_state.is_last_auction_cycle(),
            ..root_state.status
        },
        ..root_state
    }
}

/// Whether `closure` and the records after it are what closing the open
/// cycle of `before` gives.
pub open spec fn closure_fits(
    before: CloseAuctionCycleAccounts,
    after: CloseAuctionCycleAccounts,
    closure: CycleClosure,
    sysvars: Sysvars,
) -> bool {
    let root_state = before.auction_root_state;
    let cycle_state = before.current_auction_cycle_state;
    match cycle_state.top_bid() {
        None => {
            &&& closure is Idle
            &&& after == (CloseAuctionCycleAccounts {
                auction_root_state: AuctionRootState {
                    status: AuctionStatus {
                        current_idle_cycle_streak: (root_state.status.current_idle_cycle_streak
                            + 1) as u32,
                        is_filtered: root_state.status.is_filtered || idle_too_long(
                            root_state.auction_config.cycle_period,
                            (root_state.status.current_idle_cycle_streak + 1) as u32,
                        ),
                        ..root_state.status
                    },
                    ..root_state
                },
                current_auction_cycle_state: AuctionCycleState {
                    end_time: (cycle_state.end_time + root_state.auction_config.cycle_period) as i64,
                    ..cycle_state
                },
                ..before
            })
        },
        Some(bid) => {
            &&& after == (CloseAuctionCycleAccounts {
                auction_root_state: settled_root_state(root_state, bid.bid_amount, sysvars),
                ..before
            })
            &&& closure matches CycleClosure::Settled(settlement)
            &&& settlement.winner == bid.bidder_pubkey
            &&& reward_fits(settlement.reward, before)
            &&& match settlement.next_auction_cycle_state {
                None => root_state.is_last_auction_cycle(),
                Some(next) => {
                    &&& !root_state.is_last_auction_cycle()
                    &&& next.bids() == Seq::<BidData>::empty()
                    &&& next.end_time == sysvars.unix_timestamp
                        + root_state.auction_config.cycle_period
                },
            }
        },
    }
}

/// Closing a cycle without bids moves no value: the cycle ends one period
/// later, the streak of idle cycles is longer by one, and the auction is
/// hidden once it has been idle for too long, and not before.
pub proof fn lemma_idle_cycle_goes_on(
    program_id: Pubkey,
    before: CloseAuctionCycleAccounts,
    after: CloseAuctionCycleAccounts,
    auction_id: AuctionId,
    sysvars: Sysvars,
    closure: CycleClosure,
)
    requires
        close_cycle_rejection(program_id, before, auction_id, sysvars) is None,
        closure_fits(before, after, closure, sysvars),
        before.current_auction_cycle_state.top_bid() is None,
    ensures
        closure is Idle,
        after.auction_root_state.status.current_idle_cycle_streak
            == before.auction_root_state.status.current_idle_cycle_streak + 1,
        after.current_auction_cycle_state.end_time == before.current_auction_cycle_state.end_time
            + before.auction_root_state.auction_config.cycle_period,
        after.current_auction_cycle_state.bids() == before.current_auction_cycle_state.bids(),
        after.auction_root_state.status.is_filtered == (
        before.auction_root_state.status.is_filtered || idle_too_long(
            before.auction_root_state.auction_config.cycle_period,
            after.auction_root_state.status.current_idle_cycle_streak,
        )),
        after.auction_root_state.status.current_auction_cycle
            == before.auction_root_state.status.current_auction_cycle,
        after.auction_root_state.status.is_finished
            == before.auction_root_state.status.is_finished,
        after.auction_root_state.available_funds == before.auction_root_state.available_funds,
        after.auction_root_state.admin_funds == before.auction_root_state.admin_funds,
        after.auction_root_state.all_time_treasury == before.auction_root_state.all_time_treasury,
        after.auction_bank_account == before.auction_bank_account,
        after.auction_owner_account == before.auction_owner_account,
        after.top_bidder_account == before.top_bidder_account,
        after.payer_account == before.payer_account,
{
}

/// Closing a cycle with a highest bid of `amount` splits the bid: what the
/// owner may claim grows by nineteen twentieths of it, less what rounding
/// costs, which is less than `OWNER_SHARE_TOLERANCE`, and what the
/// administrator may claim grows by the rest. Behind the last cycle the
/// auction is finished, no cycle opens, and the deposit of the bank is the
/// owner's too; otherwise the next cycle opens.
pub proof fn lemma_highest_bid_is_split(
    program_id: Pubkey,
    before: CloseAuctionCycleAccounts,
    after: CloseAuctionCycleAccounts,
    auction_id: AuctionId,
    sysvars: Sysvars,
    closure: CycleClosure,
)
    requires
        close_cycle_rejection(program_id, before, auction_id, sysvars) is None,
        closure_fits(before, after, closure, sysvars),
        before.current_auction_cycle_state.top_bid() is Some,
    ensures
        ({
            let amount = before.current_auction_cycle_state.top_bid()->Some_0.bid_amount;
            let last = before.auction_root_state.is_last_auction_cycle();
            let owner_gain = after.auction_root_state.available_funds
                - before.auction_root_state.available_funds - if last {
                sysvars.rent_exempt_minimum as int
            } else {
                0
            };
            let admin_gain = after.auction_root_state.admin_funds
                - before.auction_root_state.admin_funds;
            &&& owner_gain == owner_share(amount)
            &&& admin_gain == admin_share(amount)
            &&& owner_gain + admin_gain == amount
            &&& SHARE_PARTS * owner_gain <= OWNER_SHARE_PARTS * amount
            &&& OWNER_SHARE_PARTS * amount - SHARE_PARTS * owner_gain < SHARE_PARTS
                * OWNER_SHARE_TOLERANCE
            &&& after.auction_root_state.status.current_idle_cycle_streak == 0
            &&& closure matches CycleClosure::Settled(settlement)
            &&& if last {
                &&& after.auction_root_state.status.is_finished
                &&& after.auction_root_state.status.current_auction_cycle
                    == before.auction_root_state.status.current_auction_cycle
                &&& settlement.next_auction_cycle_state is None
            } else {
                &&& after.auction_root_state.status.is_finished
                    == before.auction_root_state.status.is_finished
                &&& after.auction_root_state.status.current_auction_cycle
                    == before.auction_root_state.status.current_auction_cycle + 1
                &&& settlement.next_auction_cycle_state is Some
            }
        }),
{
    let amount = before.current_auction_cycle_state.top_bid()->Some_0.bid_amount;
    lemma_shares(amount);
}

/// What closing a cycle does: a rejected call changes nothing; an accepted
/// one leaves the records and gives the closure that `closure_fits`
/// describes.
pub open spec fn close_cycle_fits(
    program_id: Pubkey,
    before: CloseAuctionCycleAccounts,
    after: CloseAuctionCycleAccounts,
    auction_id: AuctionId,
    sysvars: Sysvars,
    result: Result<CycleClosure, AuctionContractError>,
) -> bool {
    match close_cycle_rejection(program_id, before, auction_id, sysvars) {
        Some(error) => result == Err::<CycleClosure, AuctionContractError>(error) && after
            == before,
        None => result is Ok && closure_fits(before, after, result->Ok_0, sysvars),
    }
}

/// Closes the open cycle of an auction.
///
/// Where nobody has bid, the cycle goes on for another period. Otherwise the
/// highest bid is split between the owner of the auction and the
/// administrator, the reward of the cycle is handed out for issue to the
/// winner, and the next cycle opens, unless this was the last one: then the
/// auction is finished, and the deposit of its bank is the owner's.
pub fn close_auction_cycle(
    program_id: &Pubkey,
    accounts: &mut CloseAuctionCycleAccounts,
    auction_id: AuctionId,
    sysvars: &Sysvars,
) -> (result: Result<CycleClosure, AuctionContractError>)
    ensures
        close_cycle_fits(*program_id, *old(accounts), *final(accounts), auction_id, *sysvars, result),
{
    if !accounts.payer_account.is_signer {
        return Err(AuctionContractError::MissingSignature);
    }
    // check cross-program invocation addresses
    assert_rent_program(&accounts.rent_program.key)?;
    assert_system_program(&accounts.system_program.key)?;
    assert_token_program(&accounts.token_program.key)?;

    // check root and cycle states
    SignerPda::check_owner(
        &auction_root_state_seeds(&auction_id),
        program_id,
        program_id,
        &accounts.auction_root_state_account,
    )?;
    let current_cycle = accounts.auction_root_state.status.current_auction_cycle;
    SignerPda::check_owner(
        &auction_cycle_state_seeds(&accounts.auction_root_state_account.key, current_cycle),
        program_id,
        program_id,
        &accounts.current_auction_cycle_state_account,
    )?;
    if accounts.auction_owner_account.key != accounts.auction_root_state.auction_owner {
        return Err(AuctionContractError::AuctionOwnerMismatch);
    }
    // check auction status (freeze, active, able to end cycle)
    let current_timestamp = sysvars.unix_timestamp;
    check_status(
        &accounts.auction_root_state,
        &accounts.current_auction_cycle_state,
        current_timestamp,
        AuctionInteraction::CloseCycle,
    )?;
    // check auction bank
    SignerPda::check_owner(
        &auction_bank_seeds(&auction_id),
        program_id,
        program_id,
        &accounts.auction_bank_account,
    )?;

    // if there were no bids, just reset the auction cycle
    let most_recent_bid = match accounts.current_auction_cycle_state.most_recent_bid() {
        Some(most_recent_bid) => most_recent_bid,
        None => {
            increment_idle_streak(
                &mut accounts.current_auction_cycle_state,
                &mut accounts.auction_root_state,
            )?;
            return Ok(CycleClosure::Idle);
        },
    };
    if accounts.top_bidder_account.key != most_recent_bid.bidder_pubkey {
        return Err(AuctionContractError::TopBidderAccountMismatch);
    }
    let (owner_amount, admin_amount) = split_bid(most_recent_bid.bid_amount);
    let available_funds = match accounts.auction_root_state.available_funds.checked_add(
        owner_amount,
    ) {
        Some(available_funds) => available_funds,
        None => {
            return Err(AuctionContractError::ArithmeticError);
        },
    };
    let admin_funds = match accounts.auction_root_state.admin_funds.checked_add(admin_amount) {
        Some(admin_funds) => admin_funds,
        None => {
            return Err(AuctionContractError::ArithmeticError);
        },
    };
    let next_cycle = match current_cycle.checked_add(1) {
        Some(next_cycle) => next_cycle,
        None => {
            return Err(AuctionContractError::ArithmeticError);
        },
    };
    if SignerPda::new_checked(
        auction_cycle_state_seeds(&accounts.auction_root_state_account.key, next_cycle),
        program_id,
        &accounts.next_auction_cycle_state_account,
    ).is_err() {
        return Err(AuctionContractError::InvalidSeeds);
    }
    if SignerPda::new_checked(contract_pda_seeds(), program_id, &accounts.contract_pda).is_err() {
        return Err(AuctionContractError::InvalidSeeds);
    }
    let is_last_cycle = is_last_auction_cycle(&accounts.auction_root_state);
    let reward = match accounts.auction_root_state.token_config {
        TokenConfig::Nft(nft_data) => match &accounts.reward_accounts {
            RewardAccounts::Nft(nft) => prepare_nft_reward(
                program_id,
                &accounts.contract_pda,
                nft,
                &nft_data,
                &auction_id,
                current_cycle,
                is_last_cycle,
            )?,
            RewardAccounts::Token(_) => {
                return Err(AuctionContractError::TokenConfigMismatch);
            },
        },
        TokenConfig::Token(token_data) => match &accounts.reward_accounts {
            RewardAccounts::Token(token) => prepare_token_reward(
                program_id,
                &accounts.contract_pda,
                &accounts.top_bidder_account,
                token,
                &token_data,
                &auction_id,
            )?,
            RewardAccounts::Nft(_) => {
                return Err(AuctionContractError::TokenConfigMismatch);
            },
        },
    };

    // reset auction cycle
    let next_auction_cycle_state = if is_last_cycle {
        let available_funds = match available_funds.checked_add(sysvars.rent_exempt_minimum) {
            Some(available_funds) => available_funds,
            None => {
                return Err(AuctionContractError::ArithmeticError);
            },
        };
        accounts.auction_root_state.status.is_finished = true;
        accounts.auction_root_state.available_funds = available_funds;
        None
    } else {
        let end_time = match current_timestamp.checked_add(
            accounts.auction_root_state.auction_config.cycle_period,
        ) {
            Some(end_time) => end_time,
            None => {
                return Err(AuctionContractError::ArithmeticError);
            },
        };
        accounts.auction_root_state.status.current_auction_cycle = next_cycle;
        accounts.auction_root_state.available_funds = available_funds;
        Some(AuctionCycleState::new(end_time))
    };
    accounts.auction_root_state.admin_funds = admin_funds;
    accounts.auction_root_state.status.current_idle_cycle_streak = 0;

    Ok(
        CycleClosure::Settled(
            Settlement {
                winner: most_recent_bid.bidder_pubkey,
                reward,
                next_auction_cycle_state,
            },
        ),
    )
}

} // verus!
