use agsol_gold_contract::error::AuctionContractError;
use agsol_gold_contract::pda::{
    auction_bank_seeds, auction_cycle_state_seeds, auction_pool_seeds, auction_root_state_seeds,
    child_mint_seeds, contract_bank_seeds, contract_pda_seeds, metadata_seeds,
    token_holding_seeds, SignerPda,
};
use agsol_gold_contract::pubkey::{
    pad_to_32_bytes, same_bytes, seed_of, Pubkey, META_ID, RENT_SYSVAR_ID, SYSTEM_PROGRAM_ID,
    TOKEN_ID,
};
use agsol_gold_contract::state::{AuctionPool, MAX_AUCTION_NUM, MAX_BID_HISTORY_LENGTH};
use agsol_gold_contract::utils::{
    assert_metaplex_program, assert_rent_program, assert_system_program, assert_token_program,
    AccountInfo,
};
use agsol_gold_contract::processor::admin_withdraw::{
    process_admin_withdraw, process_admin_withdraw_reassign, AdminWithdrawAccounts,
};
use agsol_gold_contract::processor::initialize_contract::{
    initialize_contract, InitializeContractAccounts,
};
use agsol_gold_contract::processor::reallocate_pool::{
    deallocate_pool, reallocate_pool, PoolAccounts,
};
use agsol_gold_contract::state::ContractBankState;
use agsol_gold_contract::frontend::FrontendTokenConfig;
use agsol_gold_contract::metadata::MetadataStateData;
use agsol_gold_contract::state::{AuctionCycleState, BidData, NftData, TokenConfig, TokenData};

fn named(n: u8) -> Pubkey {
    Pubkey::new_from_array([n; 32])
}

fn contract() -> Pubkey {
    named(200)
}

fn outside(address: &Pubkey) -> solana_program::pubkey::Pubkey {
    solana_program::pubkey::Pubkey::new_from_array(address.bytes)
}

fn find(seeds: &[Vec<u8>], program: &Pubkey) -> (Pubkey, u8) {
    let seeds: Vec<&[u8]> = seeds.iter().map(|seed| seed.as_slice()).collect();
    let (address, bump) =
        solana_program::pubkey::Pubkey::find_program_address(&seeds, &outside(program));
    (Pubkey::new_from_array(address.to_bytes()), bump)
}

fn at(address: Pubkey, owner: Pubkey) -> AccountInfo {
    AccountInfo { key: address, owner, lamports: 1_500, is_signer: false, data_is_empty: false }
}

fn signer(n: u8, lamports: u64) -> AccountInfo {
    AccountInfo { key: named(n), owner: named(0), lamports, is_signer: true, data_is_empty: true }
}

#[test]
fn well_known_addresses_are_those_of_the_services() {
    assert_eq!(TOKEN_ID, spl_token::ID.to_bytes());
    assert_eq!(META_ID, metaplex_token_metadata::ID.to_bytes());
    assert_eq!(SYSTEM_PROGRAM_ID, solana_program::system_program::ID.to_bytes());
    assert_eq!(RENT_SYSVAR_ID, solana_program::sysvar::rent::ID.to_bytes());
    assert_eq!(assert_token_program(&Pubkey::new_from_array(spl_token::ID.to_bytes())), Ok(()));
    assert_eq!(
        assert_token_program(&Pubkey::new_from_array(metaplex_token_metadata::ID.to_bytes())),
        Err(AuctionContractError::InvalidProgramAddress)
    );
    assert_eq!(assert_metaplex_program(&Pubkey::new_from_array(META_ID)), Ok(()));
    assert_eq!(assert_system_program(&Pubkey::new_from_array([0; 32])), Ok(()));
    assert_eq!(assert_rent_program(&Pubkey::new_from_array(RENT_SYSVAR_ID)), Ok(()));
    assert_eq!(
        assert_rent_program(&Pubkey::new_from_array(SYSTEM_PROGRAM_ID)),
        Err(AuctionContractError::InvalidProgramAddress)
    );
    assert_eq!(MAX_BID_HISTORY_LENGTH, 10);
    assert_eq!(MAX_AUCTION_NUM, 100);
    assert_eq!(agsol_gold_contract::metadata::MAX_NAME_LENGTH, metaplex_token_metadata::state::MAX_NAME_LENGTH);
    assert_eq!(agsol_gold_contract::metadata::MAX_SYMBOL_LENGTH, metaplex_token_metadata::state::MAX_SYMBOL_LENGTH);
    assert_eq!(agsol_gold_contract::metadata::MAX_URI_LENGTH, metaplex_token_metadata::state::MAX_URI_LENGTH);
}

#[test]
fn addresses_and_identifiers_are_compared_byte_by_byte() {
    let mut bytes = [7u8; 32];
    assert!(same_bytes(&bytes, &[7u8; 32]));
    assert_eq!(Pubkey::new_from_array(bytes), named(7));
    bytes[31] = 8;
    assert!(!same_bytes(&bytes, &[7u8; 32]));
    assert_ne!(Pubkey::new_from_array(bytes), named(7));
    bytes[31] = 7;
    bytes[0] = 6;
    assert!(!same_bytes(&bytes, &[7u8; 32]));
    assert_eq!(Pubkey::new_from_array(bytes).to_bytes(), bytes);
    assert_eq!(seed_of(&bytes), bytes.to_vec());
}

#[test]
fn seeds_name_the_kind_of_record_first() {
    let id = [9u8; 32];
    assert_eq!(contract_pda_seeds(), vec![b"auction_contract".to_vec()]);
    assert_eq!(contract_bank_seeds(), vec![b"auction_contract_bank".to_vec()]);
    assert_eq!(auction_pool_seeds(), vec![b"auction_pool".to_vec()]);
    assert_eq!(auction_root_state_seeds(&id), vec![b"auction_root_state".to_vec(), id.to_vec()]);
    assert_eq!(auction_bank_seeds(&id), vec![b"auction_bank".to_vec(), id.to_vec()]);
    assert_eq!(
        auction_cycle_state_seeds(&named(3), 258),
        vec![b"auction_cycle_state".to_vec(), vec![3u8; 32], vec![2, 1, 0, 0, 0, 0, 0, 0]]
    );
    assert_eq!(
        child_mint_seeds(1, &id),
        vec![b"child_mint".to_vec(), id.to_vec(), 1u64.to_le_bytes().to_vec()]
    );
    assert_eq!(
        metadata_seeds(&named(4)),
        vec![b"metadata".to_vec(), metaplex_token_metadata::ID.to_bytes().to_vec(), vec![4u8; 32]]
    );
    assert_eq!(
        token_holding_seeds(&named(4), &named(5)),
        vec![b"token_holding".to_vec(), vec![4u8; 32], vec![5u8; 32]]
    );
}

#[test]
fn record_is_verified_by_address_and_owner() {
    let seeds = auction_root_state_seeds(&[1u8; 32]);
    let (address, bump) = find(&seeds, &contract());
    // the address is derived, not handed back
    assert_ne!(address, contract());
    assert_ne!(address.bytes.to_vec(), seeds[1]);
    assert_eq!(
        SignerPda::check_owner(&seeds, &contract(), &contract(), &at(address, contract())),
        Ok(())
    );
    // identical seeds give the identical address
    assert_eq!(find(&auction_root_state_seeds(&[1u8; 32]), &contract()), (address, bump));
    assert_eq!(
        SignerPda::check_owner(&seeds, &contract(), &contract(), &at(named(1), contract())),
        Err(AuctionContractError::InvalidSeeds)
    );
    assert_eq!(
        SignerPda::check_owner(&seeds, &contract(), &contract(), &at(contract(), contract())),
        Err(AuctionContractError::InvalidSeeds)
    );
    assert_eq!(
        SignerPda::check_owner(&seeds, &contract(), &contract(), &at(address, named(2))),
        Err(AuctionContractError::InvalidAccountOwner)
    );
    assert_eq!(
        SignerPda::check_owner(&seeds, &contract(), &named(2), &at(address, named(2))),
        Ok(())
    );
    // other seeds or another service give another address
    assert_eq!(
        SignerPda::check_owner(
            &auction_root_state_seeds(&[2u8; 32]),
            &contract(),
            &contract(),
            &at(address, contract())
        ),
        Err(AuctionContractError::InvalidSeeds)
    );
    assert_eq!(
        SignerPda::check_owner(&seeds, &named(2), &contract(), &at(address, contract())),
        Err(AuctionContractError::InvalidSeeds)
    );
    // the address comes before the owner
    assert_eq!(
        SignerPda::check_owner(&seeds, &contract(), &contract(), &at(named(1), named(2))),
        Err(AuctionContractError::InvalidSeeds)
    );
}

#[test]
fn seeds_that_cannot_be_derived_from_are_rejected() {
    // a seed of more than 32 bytes
    let seeds = vec![vec![1u8; 33]];
    assert_eq!(
        SignerPda::check_owner(&seeds, &contract(), &contract(), &at(named(1), contract())),
        Err(AuctionContractError::InvalidSeeds)
    );
    assert!(matches!(
        SignerPda::new_checked(seeds, &contract(), &at(named(1), contract())),
        Err(AuctionContractError::InvalidSeeds)
    ));
    // more than fifteen seeds leave no room for the bump seed
    let seeds = vec![vec![1u8]; 16];
    assert_eq!(
        SignerPda::check_owner(&seeds, &contract(), &contract(), &at(named(1), contract())),
        Err(AuctionContractError::InvalidSeeds)
    );
}

#[test]
fn signer_seeds_end_with_the_bump_seed() {
    let seeds = auction_cycle_state_seeds(&named(3), 7);
    let (address, bump) = find(&seeds, &contract());
    let signer_pda =
        SignerPda::new_checked(seeds.clone(), &contract(), &at(address, named(0))).unwrap();
    assert_eq!(signer_pda.pda, address);
    assert_eq!(signer_pda.bump, bump);
    assert_eq!(signer_pda.seeds, seeds);
    let mut expected = seeds.clone();
    expected.push(vec![bump]);
    assert_eq!(signer_pda.signer_seeds(), expected);
    // the signer seeds lead to the address without search
    let with_bump: Vec<&[u8]> = expected.iter().map(|seed| seed.as_slice()).collect();
    assert_eq!(
        solana_program::pubkey::Pubkey::create_program_address(&with_bump, &outside(&contract()))
            .unwrap()
            .to_bytes(),
        address.bytes
    );
    assert!(matches!(
        SignerPda::new_checked(seeds, &contract(), &at(named(3), named(0))),
        Err(AuctionContractError::InvalidSeeds)
    ));
}

#[test]
fn registry_holds_each_auction_once() {
    let mut pool = AuctionPool::new(3);
    assert_eq!(pool.position(&[1u8; 32]), None);
    assert_eq!(pool.try_insert([1u8; 32], named(1)), Ok(()));
    assert_eq!(pool.try_insert([2u8; 32], named(2)), Ok(()));
    assert_eq!(
        pool.try_insert([1u8; 32], named(9)),
        Err(AuctionContractError::AuctionIdNotUnique)
    );
    assert_eq!(pool.try_insert([3u8; 32], named(3)), Ok(()));
    assert_eq!(pool.try_insert([4u8; 32], named(4)), Err(AuctionContractError::AuctionPoolFull));
    // a full registry still says that an identifier is in use
    assert_eq!(
        pool.try_insert([2u8; 32], named(9)),
        Err(AuctionContractError::AuctionIdNotUnique)
    );
    assert_eq!(pool.pool.len(), 3);
    assert_eq!(pool.position(&[2u8; 32]), Some(1));
    assert_eq!(pool.get(&[2u8; 32]), Some(named(2)));
    assert_eq!(pool.get(&[4u8; 32]), None);
    assert!(pool.contains(&[3u8; 32]));
    assert!(pool.remove(&[2u8; 32]));
    assert!(!pool.remove(&[2u8; 32]));
    assert!(!pool.contains(&[2u8; 32]));
    assert_eq!(pool.position(&[3u8; 32]), Some(1));
    assert_eq!(pool.get(&[1u8; 32]), Some(named(1)));
    assert_eq!(pool.pool.len(), 2);
    assert_eq!(pool.try_insert([4u8; 32], named(4)), Ok(()));
    assert_eq!(pool.position(&[4u8; 32]), Some(2));
    assert_eq!(pool.max_len, 3);
}

fn pool_accounts(admin: AccountInfo, auctions: u8, max_len: u32) -> PoolAccounts {
    let mut auction_pool = AuctionPool::new(max_len);
    for n in 0..auctions {
        auction_pool.try_insert([n; 32], named(n)).unwrap();
    }
    PoolAccounts {
        contract_admin_account: admin,
        contract_bank_account: at(find(&contract_bank_seeds(), &contract()).0, contract()),
        contract_bank_state: ContractBankState { contract_admin: named(7), withdraw_authority: named(8) },
        auction_pool_account: at(find(&auction_pool_seeds(), &contract()).0, contract()),
        auction_pool,
    }
}

#[test]
fn registry_is_resized_within_its_bounds() {
    let mut accounts = pool_accounts(signer(7, 0), 3, 5);
    assert_eq!(reallocate_pool(&contract(), &mut accounts, 100), Ok(()));
    assert_eq!(accounts.auction_pool.max_len, 100);
    assert_eq!(accounts.auction_pool.pool.len(), 3);
    assert_eq!(
        reallocate_pool(&contract(), &mut accounts, 101),
        Err(AuctionContractError::InvalidPoolCapacity)
    );
    assert_eq!(
        reallocate_pool(&contract(), &mut accounts, 2),
        Err(AuctionContractError::InvalidPoolCapacity)
    );
    assert_eq!(accounts.auction_pool.max_len, 100);
    assert_eq!(reallocate_pool(&contract(), &mut accounts, 3), Ok(()));
    assert_eq!(accounts.auction_pool.max_len, 3);
    assert_eq!(
        accounts.auction_pool.try_insert([9u8; 32], named(9)),
        Err(AuctionContractError::AuctionPoolFull)
    );
    let mut accounts = pool_accounts(signer(1, 0), 3, 5);
    assert_eq!(
        reallocate_pool(&contract(), &mut accounts, 10),
        Err(AuctionContractError::ContractAdminMismatch)
    );
    let mut accounts = pool_accounts(AccountInfo { is_signer: false, ..signer(7, 0) }, 3, 5);
    assert_eq!(
        reallocate_pool(&contract(), &mut accounts, 10),
        Err(AuctionContractError::MissingSignature)
    );
    assert_eq!(accounts.auction_pool.max_len, 5);
}

#[test]
fn registry_is_removed_once_it_is_empty() {
    let mut accounts = pool_accounts(signer(7, 20), 1, 5);
    assert_eq!(
        deallocate_pool(&contract(), &mut accounts),
        Err(AuctionContractError::AuctionPoolNotEmpty)
    );
    assert_eq!(accounts.auction_pool_account.lamports, 1_500);
    accounts.auction_pool.remove(&[0u8; 32]);
    assert_eq!(deallocate_pool(&contract(), &mut accounts), Ok(()));
    assert_eq!(accounts.auction_pool_account.lamports, 0);
    assert_eq!(accounts.contract_admin_account.lamports, 1_520);
    assert_eq!(accounts.auction_pool.max_len, 0);
    let mut accounts = pool_accounts(signer(7, u64::MAX - 1_499), 0, 5);
    assert_eq!(
        deallocate_pool(&contract(), &mut accounts),
        Err(AuctionContractError::ArithmeticError)
    );
    assert_eq!(accounts.auction_pool_account.lamports, 1_500);
    assert_eq!(accounts.auction_pool.max_len, 5);
}

#[test]
fn contract_is_set_up_by_its_administrator() {
    let accounts = InitializeContractAccounts {
        contract_admin_account: signer(7, 0),
        contract_bank_account: AccountInfo {
            data_is_empty: true,
            ..at(find(&contract_bank_seeds(), &contract()).0, named(0))
        },
        auction_pool_account: AccountInfo {
            data_is_empty: true,
            ..at(find(&auction_pool_seeds(), &contract()).0, named(0))
        },
        system_program: at(Pubkey::new_from_array(SYSTEM_PROGRAM_ID), named(0)),
    };
    let (bank, pool) = initialize_contract(&contract(), &accounts, named(8), 100).unwrap();
    assert_eq!(bank, ContractBankState { contract_admin: named(7), withdraw_authority: named(8) });
    assert_eq!(pool.max_len, 100);
    assert!(pool.pool.is_empty());
    assert_eq!(
        initialize_contract(&contract(), &accounts, named(8), 101).unwrap_err(),
        AuctionContractError::InvalidPoolCapacity
    );
    let mut wrong = accounts;
    wrong.contract_admin_account.is_signer = false;
    assert_eq!(
        initialize_contract(&contract(), &wrong, named(8), 1).unwrap_err(),
        AuctionContractError::MissingSignature
    );
    let mut wrong = accounts;
    wrong.auction_pool_account.data_is_empty = false;
    assert_eq!(
        initialize_contract(&contract(), &wrong, named(8), 1).unwrap_err(),
        AuctionContractError::AccountAlreadyInitialized
    );
    let mut wrong = accounts;
    wrong.contract_bank_account.key = named(3);
    assert_eq!(
        initialize_contract(&contract(), &wrong, named(8), 1).unwrap_err(),
        AuctionContractError::InvalidSeeds
    );
    let mut wrong = accounts;
    wrong.system_program.key = named(3);
    assert_eq!(
        initialize_contract(&contract(), &wrong, named(8), 1).unwrap_err(),
        AuctionContractError::InvalidProgramAddress
    );
}

#[test]
fn bank_of_the_contract_pays_who_may_withdraw() {
    let mut accounts = AdminWithdrawAccounts {
        withdraw_authority_account: signer(8, 10),
        contract_bank_account: at(find(&contract_bank_seeds(), &contract()).0, contract()),
        contract_bank_state: ContractBankState { contract_admin: named(7), withdraw_authority: named(8) },
    };
    assert_eq!(process_admin_withdraw(&contract(), &mut accounts, 500), Ok(()));
    assert_eq!(accounts.contract_bank_account.lamports, 1_000);
    assert_eq!(accounts.withdraw_authority_account.lamports, 510);
    assert_eq!(
        process_admin_withdraw(&contract(), &mut accounts, 1_001),
        Err(AuctionContractError::ArithmeticError)
    );
    assert_eq!(accounts.contract_bank_account.lamports, 1_000);
    assert_eq!(accounts.withdraw_authority_account.lamports, 510);
    // the administrator is not who may withdraw
    let mut stranger = AdminWithdrawAccounts { withdraw_authority_account: signer(7, 10), ..accounts };
    assert_eq!(
        process_admin_withdraw(&contract(), &mut stranger, 1),
        Err(AuctionContractError::WithdrawAuthorityMismatch)
    );
    assert_eq!(
        process_admin_withdraw_reassign(&contract(), &mut stranger, named(7)),
        Err(AuctionContractError::WithdrawAuthorityMismatch)
    );
    assert_eq!(process_admin_withdraw_reassign(&contract(), &mut accounts, named(7)), Ok(()));
    assert_eq!(
        accounts.contract_bank_state,
        ContractBankState { contract_admin: named(7), withdraw_authority: named(7) }
    );
    assert_eq!(
        process_admin_withdraw(&contract(), &mut accounts, 1),
        Err(AuctionContractError::WithdrawAuthorityMismatch)
    );
    let mut successor = AdminWithdrawAccounts { withdraw_authority_account: signer(7, 0), ..accounts };
    assert_eq!(process_admin_withdraw(&contract(), &mut successor, 1_000), Ok(()));
    assert_eq!(successor.contract_bank_account.lamports, 0);
    assert_eq!(successor.withdraw_authority_account.lamports, 1_000);
}

#[test]
fn reward_is_shown_with_what_fits_its_buffers() {
    let metadata = |name: &str, symbol: &str, uri: &str| {
        Some(MetadataStateData {
            name: name.to_string(),
            symbol: symbol.to_string(),
            uri: uri.to_string(),
        })
    };
    let nft = TokenConfig::Nft(NftData { master_edition: named(5), is_repeating: true });
    match FrontendTokenConfig::new(&nft, metadata(&"n".repeat(32), "SYMBOLSYMB", &"u".repeat(200))) {
        Ok(FrontendTokenConfig::Nft { name, symbol, uri, is_repeating }) => {
            assert_eq!(name.len(), 32);
            assert_eq!(symbol, "SYMBOLSYMB");
            assert_eq!(uri.len(), 200);
            assert!(is_repeating);
        }
        other => panic!("{:?}", other),
    }
    assert!(FrontendTokenConfig::new(&nft, metadata(&"n".repeat(33), "S", "u")).is_err());
    assert!(FrontendTokenConfig::new(&nft, metadata("n", "SYMBOLSYMBO", "u")).is_err());
    assert!(FrontendTokenConfig::new(&nft, metadata("n", "S", &"u".repeat(201))).is_err());
    // the buffers are measured in bytes
    assert!(FrontendTokenConfig::new(&nft, metadata(&"ő".repeat(16), "S", "u")).is_ok());
    assert!(FrontendTokenConfig::new(&nft, metadata(&"ő".repeat(17), "S", "u")).is_err());
    assert!(matches!(
        FrontendTokenConfig::new(&nft, None),
        Err(AuctionContractError::MetadataManipulationError)
    ));
    let token = TokenConfig::Token(TokenData { mint: named(6), decimals: 3, per_cycle_amount: 9 });
    match FrontendTokenConfig::new(&token, None) {
        Ok(FrontendTokenConfig::Token { mint, decimals, per_cycle_amount }) => {
            assert_eq!((mint, decimals, per_cycle_amount), (named(6), 3, 9))
        }
        other => panic!("{:?}", other),
    }
}

#[test]
fn cycle_state_is_copied_with_its_bids() {
    let mut cycle = AuctionCycleState::new(77);
    assert_eq!(cycle.most_recent_bid(), None);
    assert!(cycle.is_well_formed());
    let first = BidData { bidder_pubkey: named(1), bid_amount: 5, timestamp: 1 };
    let second = BidData { bidder_pubkey: named(2), bid_amount: 9, timestamp: 2 };
    cycle.bid_history.cyclic_push(first);
    cycle.bid_history.cyclic_push(second);
    assert_eq!(cycle.most_recent_bid(), Some(second));
    let copy = cycle.clone();
    assert_eq!(copy.end_time, 77);
    assert_eq!(copy.bid_history.contents(), &[first, second]);
    assert_eq!(copy.most_recent_bid(), Some(second));
    assert!(copy.is_well_formed());
    // more bids than the history has room for are not well-formed
    let mut long = AuctionCycleState::new(0);
    for amount in 1..=10u64 {
        long.bid_history.push(BidData { bidder_pubkey: named(1), bid_amount: amount, timestamp: 0 }).unwrap();
    }
    assert!(long.is_well_formed());
    // falling amounts are not well-formed
    let mut falling = AuctionCycleState::new(0);
    falling.bid_history.cyclic_push(second);
    falling.bid_history.cyclic_push(first);
    assert!(!falling.is_well_formed());
}

#[test]
fn identifier_is_the_name_padded_with_zeros() {
    let mut expected = [0u8; 32];
    expected[..11].copy_from_slice(b"teletubbies");
    assert_eq!(pad_to_32_bytes("teletubbies"), Some(expected));
    assert_eq!(pad_to_32_bytes(""), Some([0u8; 32]));
    let full = "0123456789abcdef0123456789abcdef";
    let mut expected = [0u8; 32];
    expected.copy_from_slice(full.as_bytes());
    assert_eq!(pad_to_32_bytes(full), Some(expected));
    assert_eq!(pad_to_32_bytes("0123456789abcdef0123456789abcdef0"), None);
    // the length counts in bytes
    assert!(pad_to_32_bytes(&"ő".repeat(16)).is_some());
    assert_eq!(pad_to_32_bytes(&"ő".repeat(17)), None);
    let id = pad_to_32_bytes("őz").unwrap();
    assert_eq!(&id[..3], "őz".as_bytes());
    assert!(id[3..].iter().all(|byte| *byte == 0));
}
