//! Where the records of the contract sit, and the check that a record handed
//! to an operation sits there.
//!
//! The address of a record is derived from the address of the service that
//! holds it and from a list of seeds: a word that names the kind of record,
//! followed by what tells the record from others of its kind.
use vstd::prelude::*;
use vstd::string::*;
use vstd::bytes::{spec_u64_to_le_bytes, u64_to_le_bytes};
use crate::error::AuctionContractError;
use crate::pubkey::{seed_of, AuctionId, Pubkey, META_ID};
use crate::utils::AccountInfo;

verus! {

/// The seeds as sequences of bytes.
pub open spec fn seeds_view(seeds: Vec<Vec<u8>>) -> Seq<Seq<u8>> {
    seeds@.map_values(|seed: Vec<u8>| seed@)
}

/// The address derived from `seeds` for the service at `program_id`, with
/// the bump seed that was added to reach it; nothing where no address can be
/// derived.
pub uninterp spec fn program_address(seeds: Seq<Seq<u8>>, program_id: Seq<u8>) -> Option<
    (Seq<u8>, u8),
>;

/// `Pubkey::try_find_program_address` of `solana_program`: the derived
/// address and its bump seed. The same seeds and service always give the
/// same address.
#[verifier::external_body]
fn try_find_program_address(seeds: &Vec<Vec<u8>>, program_id: &Pubkey) -> (found: Option<
    (Pubkey, u8),
>)
    ensures
        match found {
            Some((address, bump)) => program_address(seeds_view(*seeds), program_id.bytes@)
                == Some((address.bytes@, bump)),
            None => program_address(seeds_view(*seeds), program_id.bytes@) is None,
        },
{
    let seeds: Vec<&[u8]> = seeds.iter().map(|seed| seed.as_slice()).collect();
    let program_id = solana_program::pubkey::Pubkey::new_from_array(program_id.bytes);
    solana_program::pubkey::Pubkey::try_find_program_address(&seeds, &program_id).map(
        |(address, bump)| (Pubkey { bytes: address.to_bytes() }, bump),
    )
}

/// Whether `key` is the address derived from `seeds` for the service at
/// `program_id`.
pub open spec fn is_program_address(seeds: Seq<Seq<u8>>, program_id: Pubkey, key: Pubkey) -> bool {
    match program_address(seeds, program_id.bytes@) {
        Some((address, _)) => address == key.bytes@,
        None => false,
    }
}

/// Whether a record may be trusted: it sits at the address derived from
/// `seeds`, and the service at `owner` holds it.
pub open spec fn verify_spec(
    seeds: Seq<Seq<u8>>,
    program_id: Pubkey,
    owner: Pubkey,
    expected: AccountInfo,
) -> Result<(), AuctionContractError> {
    if !is_program_address(seeds, program_id, expected.key) {
        Err(AuctionContractError::InvalidSeeds)
    } else if expected.owner != owner {
        Err(AuctionContractError::InvalidAccountOwner)
    } else {
        Ok(())
    }
}

/// A derived address together with the seeds that lead to it.
#[derive(Debug)]
pub struct SignerPda {
    pub pda: Pubkey,
    pub bump: u8,
    pub seeds: Vec<Vec<u8>>,
}

impl SignerPda {
    /// Derives the address of `seeds` and checks that `expected` sits there.
    pub fn new_checked(seeds: Vec<Vec<u8>>, program_id: &Pubkey, expected: &AccountInfo) -> (result:
        Result<SignerPda, AuctionContractError>)
        ensures
            match result {
                Ok(signer_pda) => {
                    &&& is_program_address(seeds_view(seeds), *program_id, expected.key)
                    &&& signer_pda.pda == expected.key
                    &&& signer_pda.seeds == seeds
                    &&& program_address(seeds_view(seeds), program_id.bytes@) == Some(
                        (expected.key.bytes@, signer_pda.bump),
                    )
                },
                Err(error) => {
                    &&& !is_program_address(seeds_view(seeds), *program_id, expected.key)
                    &&& error == AuctionContractError::InvalidSeeds
                },
            },
    {
        match try_find_program_address(&seeds, program_id) {
            Some((pda, bump)) => {
                if pda == expected.key {
                    Ok(SignerPda { pda, bump, seeds })
                } else {
                    proof {
                        assert(pda.bytes@ != expected.key.bytes@) by {
                            if pda.bytes@ == expected.key.bytes@ {
                                assert(pda.bytes =~= expected.key.bytes);
                            }
                        }
                    }
                    Err(AuctionContractError::InvalidSeeds)
                }
            },
            None => Err(AuctionContractError::InvalidSeeds),
        }
    }

    /// Checks that `expected` sits at the address of `seeds` and is held by
    /// the service at `owner`. Has no effect.
    pub fn check_owner(
        seeds: &Vec<Vec<u8>>,
        program_id: &Pubkey,
        owner: &Pubkey,
        expected: &AccountInfo,
    ) -> (result: Result<(), AuctionContractError>)
        ensures
            result == verify_spec(seeds_view(*seeds), *program_id, *owner, *expected),
    {
        match try_find_program_address(seeds, program_id) {
            Some((pda, _)) => {
                if pda != expected.key {
                    proof {
                        assert(pda.bytes@ != expected.key.bytes@) by {
                            if pda.bytes@ == expected.key.bytes@ {
                                assert(pda.bytes =~= expected.key.bytes);
                            }
                        }
                    }
                    return Err(AuctionContractError::InvalidSeeds);
                }
            },
            None => {
                return Err(AuctionContractError::InvalidSeeds);
            },
        }
        if expected.owner != *owner {
            Err(AuctionContractError::InvalidAccountOwner)
        } else {
            Ok(())
        }
    }

    /// The seeds followed by the bump seed: what signs for the address.
    pub fn signer_seeds(&self) -> (signer_seeds: Vec<Vec<u8>>)
        ensures
            seeds_view(signer_seeds) == seeds_view(self.seeds).push(seq![self.bump]),
    {
        let mut signer_seeds: Vec<Vec<u8>> = Vec::new();
        let mut i: usize = 0;
        while i < self.seeds.len()
            invariant
                i <= self.seeds@.len(),
                signer_seeds@.len() == i,
                forall|k: int| 0 <= k < i ==> (#[trigger] signer_seeds@[k])@ == self.seeds@[k]@,
            decreases self.seeds@.len() - i,
        {
            let seed = copy_of(&self.seeds[i]);
            signer_seeds.push(seed);
            i += 1;
        }
        let mut bump: Vec<u8> = Vec::new();
        bump.push(self.bump);
        proof {
            assert(bump@ =~= seq![self.bump]);
        }
        signer_seeds.push(bump);
        proof {
            assert(seeds_view(signer_seeds) =~= seeds_view(self.seeds).push(seq![self.bump]));
        }
        signer_seeds
    }
}

/// A copy of a seed.
fn copy_of(bytes: &Vec<u8>) -> (copy: Vec<u8>)
    ensures
        copy@ == bytes@,
{
    let mut copy: Vec<u8> = Vec::new();
    let mut i: usize = 0;
    while i < bytes.len()
        invariant
            i <= bytes@.len(),
            copy@ == bytes@.take(i as int),
        decreases bytes@.len() - i,
    {
        copy.push(bytes[i]);
        i += 1;
        proof {
            assert(copy@ =~= bytes@.take(i as int));
        }
    }
    proof {
        assert(bytes@.take(i as int) =~= bytes@);
    }
    copy
}

/// The word that names a kind of record, as a seed.
fn word(text: &str) -> (seed: Vec<u8>)
    ensures
        seed@ == text.spec_bytes(),
{
    text.as_bytes_vec()
}

/// One seed.
fn seeds1(first: Vec<u8>) -> (seeds: Vec<Vec<u8>>)
    ensures
        seeds_view(seeds) == seq![first@],
{
    let mut seeds: Vec<Vec<u8>> = Vec::new();
    seeds.push(first);
    proof {
        assert(seeds_view(seeds) =~= seq![first@]);
    }
    seeds
}

/// Two seeds.
fn seeds2(first: Vec<u8>, second: Vec<u8>) -> (seeds: Vec<Vec<u8>>)
    ensures
        seeds_view(seeds) == seq![first@, second@],
{
    let mut seeds: Vec<Vec<u8>> = Vec::new();
    seeds.push(first);
    seeds.push(second);
    proof {
        assert(seeds_view(seeds) =~= seq![first@, second@]);
    }
    seeds
}

/// Three seeds.
fn seeds3(first: Vec<u8>, second: Vec<u8>, third: Vec<u8>) -> (seeds: Vec<Vec<u8>>)
    ensures
        seeds_view(seeds) == seq![first@, second@, third@],
{
    let mut seeds: Vec<Vec<u8>> = Vec::new();
    seeds.push(first);
    seeds.push(second);
    seeds.push(third);
    proof {
        assert(seeds_view(seeds) =~= seq![first@, second@, third@]);
    }
    seeds
}

/// The seeds that `contract_pda_seeds` builds.
pub open spec fn contract_pda_seeds_spec() -> Seq<Seq<u8>> {
    seq!["auction_contract".spec_bytes()]
}

/// Seeds of the address in whose name the contract signs.
pub fn contract_pda_seeds() -> (seeds: Vec<Vec<u8>>)
    ensures
        seeds_view(seeds) == contract_pda_seeds_spec(),
{
    seeds1(word("auction_contract"))
}

/// The seeds that `contract_bank_seeds` builds.
pub open spec fn contract_bank_seeds_spec() -> Seq<Seq<u8>> {
    seq!["auction_contract_bank".spec_bytes()]
}

/// Seeds of the bank of the contract.
pub fn contract_bank_seeds() -> (seeds: Vec<Vec<u8>>)
    ensures
        seeds_view(seeds) == contract_bank_seeds_spec(),
{
    seeds1(word("auction_contract_bank"))
}

/// The seeds that `auction_pool_seeds` builds.
pub open spec fn auction_pool_seeds_spec() -> Seq<Seq<u8>> {
    seq!["auction_pool".spec_bytes()]
}

/// Seeds of the registry.
pub fn auction_pool_seeds() -> (seeds: Vec<Vec<u8>>)
    ensures
        seeds_view(seeds) == auction_pool_seeds_spec(),
{
    seeds1(word("auction_pool"))
}

/// The seeds that `auction_root_state_seeds` builds.
pub open spec fn auction_root_state_seeds_spec(auction_id: AuctionId) -> Seq<Seq<u8>> {
    seq!["auction_root_state".spec_bytes(), auction_id@]
}

/// Seeds of the record of an auction.
pub fn auction_root_state_seeds(auction_id: &AuctionId) -> (seeds: Vec<Vec<u8>>)
    ensures
        seeds_view(seeds) == auction_root_state_seeds_spec(*auction_id),
{
    seeds2(word("auction_root_state"), seed_of(auction_id))
}

/// The seeds that `auction_bank_seeds` builds.
pub open spec fn auction_bank_seeds_spec(auction_id: AuctionId) -> Seq<Seq<u8>> {
    seq!["auction_bank".spec_bytes(), auction_id@]
}

/// Seeds of the bank of an auction.
pub fn auction_bank_seeds(auction_id: &AuctionId) -> (seeds: Vec<Vec<u8>>)
    ensures
        seeds_view(seeds) == auction_bank_seeds_spec(*auction_id),
{
    seeds2(word("auction_bank"), seed_of(auction_id))
}

/// The seeds that `auction_cycle_state_seeds` builds.
pub open spec fn auction_cycle_state_seeds_spec(
    auction_root_state: Pubkey,
    cycle_number: u64,
) -> Seq<Seq<u8>> {
    seq![
        "auction_cycle_state".spec_bytes(),
        auction_root_state.bytes@,
        spec_u64_to_le_bytes(cycle_number),
    ]
}

/// Seeds of the record of a cycle of the auction whose record sits at
/// `auction_root_state`.
pub fn auction_cycle_state_seeds(auction_root_state: &Pubkey, cycle_number: u64) -> (seeds: Vec<
    Vec<u8>,
>)
    ensures
        seeds_view(seeds) == auction_cycle_state_seeds_spec(*auction_root_state, cycle_number),
{
    seeds3(
        word("auction_cycle_state"),
        seed_of(&auction_root_state.bytes),
        u64_to_le_bytes(cycle_number),
    )
}

/// The seeds that `master_mint_seeds` builds.
pub open spec fn master_mint_seeds_spec(auction_id: AuctionId) -> Seq<Seq<u8>> {
    seq!["master_mint".spec_bytes(), auction_id@]
}

/// Seeds of the mint of the master of a collectible reward.
pub fn master_mint_seeds(auction_id: &AuctionId) -> (seeds: Vec<Vec<u8>>)
    ensures
        seeds_view(seeds) == master_mint_seeds_spec(*auction_id),
{
    seeds2(word("master_mint"), seed_of(auction_id))
}

/// The seeds that `master_holding_seeds` builds.
pub open spec fn master_holding_seeds_spec(auction_id: AuctionId) -> Seq<Seq<u8>> {
    seq!["master_holding".spec_bytes(), auction_id@]
}

/// Seeds of the account that holds the master of a collectible reward.
pub fn master_holding_seeds(auction_id: &AuctionId) -> (seeds: Vec<Vec<u8>>)
    ensures
        seeds_view(seeds) == master_holding_seeds_spec(*auction_id),
{
    seeds2(word("master_holding"), seed_of(auction_id))
}

/// The seeds that `child_mint_seeds` builds.
pub open spec fn child_mint_seeds_spec(edition: u64, auction_id: AuctionId) -> Seq<Seq<u8>> {
    seq!["child_mint".spec_bytes(), auction_id@, spec_u64_to_le_bytes(edition)]
}

/// Seeds of the mint of one edition of a collectible reward.
pub fn child_mint_seeds(edition: u64, auction_id: &AuctionId) -> (seeds: Vec<Vec<u8>>)
    ensures
        seeds_view(seeds) == child_mint_seeds_spec(edition, *auction_id),
{
    seeds3(word("child_mint"), seed_of(auction_id), u64_to_le_bytes(edition))
}

/// The seeds that `child_holding_seeds` builds.
pub open spec fn child_holding_seeds_spec(edition: u64, auction_id: AuctionId) -> Seq<Seq<u8>> {
    seq!["child_holding".spec_bytes(), auction_id@, spec_u64_to_le_bytes(edition)]
}

/// Seeds of the account that holds one edition of a collectible reward.
pub fn child_holding_seeds(edition: u64, auction_id: &AuctionId) -> (seeds: Vec<Vec<u8>>)
    ensures
        seeds_view(seeds) == child_holding_seeds_spec(edition, *auction_id),
{
    seeds3(word("child_holding"), seed_of(auction_id), u64_to_le_bytes(edition))
}

/// The seeds that `metadata_seeds` builds.
pub open spec fn metadata_seeds_spec(mint: Pubkey) -> Seq<Seq<u8>> {
    seq!["metadata".spec_bytes(), META_ID@, mint.bytes@]
}

/// Seeds of the record that holds the name and address of a collectible.
pub fn metadata_seeds(mint: &Pubkey) -> (seeds: Vec<Vec<u8>>)
    ensures
        seeds_view(seeds) == metadata_seeds_spec(*mint),
{
    seeds3(word("metadata"), seed_of(&META_ID), seed_of(&mint.bytes))
}

/// The seeds that `token_mint_seeds` builds.
pub open spec fn token_mint_seeds_spec(auction_id: AuctionId) -> Seq<Seq<u8>> {
    seq!["token_mint".spec_bytes(), auction_id@]
}

/// Seeds of the mint of a fungible reward.
pub fn token_mint_seeds(auction_id: &AuctionId) -> (seeds: Vec<Vec<u8>>)
    ensures
        seeds_view(seeds) == token_mint_seeds_spec(*auction_id),
{
    seeds2(word("token_mint"), seed_of(auction_id))
}

/// The seeds that `token_holding_seeds` builds.
pub open spec fn token_holding_seeds_spec(mint: Pubkey, holder: Pubkey) -> Seq<Seq<u8>> {
    seq!["token_holding".spec_bytes(), mint.bytes@, holder.bytes@]
}

/// Seeds of the account in which `holder` keeps the tokens of `mint`.
pub fn token_holding_seeds(mint: &Pubkey, holder: &Pubkey) -> (seeds: Vec<Vec<u8>>)
    ensures
        seeds_view(seeds) == token_holding_seeds_spec(*mint, *holder),
{
    seeds3(word("token_holding"), seed_of(&mint.bytes), seed_of(&holder.bytes))
}

} // verus!
