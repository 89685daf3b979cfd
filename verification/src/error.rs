use vstd::prelude::*;

verus! {

/// Why an operation on an auction was rejected.
///
/// Every rejection aborts the whole operation: the records handed to the
/// operation are left exactly as they were.
#[derive(Clone, Copy, Debug, PartialEq, Eq, Structural)]
pub enum AuctionContractError {
    /// A party that has to authorise the operation did not sign it.
    MissingSignature,
    /// A record is held by another service than the expected one.
    InvalidAccountOwner,
    /// A record does not sit at the address derived from its seeds.
    InvalidSeeds,
    /// The caller is not the owner of the auction.
    AuctionOwnerMismatch,
    /// The caller is not the administrator of the contract.
    ContractAdminMismatch,
    /// The caller is not entitled to withdraw from the contract bank.
    WithdrawAuthorityMismatch,
    /// The account handed in as top bidder did not place the highest bid.
    TopBidderAccountMismatch,
    /// A checked addition, subtraction or multiplication left its type.
    ArithmeticError,
    /// The counter embedded in a name or address could not be read.
    MetadataManipulationError,
    /// The reward of this cycle has been issued already.
    NftAlreadyExists,
    /// The edition to issue does not follow the last one issued.
    ChildEditionNumberMismatch,
    /// The master edition handed in is not the one of the auction.
    MasterEditionMismatch,
    /// The reward accounts handed in do not fit the kind of reward.
    TokenConfigMismatch,
    /// The operation is not legal in the auction's state or at this time.
    StatusError,
    /// A bid does not exceed the highest bid so far.
    InvalidBidAmount,
    /// The cycle period of a new auction is not positive.
    InvalidCyclePeriod,
    /// A record that has to be created exists already.
    AccountAlreadyInitialized,
    /// The identifier of a new auction is in use.
    AuctionIdNotUnique,
    /// The registry holds as many auctions as it has room for.
    AuctionPoolFull,
    /// The registry cannot be resized to the requested capacity.
    InvalidPoolCapacity,
    /// The registry still holds auctions.
    AuctionPoolNotEmpty,
    /// An address handed in as that of a service is another one.
    InvalidProgramAddress,
    /// The records handed in are not those that the operation works on.
    NotEnoughAccountKeys,
    /// The description of a new auction is too long.
    InvalidDescriptionLength,
}

impl AuctionContractError {
    /// The number under which the rejection is reported to the caller.
    pub fn code(&self) -> (code: u32)
        ensures
            code == self.spec_code(),
    {
        match self {
            AuctionContractError::MissingSignature => 0,
            AuctionContractError::InvalidAccountOwner => 1,
            AuctionContractError::InvalidSeeds => 2,
            AuctionContractError::AuctionOwnerMismatch => 3,
            AuctionContractError::ContractAdminMismatch => 4,
            AuctionContractError::WithdrawAuthorityMismatch => 5,
            AuctionContractError::TopBidderAccountMismatch => 6,
            AuctionContractError::ArithmeticError => 7,
            AuctionContractError::MetadataManipulationError => 8,
            AuctionContractError::NftAlreadyExists => 9,
            AuctionContractError::ChildEditionNumberMismatch => 10,
            AuctionContractError::MasterEditionMismatch => 11,
            AuctionContractError::TokenConfigMismatch => 12,
            AuctionContractError::StatusError => 13,
            AuctionContractError::InvalidBidAmount => 14,
            AuctionContractError::InvalidCyclePeriod => 15,
            AuctionContractError::AccountAlreadyInitialized => 16,
            AuctionContractError::AuctionIdNotUnique => 17,
            AuctionContractError::AuctionPoolFull => 18,
            AuctionContractError::InvalidPoolCapacity => 19,
            AuctionContractError::AuctionPoolNotEmpty => 20,
            AuctionContractError::InvalidProgramAddress => 21,
            AuctionContractError::NotEnoughAccountKeys => 22,
            AuctionContractError::InvalidDescriptionLength => 23,
        }
    }

    /// The position of the variant in the declaration, counted from zero.
    pub open spec fn spec_code(&self) -> u32 {
        match self {
            AuctionContractError::MissingSignature => 0,
            AuctionContractError::InvalidAccountOwner => 1,
            AuctionContractError::InvalidSeeds => 2,
            AuctionContractError::AuctionOwnerMismatch => 3,
            AuctionContractError::ContractAdminMismatch => 4,
            AuctionContractError::WithdrawAuthorityMismatch => 5,
            AuctionContractError::TopBidderAccountMismatch => 6,
            AuctionContractError::ArithmeticError => 7,
            AuctionContractError::MetadataManipulationError => 8,
            AuctionContractError::NftAlreadyExists => 9,
            AuctionContractError::ChildEditionNumberMismatch => 10,
            AuctionContractError::MasterEditionMismatch => 11,
            AuctionContractError::TokenConfigMismatch => 12,
            AuctionContractError::StatusError => 13,
            AuctionContractError::InvalidBidAmount => 14,
            AuctionContractError::InvalidCyclePeriod => 15,
            AuctionContractError::AccountAlreadyInitialized => 16,
            AuctionContractError::AuctionIdNotUnique => 17,
            AuctionContractError::AuctionPoolFull => 18,
            AuctionContractError::InvalidPoolCapacity => 19,
            AuctionContractError::AuctionPoolNotEmpty => 20,
            AuctionContractError::InvalidProgramAddress => 21,
            AuctionContractError::NotEnoughAccountKeys => 22,
            AuctionContractError::InvalidDescriptionLength => 23,
        }
    }
}

} // verus!
