//! An auction as it is shown.
use vstd::prelude::*;
use vstd::string::*;
use vstd::utf8::encode_utf8;
use crate::error::AuctionContractError;
use crate::metadata::{MetadataStateData, MAX_NAME_LENGTH, MAX_SYMBOL_LENGTH, MAX_URI_LENGTH};
use crate::pubkey::Pubkey;
use crate::state::{AuctionCycleState, AuctionRootState, TokenConfig};

verus! {

/// The reward of an auction as it is shown.
#[derive(Clone, Debug)]
pub enum FrontendTokenConfig {
    Nft { name: String, symbol: String, uri: String, is_repeating: bool },
    Token { mint: Pubkey, decimals: u8, per_cycle_amount: u64 },
}

/// An auction as it is shown: its record, the record of its open cycle, and
/// its reward.
#[derive(Debug)]
pub struct FrontendAuction {
    pub root_state: AuctionRootState,
    pub cycle_state: AuctionCycleState,
    pub token_config: FrontendTokenConfig,
}

impl FrontendTokenConfig {
    /// The name, the symbol and the address of a collectible fit their
    /// buffers.
    pub open spec fn well_formed(&self) -> bool {
        match self {
            FrontendTokenConfig::Nft { name, symbol, uri, .. } => {
                &&& encode_utf8(name@).len() <= MAX_NAME_LENGTH
                &&& encode_utf8(symbol@).len() <= MAX_SYMBOL_LENGTH
                &&& encode_utf8(uri@).len() <= MAX_URI_LENGTH
            },
            FrontendTokenConfig::Token { .. } => true,
        }
    }

    /// Whether the reward shown is one of the kind that the auction hands
    /// out.
    pub open spec fn shows(&self, token_config: TokenConfig) -> bool {
        match (self, token_config) {
            (FrontendTokenConfig::Nft { is_repeating, .. }, TokenConfig::Nft(nft_data)) =>
                is_repeating == nft_data.is_repeating,
            (
                FrontendTokenConfig::Token { mint, decimals, per_cycle_amount },
                TokenConfig::Token(token_data),
            ) => mint == token_data.mint && decimals == token_data.decimals && per_cycle_amount
                == token_data.per_cycle_amount,
            _ => false,
        }
    }

    /// The reward of an auction as it is shown: for a collectible, the name
    /// and address of its master, which have to be given and to fit their
    /// buffers.
    pub fn new(token_config: &TokenConfig, master_metadata: Option<MetadataStateData>) -> (result:
        Result<FrontendTokenConfig, AuctionContractError>)
        ensures
            match token_config {
                TokenConfig::Token(_) => result is Ok,
                TokenConfig::Nft(_) => result is Ok <==> (master_metadata matches Some(metadata)
                    && encode_utf8(metadata.name@).len() <= MAX_NAME_LENGTH && encode_utf8(
                    metadata.symbol@,
                ).len() <= MAX_SYMBOL_LENGTH && encode_utf8(metadata.uri@).len()
                    <= MAX_URI_LENGTH),
            },
            match result {
                Ok(shown) => {
                    &&& shown.well_formed()
                    &&& shown.shows(*token_config)
                    &&& shown matches FrontendTokenConfig::Nft { name, symbol, uri, .. }
                        ==> master_metadata matches Some(metadata) && name@ == metadata.name@
                        && symbol@ == metadata.symbol@ && uri@ == metadata.uri@
                },
                Err(error) => error == AuctionContractError::MetadataManipulationError,
            },
    {
        match token_config {
            TokenConfig::Nft(nft_data) => match master_metadata {
                Some(metadata) => {
                    if metadata.name.as_str().as_bytes().len() > MAX_NAME_LENGTH
                        || metadata.symbol.as_str().as_bytes().len() > MAX_SYMBOL_LENGTH
                        || metadata.uri.as_str().as_bytes().len() > MAX_URI_LENGTH {
                        return Err(AuctionContractError::MetadataManipulationError);
                    }
                    Ok(
                        FrontendTokenConfig::Nft {
                            name: metadata.name,
                            symbol: metadata.symbol,
                            uri: metadata.uri,
                            is_repeating: nft_data.is_repeating,
                        },
                    )
                },
                None => Err(AuctionContractError::MetadataManipulationError),
            },
            TokenConfig::Token(token_data) => Ok(
                FrontendTokenConfig::Token {
                    mint: token_data.mint,
                    decimals: token_data.decimals,
                    per_cycle_amount: token_data.per_cycle_amount,
                },
            ),
        }
    }
}

} // verus!
