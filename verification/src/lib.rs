//! A recurring, self-renewing auction: every cycle takes bids for a fixed
//! period and is then settled, the winning bid going to the auction's owner
//! and a reward to the winner, before the next cycle opens.
//!
//! The records of an auction are described in [`state`], the operations on
//! them in [`processor`]. An operation is handed the records it works on
//! and either carries itself out on them or rejects the call and leaves
//! them as they were.
use vstd::prelude::*;

pub mod error;
pub mod frontend;
pub mod instruction;
pub mod metadata;
pub mod pda;
pub mod processor;
pub mod pubkey;
pub mod state;
pub mod utils;

pub use error::AuctionContractError;
pub use metadata::{increment_name, increment_uri, MetadataStateData};
pub use processor::delete_auction::RECOMMENDED_CYCLE_STATES_DELETED_PER_CALL;
pub use processor::process;

verus! {

/// Additional bytes set aside in the record of an auction for future
/// development.
pub const EXTRA_ROOT_STATE_BYTES: usize = 32;

/// Whether a character is not the padding character.
pub fn is_not_padding(c: char) -> (kept: bool)
    ensures
        kept == (c != '\0'),
{
    c != '\0'
}

/// `String::retain`, keeping what is not padding: the characters other than
/// NUL stay, in their order.
#[verifier::external_body]
fn retain_unpadded(text: &mut String)
    ensures
        final(text)@ == metadata::without_nul(old(text)@),
{
    text.retain(|c| is_not_padding(c))
}

/// Takes the padding out of the name, the symbol and the address of a
/// reward.
pub fn unpuff_metadata(metadata_state_data: &mut MetadataStateData)
    ensures
        final(metadata_state_data).name@ == metadata::without_nul(old(metadata_state_data).name@),
        final(metadata_state_data).uri@ == metadata::without_nul(old(metadata_state_data).uri@),
        final(metadata_state_data).symbol@ == metadata::without_nul(
            old(metadata_state_data).symbol@,
        ),
{
    retain_unpadded(&mut metadata_state_data.name);
    retain_unpadded(&mut metadata_state_data.uri);
    retain_unpadded(&mut metadata_state_data.symbol);
}

} // verus!
