//! Addresses of records and identifiers of auctions.
use vstd::prelude::*;
use vstd::std_specs::cmp::PartialEqSpecImpl;
use vstd::string::*;

verus! {

/// The identifier of an auction: its name, padded with zeros to 32 bytes.
pub type AuctionId = [u8; 32];

/// Address of the service that creates records.
pub const SYSTEM_PROGRAM_ID: [u8; 32] = [
    0, 0, 0, 0, 0, 0, 0, 0, 0, 0, 0, 0, 0, 0, 0, 0,
    0, 0, 0, 0, 0, 0, 0, 0, 0, 0, 0, 0, 0, 0, 0, 0,
];

/// Address of the record that holds the price of storage.
pub const RENT_SYSVAR_ID: [u8; 32] = [
    6, 167, 213, 23, 25, 44, 92, 81, 33, 140, 201, 76, 61, 74, 241, 127,
    88, 218, 238, 8, 155, 161, 253, 68, 227, 219, 217, 138, 0, 0, 0, 0,
];

/// Address of the service that keeps fungible tokens.
pub const TOKEN_ID: [u8; 32] = [
    6, 221, 246, 225, 215, 101, 161, 147, 217, 203, 225, 70, 206, 235, 121, 172,
    28, 180, 133, 237, 95, 91, 55, 145, 58, 140, 245, 133, 126, 255, 0, 169,
];

/// Address of the service that keeps the names and editions of collectibles.
pub const META_ID: [u8; 32] = [
    11, 112, 101, 177, 227, 209, 124, 69, 56, 157, 82, 127, 107, 4, 195, 205,
    88, 184, 108, 115, 26, 160, 253, 181, 73, 182, 209, 188, 3, 248, 41, 70,
];

/// The address of a record or of a service.
#[derive(Clone, Copy, Debug, Eq)]
pub struct Pubkey {
    pub bytes: [u8; 32],
}

impl PartialEq for Pubkey {
    fn eq(&self, other: &Self) -> (equal: bool) {
        same_bytes(&self.bytes, &other.bytes)
    }
}

impl PartialEqSpecImpl for Pubkey {
    open spec fn obeys_eq_spec() -> bool {
        true
    }

    open spec fn eq_spec(&self, other: &Self) -> bool {
        *self == *other
    }
}

impl Pubkey {
    pub fn new_from_array(bytes: [u8; 32]) -> (key: Pubkey)
        ensures
            key.bytes == bytes,
    {
        Pubkey { bytes }
    }

    pub fn to_bytes(&self) -> (bytes: [u8; 32])
        ensures
            bytes == self.bytes,
    {
        self.bytes
    }
}

/// The bytes of a name followed by zeros up to 32 bytes.
pub open spec fn padded_to_32_bytes(name: Seq<u8>) -> Seq<u8> {
    name + Seq::new((32 - name.len()) as nat, |i: int| 0u8)
}

/// The identifier of the auction with the given name: the bytes of the
/// name, padded with zeros to 32 bytes. A name of more than 32 bytes gives
/// no identifier.
pub fn pad_to_32_bytes(input: &str) -> (id: Option<AuctionId>)
    ensures
        id is Some <==> input.spec_bytes().len() <= 32,
        id matches Some(array) ==> array@ == padded_to_32_bytes(input.spec_bytes()),
{
    let bytes = input.as_bytes();
    if bytes.len() > 32 {
        return None;
    }
    let mut array: AuctionId = [0u8; 32];
    let mut i: usize = 0;
    while i < bytes.len()
        invariant
            i <= bytes@.len() <= 32,
            forall|j: int| 0 <= j < i ==> array[j] == bytes@[j],
            forall|j: int| i <= j < 32 ==> array[j] == 0,
        decreases bytes@.len() - i,
    {
        array[i] = bytes[i];
        i += 1;
    }
    proof {
        assert(array@ =~= padded_to_32_bytes(input.spec_bytes()));
    }
    Some(array)
}

/// Whether two identifiers or addresses agree in every byte.
pub fn same_bytes(left: &[u8; 32], right: &[u8; 32]) -> (equal: bool)
    ensures
        equal == (*left == *right),
{
    let mut i: usize = 0;
    while i < 32
        invariant
            i <= 32,
            forall|j: int| 0 <= j < i ==> left[j] == right[j],
        decreases 32 - i,
    {
        if left[i] != right[i] {
            return false;
        }
        i += 1;
    }
    proof {
        assert(*left =~= *right);
    }
    true
}

/// The bytes of an identifier or address, as a seed.
pub fn seed_of(bytes: &[u8; 32]) -> (seed: Vec<u8>)
    ensures
        seed@ == bytes@,
{
    let mut seed: Vec<u8> = Vec::new();
    let mut i: usize = 0;
    while i < 32
        invariant
            i <= 32,
            seed@ == bytes@.take(i as int),
        decreases 32 - i,
    {
        seed.push(bytes[i]);
        i += 1;
        proof {
            assert(seed@ =~= bytes@.take(i as int));
        }
    }
    proof {
        assert(bytes@.take(32) =~= bytes@);
    }
    seed
}

} // verus!
