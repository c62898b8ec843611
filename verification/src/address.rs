//! Account addresses, and the derivation of the addresses that a program owns.

use solana_program::pubkey::{ParsePubkeyError, Pubkey, PubkeyError};
use std::str::FromStr;
use vstd::prelude::*;

verus! {

/// Why the host's key type refused a list of seeds.
#[verifier::external_type_specification]
#[verifier::external_body]
pub struct ExPubkeyError(PubkeyError);

/// Why the host's key type refused a piece of text.
#[verifier::external_type_specification]
#[verifier::external_body]
pub struct ExParsePubkeyError(ParsePubkeyError);

/// The address of an account: 32 bytes.
#[derive(Debug, Clone, Copy)]
pub struct Address {
    pub bytes: [u8; 32],
}

impl View for Address {
    type V = Seq<u8>;

    open spec fn view(&self) -> Seq<u8> {
        self.bytes@
    }
}

impl PartialEq for Address {
    fn eq(&self, other: &Self) -> (same: bool) {
        let mut i: usize = 0;
        while i < 32
            invariant
                i <= 32,
                forall|j: int| 0 <= j < i ==> self.bytes[j] == other.bytes[j],
            decreases 32 - i,
        {
            if self.bytes[i] != other.bytes[i] {
                return false;
            }
            i = i + 1;
        }
        assert(self.bytes =~= other.bytes);
        true
    }
}

impl vstd::std_specs::cmp::PartialEqSpecImpl for Address {
    open spec fn obeys_eq_spec() -> bool {
        true
    }

    open spec fn eq_spec(&self, other: &Self) -> bool {
        *self == *other
    }
}

impl Eq for Address {

}

impl Default for Address {
    /// The address whose bytes are all zero.
    fn default() -> (address: Self)
        ensures
            address@ == zero_bytes(),
    {
        let address = Address { bytes: [0u8; 32] };
        assert(address@ =~= zero_bytes());
        address
    }
}

/// Thirty-two zero bytes.
pub open spec fn zero_bytes() -> Seq<u8> {
    Seq::new(32, |i: int| 0u8)
}

impl Address {
    /// The address with the given bytes.
    pub fn new_from_array(bytes: [u8; 32]) -> (address: Self)
        ensures
            address.bytes == bytes,
    {
        Address { bytes }
    }

    /// The bytes of this address.
    pub fn to_bytes(&self) -> (bytes: [u8; 32])
        ensures
            bytes == self.bytes,
    {
        self.bytes
    }

    /// The bytes of this address, as a seed for the derivation of another one.
    pub fn to_seed(&self) -> (seed: Vec<u8>)
        ensures
            seed@ == self@,
    {
        vstd::slice::slice_to_vec(self.bytes.as_slice())
    }
}

/// Two addresses with the same bytes are the same address.
pub proof fn lemma_address_is_its_bytes(a: Address, b: Address)
    requires
        a@ == b@,
    ensures
        a == b,
{
    assert(a.bytes =~= b.bytes);
}

/// The byte strings that a list of seeds holds.
pub open spec fn seed_views(seeds: Seq<Vec<u8>>) -> Seq<Seq<u8>> {
    Seq::new(seeds.len(), |i: int| seeds[i]@)
}

/// The program address that the host derives from `seeds` for the program
/// `program_id`, with the bump seed that it found for it, or `None` where the
/// host finds none.
pub uninterp spec fn spec_find_program_address(seeds: Seq<Seq<u8>>, program_id: Seq<u8>) -> Option<
    (Seq<u8>, u8),
>;

/// The program address that the host derives from exactly `seeds` for the
/// program `program_id`, or `None` where it refuses the seeds.
pub uninterp spec fn spec_create_program_address(
    seeds: Seq<Seq<u8>>,
    program_id: Seq<u8>,
) -> Option<Seq<u8>>;

/// The address that a piece of base-58 text stands for, or `None` where the
/// host's key type refuses the text.
pub uninterp spec fn spec_parse_address(text: Seq<char>) -> Option<Seq<u8>>;

/// Calls `Pubkey::try_find_program_address`. The result is the one that the
/// host computes from the seeds and the program's address alone; the contract
/// gives it the name `spec_find_program_address`, and adds that an address
/// is only ever returned with the bump seed under which
/// `Pubkey::create_program_address` derives that same address.
#[verifier::external_body]
pub(crate) fn try_find_program_address(seeds: &Vec<Vec<u8>>, program_id: &Address) -> (found:
    Option<(Address, u8)>)
    ensures
        match found {
            Some((address, bump)) => {
                &&& spec_find_program_address(seed_views(seeds@), program_id@) == Some(
                    (address@, bump),
                )
                &&& spec_create_program_address(
                    seed_views(seeds@).push(seq![bump]),
                    program_id@,
                ) == Some(address@)
            },
            None => spec_find_program_address(seed_views(seeds@), program_id@) is None,
        },
{
    let slices: Vec<&[u8]> = seeds.iter().map(|seed| seed.as_slice()).collect();
    Pubkey::try_find_program_address(&slices, &Pubkey::new_from_array(program_id.bytes)).map(
        |(key, bump)| (Address { bytes: key.to_bytes() }, bump),
    )
}

/// Calls `Pubkey::create_program_address`. The result is the one that the host
/// computes from the seeds and the program's address alone; the contract gives
/// it the name `spec_create_program_address`.
#[verifier::external_body]
pub(crate) fn create_program_address(seeds: &Vec<Vec<u8>>, program_id: &Address) -> (created:
    Result<Address, PubkeyError>)
    ensures
        match created {
            Ok(address) => spec_create_program_address(seed_views(seeds@), program_id@) == Some(
                address@,
            ),
            Err(_) => spec_create_program_address(seed_views(seeds@), program_id@) is None,
        },
{
    let slices: Vec<&[u8]> = seeds.iter().map(|seed| seed.as_slice()).collect();
    Pubkey::create_program_address(&slices, &Pubkey::new_from_array(program_id.bytes)).map(
        |key| Address { bytes: key.to_bytes() },
    )
}

/// Calls `Pubkey::from_str`, which reads an address written in base 58. The
/// result depends on the text alone; the contract gives it the name
/// `spec_parse_address`.
#[verifier::external_body]
pub(crate) fn parse_address(text: &str) -> (parsed: Result<Address, ParsePubkeyError>)
    ensures
        match parsed {
            Ok(address) => spec_parse_address(text@) == Some(address@),
            Err(_) => spec_parse_address(text@) is None,
        },
{
    Pubkey::from_str(text).map(|key| Address { bytes: key.to_bytes() })
}

/// Calls `solana_program::system_program::id`: the address of the system
/// program, which is the address whose bytes are all zero.
#[verifier::external_body]
pub(crate) fn system_program_id() -> (id: Address)
    ensures
        id@ == zero_bytes(),
{
    Address { bytes: solana_program::system_program::id().to_bytes() }
}

} // verus!
