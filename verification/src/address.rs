//! Account addresses: 32 bytes, written in base58, and the addresses that a
//! program derives from seeds.

use solana_sdk::pubkey::ParsePubkeyError;
use solana_sdk::pubkey::Pubkey;
use std::str::FromStr;
use vstd::prelude::*;

verus! {

/// The address of an account or a program.
#[derive(Clone, Copy, Debug, PartialEq, Eq, Hash)]
pub struct Address {
    pub bytes: [u8; 32],
}

impl View for Address {
    type V = Seq<u8>;

    open spec fn view(&self) -> Seq<u8> {
        self.bytes@
    }
}

/// Why a text is not an address.
#[derive(Clone, Copy, Debug, PartialEq, Eq, Structural)]
pub enum AddressError {
    /// The text does not decode to exactly 32 bytes.
    WrongSize,
    /// The text holds a character outside the base58 alphabet.
    Invalid,
}

/// What `Pubkey::from_str` makes of a text: the 32 decoded bytes, or the
/// reason it rejects the text.
pub uninterp spec fn base58_decoded(text: Seq<char>) -> Result<Seq<u8>, AddressError>;

/// `text` is the base58 form of the address `bytes`.
pub open spec fn decodes_to(text: Seq<char>, bytes: Seq<u8>) -> bool {
    base58_decoded(text) == Ok::<Seq<u8>, AddressError>(bytes)
}

/// What `Pubkey::try_find_program_address` derives from seeds and a program
/// address: the derived address and its bump seed, if there is one.
pub uninterp spec fn derived_address(seeds: Seq<Seq<u8>>, program: Seq<u8>) -> Option<
    (Seq<u8>, u8),
>;

/// Calls `Pubkey::from_str`. The result is the one that [`base58_decoded`]
/// names for the text; the two outside errors map one to one.
#[verifier::external_body]
fn pubkey_from_str(text: &str) -> (res: Result<Address, AddressError>)
    ensures
        match res {
            Ok(address) => base58_decoded(text@) == Ok::<Seq<u8>, AddressError>(address@),
            Err(e) => base58_decoded(text@) == Err::<Seq<u8>, AddressError>(e),
        },
{
    match Pubkey::from_str(text) {
        Ok(key) => Ok(Address { bytes: key.to_bytes() }),
        Err(ParsePubkeyError::WrongSize) => Err(AddressError::WrongSize),
        Err(ParsePubkeyError::Invalid) => Err(AddressError::Invalid),
    }
}

/// Calls `Pubkey::try_find_program_address`. The result is the one that
/// [`derived_address`] names for the seeds and the program.
#[verifier::external_body]
fn try_find_program_address(seeds: &Vec<Vec<u8>>, program: &Address) -> (res: Option<(Address, u8)>)
    ensures
        match res {
            Some((address, bump)) => derived_address(seed_views(seeds@), program@) == Some(
                (address@, bump),
            ),
            None => derived_address(seed_views(seeds@), program@) is None,
        },
{
    let slices: Vec<&[u8]> = seeds.iter().map(|seed| seed.as_slice()).collect();
    let found = Pubkey::try_find_program_address(&slices, &Pubkey::new_from_array(program.bytes));
    found.map(|(key, bump)| (Address { bytes: key.to_bytes() }, bump))
}

/// The byte strings that a list of seeds holds, in order.
pub open spec fn seed_views(seeds: Seq<Vec<u8>>) -> Seq<Seq<u8>> {
    seeds.map_values(|seed: Vec<u8>| seed@)
}

/// The seeds of an associated token account: owner, token program, mint.
pub open spec fn associated_seeds(owner: Seq<u8>, token_program: Seq<u8>, mint: Seq<u8>) -> Seq<
    Seq<u8>,
> {
    seq![owner, token_program, mint]
}

impl Address {
    /// The address with the given bytes.
    pub fn new(bytes: [u8; 32]) -> (address: Address)
        ensures
            address@ == bytes@,
    {
        Address { bytes }
    }

    /// The 32 bytes of the address.
    pub fn to_bytes(&self) -> (bytes: [u8; 32])
        ensures
            bytes@ == self@,
    {
        self.bytes
    }

    /// The bytes of the address as a vector.
    pub fn to_vec(&self) -> (bytes: Vec<u8>)
        ensures
            bytes@ == self@,
    {
        let mut out: Vec<u8> = Vec::new();
        let mut i: usize = 0;
        while i < 32
            invariant
                i <= 32,
                out@ == self.bytes@.take(i as int),
            decreases 32 - i,
        {
            out.push(self.bytes[i]);
            assert(self.bytes@.take(i as int + 1) =~= self.bytes@.take(i as int).push(
                self.bytes@[i as int],
            ));
            i += 1;
        }
        assert(self.bytes@.take(32) =~= self.bytes@);
        out
    }

    /// Whether two addresses hold the same bytes.
    pub fn same_as(&self, other: &Address) -> (same: bool)
        ensures
            same == (self@ == other@),
    {
        let mut i: usize = 0;
        while i < 32
            invariant
                i <= 32,
                forall|j: int| 0 <= j < i ==> self.bytes@[j] == other.bytes@[j],
            decreases 32 - i,
        {
            if self.bytes[i] != other.bytes[i] {
                return false;
            }
            i += 1;
        }
        assert(self.bytes@ =~= other.bytes@);
        true
    }

    /// Reads an address from its base58 text.
    pub fn parse(text: &str) -> (res: Result<Address, AddressError>)
        ensures
            match res {
                Ok(address) => base58_decoded(text@) == Ok::<Seq<u8>, AddressError>(address@),
                Err(e) => base58_decoded(text@) == Err::<Seq<u8>, AddressError>(e),
            },
    {
        pubkey_from_str(text)
    }

    /// The token account that the associated-token program `ata_program`
    /// keeps for `owner` and `mint` under `token_program`.
    pub fn associated(
        owner: &Address,
        token_program: &Address,
        mint: &Address,
        ata_program: &Address,
    ) -> (res: Option<Address>)
        ensures
            match res {
                Some(address) => {
                    let derived = derived_address(
                        associated_seeds(owner@, token_program@, mint@),
                        ata_program@,
                    );
                    derived is Some && derived->Some_0.0 == address@
                },
                None => derived_address(
                    associated_seeds(owner@, token_program@, mint@),
                    ata_program@,
                ) is None,
            },
    {
        let mut seeds: Vec<Vec<u8>> = Vec::new();
        seeds.push(owner.to_vec());
        seeds.push(token_program.to_vec());
        seeds.push(mint.to_vec());
        assert(seed_views(seeds@) =~= associated_seeds(owner@, token_program@, mint@));
        match try_find_program_address(&seeds, ata_program) {
            Some((address, _)) => Some(address),
            None => None,
        }
    }
}

} // verus!
