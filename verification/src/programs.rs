//! The fixed addresses that a cycle relies on, and reading lists of
//! addresses from their texts.

use crate::address::base58_decoded;
use crate::address::decodes_to;
use crate::address::Address;
use crate::address::AddressError;
use vstd::prelude::*;

verus! {

/// The concentrated-liquidity pool program that performs the swap.
pub const SWAP_PROGRAM: &'static str = "CAMMCzo5YL8w4VFF8KVHrK22GGUsp5VTaW7grrKgrWqK";

/// The token program of the reward mint.
pub const TOKEN_PROGRAM: &'static str = "TokenkegQfeZyiNwAJbNbGKPFXCWuBvf9Ss623VQ5DA";

/// The token program of the taxed mint, which knows transfer fees.
pub const TOKEN_2022_PROGRAM: &'static str = "TokenzQdBNbLqP5VEhdkAS6EPFLC1PHnBqCXEpPxuEb";

/// The program that owns associated token accounts.
pub const ASSOCIATED_TOKEN_PROGRAM: &'static str = "ATokenGPvbdGVxr1b2hvZbsiqW5xWH25efTNsLJA8knL";

/// The system program.
pub const SYSTEM_PROGRAM: &'static str = "11111111111111111111111111111111";

/// The memo program, which the swap instruction lists.
pub const MEMO_PROGRAM: &'static str = "MemoSq4gqABAXKb96qnH8TysNcWxMyWCqXgDLGmfcHr";

/// First of the three further accounts that the swap instruction lists.
pub const SWAP_EXTRA_FIRST: &'static str = "4xsACyKdzNbpE7QteqyGvXvuvQCrYmho1W1HPbWS6QWN";

/// Second of the three further accounts that the swap instruction lists.
pub const SWAP_EXTRA_SECOND: &'static str = "8xoo3dW62Fa6jpnwY3Rv3EiuhBqaVryHRoNzVcUoogrx";

/// Third of the three further accounts that the swap instruction lists.
pub const SWAP_EXTRA_THIRD: &'static str = "47Wkp1HLuHhYkiVhVK32JeWofK7Ur65hW2JwDNjWJyJG";

/// The addresses behind the texts above.
#[derive(Clone, Copy, Debug, PartialEq, Eq)]
pub struct ProgramIds {
    pub swap_program: Address,
    pub token_program: Address,
    pub token_2022_program: Address,
    pub associated_token_program: Address,
    pub system_program: Address,
    pub memo_program: Address,
    pub swap_extra_first: Address,
    pub swap_extra_second: Address,
    pub swap_extra_third: Address,
}

/// The texts of a list, in order.
pub open spec fn text_views(texts: Seq<String>) -> Seq<Seq<char>> {
    texts.map_values(|t: String| t@)
}

/// The byte strings of a list of addresses, in order.
pub open spec fn address_views(addresses: Seq<Address>) -> Seq<Seq<u8>> {
    addresses.map_values(|a: Address| a@)
}

/// Decoding a list of texts in order: all the addresses, or the error of the
/// first text that is not one.
pub open spec fn decode_all(texts: Seq<Seq<char>>) -> Result<Seq<Seq<u8>>, AddressError>
    decreases texts.len(),
{
    if texts.len() == 0 {
        Ok(Seq::empty())
    } else {
        match decode_all(texts.drop_last()) {
            Err(e) => Err(e),
            Ok(front) => match base58_decoded(texts.last()) {
                Err(e) => Err(e),
                Ok(bytes) => Ok(front.push(bytes)),
            },
        }
    }
}

/// What reading a text gave: the bytes of the address, or the error.
pub open spec fn outcome_view(outcome: Result<Address, AddressError>) -> Result<
    Seq<u8>,
    AddressError,
> {
    match outcome {
        Ok(address) => Ok(address@),
        Err(e) => Err(e),
    }
}

/// What reading each text of a list gave, in order.
pub open spec fn outcome_views(outcomes: Seq<Result<Address, AddressError>>) -> Seq<
    Result<Seq<u8>, AddressError>,
> {
    outcomes.map_values(|o: Result<Address, AddressError>| outcome_view(o))
}

/// All the addresses of a list of outcomes, or the first error among them.
pub open spec fn collected(outcomes: Seq<Result<Seq<u8>, AddressError>>) -> Result<
    Seq<Seq<u8>>,
    AddressError,
>
    decreases outcomes.len(),
{
    if outcomes.len() == 0 {
        Ok(Seq::empty())
    } else {
        match collected(outcomes.drop_last()) {
            Err(e) => Err(e),
            Ok(front) => match outcomes.last() {
                Err(e) => Err(e),
                Ok(bytes) => Ok(front.push(bytes)),
            },
        }
    }
}

/// Decoding a list of texts is collecting what decoding each of them gives.
pub proof fn lemma_decode_all_collects(texts: Seq<Seq<char>>)
    ensures
        decode_all(texts) == collected(texts.map_values(|t: Seq<char>| base58_decoded(t))),
    decreases texts.len(),
{
    let outcomes = texts.map_values(|t: Seq<char>| base58_decoded(t));
    if texts.len() > 0 {
        lemma_decode_all_collects(texts.drop_last());
        assert(outcomes.drop_last() =~= texts.drop_last().map_values(
            |t: Seq<char>| base58_decoded(t),
        ));
    }
}

/// Once a prefix of the outcomes holds an error, the whole list gives that
/// error.
proof fn lemma_collected_stops(outcomes: Seq<Result<Seq<u8>, AddressError>>, upto: int, e: AddressError)
    requires
        0 <= upto <= outcomes.len(),
        collected(outcomes.take(upto)) == Err::<Seq<Seq<u8>>, AddressError>(e),
    ensures
        collected(outcomes) == Err::<Seq<Seq<u8>>, AddressError>(e),
    decreases outcomes.len() - upto,
{
    if upto == outcomes.len() {
        assert(outcomes.take(upto) =~= outcomes);
    } else {
        let next = outcomes.take(upto + 1);
        assert(next.drop_last() =~= outcomes.take(upto));
        lemma_collected_stops(outcomes, upto + 1, e);
    }
}

/// Turns the outcomes of reading a list of texts into the list of addresses,
/// or into the first error among them.
pub fn all_or_first_error(outcomes: &Vec<Result<Address, AddressError>>) -> (res: Result<
    Vec<Address>,
    AddressError,
>)
    ensures
        match res {
            Ok(addresses) => collected(outcome_views(outcomes@)) == Ok::<
                Seq<Seq<u8>>,
                AddressError,
            >(address_views(addresses@)),
            Err(e) => collected(outcome_views(outcomes@)) == Err::<Seq<Seq<u8>>, AddressError>(e),
        },
{
    let ghost all = outcome_views(outcomes@);
    let mut addresses: Vec<Address> = Vec::new();
    let mut i: usize = 0;
    assert(all.take(0) =~= Seq::<Result<Seq<u8>, AddressError>>::empty());
    assert(address_views(addresses@) =~= Seq::<Seq<u8>>::empty());
    while i < outcomes.len()
        invariant
            i <= outcomes.len(),
            all == outcome_views(outcomes@),
            collected(all.take(i as int)) == Ok::<Seq<Seq<u8>>, AddressError>(
                address_views(addresses@),
            ),
        decreases outcomes.len() - i,
    {
        let ghost grown = all.take(i as int + 1);
        assert(grown.drop_last() =~= all.take(i as int));
        assert(grown.last() == outcome_view(outcomes@[i as int]));
        match outcomes[i] {
            Ok(address) => {
                proof {
                    addresses@.lemma_push_map_commute(|a: Address| a@, address);
                }
                addresses.push(address);
            },
            Err(e) => {
                proof {
                    lemma_collected_stops(all, i as int + 1, e);
                }
                return Err(e);
            },
        }
        i += 1;
    }
    assert(all.take(i as int) =~= all);
    Ok(addresses)
}

/// Reads every text of a list as an address: all of them, or the error of
/// the first that is not one.
pub fn parse_all(texts: &Vec<String>) -> (res: Result<Vec<Address>, AddressError>)
    ensures
        match res {
            Ok(addresses) => decode_all(text_views(texts@)) == Ok::<
                Seq<Seq<u8>>,
                AddressError,
            >(address_views(addresses@)),
            Err(e) => decode_all(text_views(texts@)) == Err::<Seq<Seq<u8>>, AddressError>(e),
        },
{
    let ghost wanted = text_views(texts@).map_values(|t: Seq<char>| base58_decoded(t));
    let mut outcomes: Vec<Result<Address, AddressError>> = Vec::new();
    let mut i: usize = 0;
    assert(outcome_views(outcomes@) =~= wanted.take(0));
    while i < texts.len()
        invariant
            i <= texts.len(),
            wanted == text_views(texts@).map_values(|t: Seq<char>| base58_decoded(t)),
            outcome_views(outcomes@) == wanted.take(i as int),
        decreases texts.len() - i,
    {
        let outcome = Address::parse(texts[i].as_str());
        proof {
            outcomes@.lemma_push_map_commute(
                |o: Result<Address, AddressError>| outcome_view(o),
                outcome,
            );
            assert(wanted.take(i as int + 1) =~= wanted.take(i as int).push(wanted[i as int]));
            assert(outcome_view(outcome) == wanted[i as int]);
        }
        outcomes.push(outcome);
        i += 1;
    }
    assert(wanted.take(i as int) =~= wanted);
    proof {
        lemma_decode_all_collects(text_views(texts@));
    }
    all_or_first_error(&outcomes)
}

/// The nine fixed texts, in the order of the fields of [`ProgramIds`].
pub open spec fn well_known_texts() -> Seq<Seq<char>> {
    seq![
        SWAP_PROGRAM@,
        TOKEN_PROGRAM@,
        TOKEN_2022_PROGRAM@,
        ASSOCIATED_TOKEN_PROGRAM@,
        SYSTEM_PROGRAM@,
        MEMO_PROGRAM@,
        SWAP_EXTRA_FIRST@,
        SWAP_EXTRA_SECOND@,
        SWAP_EXTRA_THIRD@,
    ]
}

impl ProgramIds {
    /// The nine addresses, in the order of the fields.
    pub open spec fn as_seq(&self) -> Seq<Seq<u8>> {
        seq![
            self.swap_program@,
            self.token_program@,
            self.token_2022_program@,
            self.associated_token_program@,
            self.system_program@,
            self.memo_program@,
            self.swap_extra_first@,
            self.swap_extra_second@,
            self.swap_extra_third@,
        ]
    }

    /// Every field holds the address that its text decodes to.
    pub open spec fn well_formed(&self) -> bool {
        &&& decodes_to(SWAP_PROGRAM@, self.swap_program@)
        &&& decodes_to(TOKEN_PROGRAM@, self.token_program@)
        &&& decodes_to(TOKEN_2022_PROGRAM@, self.token_2022_program@)
        &&& decodes_to(ASSOCIATED_TOKEN_PROGRAM@, self.associated_token_program@)
        &&& decodes_to(SYSTEM_PROGRAM@, self.system_program@)
        &&& decodes_to(MEMO_PROGRAM@, self.memo_program@)
        &&& decodes_to(SWAP_EXTRA_FIRST@, self.swap_extra_first@)
        &&& decodes_to(SWAP_EXTRA_SECOND@, self.swap_extra_second@)
        &&& decodes_to(SWAP_EXTRA_THIRD@, self.swap_extra_third@)
    }

    /// Decodes the nine fixed texts.
    pub fn resolve() -> (res: Result<ProgramIds, AddressError>)
        ensures
            match res {
                Ok(ids) => ids.well_formed() && decode_all(well_known_texts()) == Ok::<
                    Seq<Seq<u8>>,
                    AddressError,
                >(ids.as_seq()),
                Err(e) => decode_all(well_known_texts()) == Err::<Seq<Seq<u8>>, AddressError>(e),
            },
    {
        let mut texts: Vec<String> = Vec::new();
        texts.push(SWAP_PROGRAM.to_owned());
        texts.push(TOKEN_PROGRAM.to_owned());
        texts.push(TOKEN_2022_PROGRAM.to_owned());
        texts.push(ASSOCIATED_TOKEN_PROGRAM.to_owned());
        texts.push(SYSTEM_PROGRAM.to_owned());
        texts.push(MEMO_PROGRAM.to_owned());
        texts.push(SWAP_EXTRA_FIRST.to_owned());
        texts.push(SWAP_EXTRA_SECOND.to_owned());
        texts.push(SWAP_EXTRA_THIRD.to_owned());
        assert(text_views(texts@) =~= well_known_texts());
        match parse_all(&texts) {
            Err(e) => Err(e),
            Ok(found) => {
                proof {
                    lemma_decode_all_pointwise(well_known_texts(), address_views(found@));
                }
                let ids = ProgramIds {
                    swap_program: found[0],
                    token_program: found[1],
                    token_2022_program: found[2],
                    associated_token_program: found[3],
                    system_program: found[4],
                    memo_program: found[5],
                    swap_extra_first: found[6],
                    swap_extra_second: found[7],
                    swap_extra_third: found[8],
                };
                assert(ids.as_seq() =~= address_views(found@));
                assert(well_known_texts()[0] == SWAP_PROGRAM@);
                assert(well_known_texts()[1] == TOKEN_PROGRAM@);
                assert(well_known_texts()[2] == TOKEN_2022_PROGRAM@);
                assert(well_known_texts()[3] == ASSOCIATED_TOKEN_PROGRAM@);
                assert(well_known_texts()[4] == SYSTEM_PROGRAM@);
                assert(well_known_texts()[5] == MEMO_PROGRAM@);
                assert(well_known_texts()[6] == SWAP_EXTRA_FIRST@);
                assert(well_known_texts()[7] == SWAP_EXTRA_SECOND@);
                assert(well_known_texts()[8] == SWAP_EXTRA_THIRD@);
                Ok(ids)
            },
        }
    }
}

/// Where a whole list decodes, each text decodes to the address at its
/// place, and there are as many addresses as texts.
pub proof fn lemma_decode_all_pointwise(texts: Seq<Seq<char>>, addresses: Seq<Seq<u8>>)
    requires
        decode_all(texts) == Ok::<Seq<Seq<u8>>, AddressError>(addresses),
    ensures
        addresses.len() == texts.len(),
        forall|i: int|
            0 <= i < texts.len() ==> #[trigger] decodes_to(texts[i], addresses[i]),
    decreases texts.len(),
{
    if texts.len() > 0 {
        let front = decode_all(texts.drop_last())->Ok_0;
        lemma_decode_all_pointwise(texts.drop_last(), front);
        assert forall|i: int| 0 <= i < texts.len() implies #[trigger] decodes_to(
            texts[i],
            addresses[i],
        ) by {
            if i < texts.len() - 1 {
                assert(texts.drop_last()[i] == texts[i]);
            }
        }
    }
}

} // verus!
