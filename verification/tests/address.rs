use std::str::FromStr;

use solana_sdk::pubkey::Pubkey;
use tax_rewards::address::{Address, AddressError};
use tax_rewards::programs::{
    all_or_first_error, parse_all, ProgramIds, ASSOCIATED_TOKEN_PROGRAM, SYSTEM_PROGRAM,
    TOKEN_PROGRAM,
};

#[test]
fn parse_reads_the_token_program() {
    let parsed = Address::parse(TOKEN_PROGRAM).unwrap();
    assert_eq!(
        parsed.to_bytes(),
        [
            6, 221, 246, 225, 215, 101, 161, 147, 217, 203, 225, 70, 206, 235, 121, 172, 28, 180,
            133, 237, 95, 91, 55, 145, 58, 140, 245, 133, 126, 255, 0, 169
        ]
    );
    assert_eq!(parsed.to_bytes(), spl_token::id().to_bytes());
}

#[test]
fn parse_reads_the_system_program_as_zeroes() {
    assert_eq!(Address::parse(SYSTEM_PROGRAM).unwrap(), Address::new([0u8; 32]));
}

#[test]
fn parse_rejects_a_character_outside_the_alphabet() {
    assert_eq!(
        Address::parse("0okenkegQfeZyiNwAJbNbGKPFXCWuBvf9Ss623VQ5DA").unwrap_err(),
        AddressError::Invalid
    );
}

#[test]
fn parse_rejects_a_text_of_the_wrong_size() {
    assert_eq!(Address::parse("abc").unwrap_err(), AddressError::WrongSize);
    let long = "1".repeat(45);
    assert_eq!(Address::parse(&long).unwrap_err(), AddressError::WrongSize);
    assert_eq!(Address::parse("").unwrap_err(), AddressError::WrongSize);
}

#[test]
fn same_as_compares_bytes() {
    let a = Address::new([7u8; 32]);
    let mut other = [7u8; 32];
    assert!(a.same_as(&Address::new(other)));
    other[31] = 8;
    assert!(!a.same_as(&Address::new(other)));
    assert_eq!(a.to_vec(), vec![7u8; 32]);
}

#[test]
fn associated_depends_on_the_order_of_the_seeds() {
    let wallet = Address::new([9u8; 32]);
    let mint = Address::new([4u8; 32]);
    let token_program = Address::parse(TOKEN_PROGRAM).unwrap();
    let ata_program = Address::parse(ASSOCIATED_TOKEN_PROGRAM).unwrap();
    let one = Address::associated(&wallet, &token_program, &mint, &ata_program).unwrap();
    let other = Address::associated(&mint, &token_program, &wallet, &ata_program).unwrap();
    assert_ne!(one, other);
    assert_ne!(one, wallet);
    let (expected, _) = Pubkey::find_program_address(
        &[&[4u8; 32], &token_program.to_bytes(), &[9u8; 32]],
        &Pubkey::from_str(ASSOCIATED_TOKEN_PROGRAM).unwrap(),
    );
    assert_eq!(other.to_bytes(), expected.to_bytes());
}

#[test]
fn associated_is_the_associated_token_address() {
    let wallet = Address::new([9u8; 32]);
    let mint = Address::new([4u8; 32]);
    let token_program = Address::parse(TOKEN_PROGRAM).unwrap();
    let ata_program = Address::parse(ASSOCIATED_TOKEN_PROGRAM).unwrap();
    let found = Address::associated(&wallet, &token_program, &mint, &ata_program).unwrap();
    let expected = spl_associated_token_account::get_associated_token_address(
        &Pubkey::new_from_array([9u8; 32]),
        &Pubkey::new_from_array([4u8; 32]),
    );
    assert_eq!(found.to_bytes(), expected.to_bytes());
}

#[test]
fn parse_all_keeps_order_and_stops_at_the_first_error() {
    let good = vec![TOKEN_PROGRAM.to_string(), SYSTEM_PROGRAM.to_string()];
    let parsed = parse_all(&good).unwrap();
    assert_eq!(parsed.len(), 2);
    assert_eq!(parsed[0], Address::parse(TOKEN_PROGRAM).unwrap());
    assert_eq!(parsed[1], Address::new([0u8; 32]));
    let bad = vec![TOKEN_PROGRAM.to_string(), "abc".to_string(), "0".to_string()];
    assert_eq!(parse_all(&bad).unwrap_err(), AddressError::WrongSize);
    assert_eq!(parse_all(&Vec::new()).unwrap(), Vec::<Address>::new());
}

#[test]
fn the_first_error_among_the_outcomes_wins() {
    let a = Address::new([1u8; 32]);
    let b = Address::new([2u8; 32]);
    assert_eq!(all_or_first_error(&vec![Ok(a), Ok(b)]), Ok(vec![a, b]));
    assert_eq!(
        all_or_first_error(&vec![Ok(a), Err(AddressError::Invalid), Err(AddressError::WrongSize)]),
        Err(AddressError::Invalid)
    );
    assert_eq!(all_or_first_error(&Vec::new()), Ok(Vec::new()));
}

#[test]
fn resolve_reads_every_fixed_text() {
    let ids = ProgramIds::resolve().unwrap();
    assert_eq!(ids.token_program.to_bytes(), spl_token::id().to_bytes());
    assert_eq!(ids.associated_token_program.to_bytes(), spl_associated_token_account::id().to_bytes());
    assert_eq!(ids.system_program, Address::new([0u8; 32]));
    assert_eq!(
        ids.swap_program.to_bytes(),
        Pubkey::from_str("CAMMCzo5YL8w4VFF8KVHrK22GGUsp5VTaW7grrKgrWqK").unwrap().to_bytes()
    );
    assert_eq!(
        ids.memo_program.to_bytes(),
        Pubkey::from_str("MemoSq4gqABAXKb96qnH8TysNcWxMyWCqXgDLGmfcHr").unwrap().to_bytes()
    );
}
