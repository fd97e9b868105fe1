use anchor_lang::prelude::Pubkey;
use sol_swap::pda::{bytes_of, ESCROW_SEED, ESCROW_TOKEN_SEED, MAX_SEEDS, MAX_SEED_LEN};
use sol_swap::{
    create_program_address, find_escrow_address, find_escrow_token_address,
    find_program_address, Address, Authority,
};

fn address(fill: u8) -> Address {
    Address::new([fill; 32])
}

fn key(address: &Address) -> Pubkey {
    Pubkey::new_from_array(address.bytes)
}

#[test]
fn seed_markers_spell_their_names() {
    assert_eq!(&ESCROW_SEED[..], b"escrow");
    assert_eq!(&ESCROW_TOKEN_SEED[..], b"escrow_token");
    assert_eq!(MAX_SEEDS, 16);
    assert_eq!(MAX_SEED_LEN, 32);
    assert_eq!(bytes_of(&ESCROW_SEED), b"escrow".to_vec());
}

#[test]
fn address_equality_is_by_bytes() {
    let mut bytes = [7u8; 32];
    assert!(Address::new(bytes) == address(7));
    bytes[31] = 8;
    assert!(Address::new(bytes) != address(7));
    assert_eq!(bytes_of(&address(3).bytes), vec![3u8; 32]);
}

#[test]
fn escrow_address_is_the_program_derived_address() {
    let program = address(9);
    for fill in [0u8, 1, 2, 77, 200, 255] {
        let maker = address(fill);
        let (expected, bump) =
            Pubkey::find_program_address(&[b"escrow", &maker.bytes], &key(&program));
        let found = find_escrow_address(&program, &maker);
        assert_eq!(found, Some((Address::new(expected.to_bytes()), bump)));
    }
}

#[test]
fn escrow_token_address_is_the_program_derived_address() {
    let program = address(9);
    for fill in [0u8, 5, 130] {
        let maker = address(fill);
        let (escrow, _) = find_escrow_address(&program, &maker).unwrap();
        let (expected, bump) =
            Pubkey::find_program_address(&[b"escrow_token", &escrow.bytes], &key(&program));
        let found = find_escrow_token_address(&program, &escrow);
        assert_eq!(found, Some((Address::new(expected.to_bytes()), bump)));
        assert!(expected.to_bytes() != escrow.bytes);
    }
}

#[test]
fn derivation_is_idempotent() {
    let program = address(42);
    let maker = address(17);
    let first = find_escrow_address(&program, &maker);
    let second = find_escrow_address(&program, &maker);
    assert!(first.is_some());
    assert_eq!(first, second);
    let escrow = first.unwrap().0;
    assert_eq!(
        find_escrow_token_address(&program, &escrow),
        find_escrow_token_address(&program, &escrow)
    );
}

#[test]
fn derivation_depends_on_maker_and_program() {
    let found = find_escrow_address(&address(1), &address(2)).unwrap();
    assert!(found != find_escrow_address(&address(1), &address(3)).unwrap());
    assert!(found.0 != find_escrow_address(&address(4), &address(2)).unwrap().0);
    assert!(found.0 != address(2));
}

#[test]
fn general_search_agrees_with_the_sdk() {
    let program = address(200);
    let cases: Vec<Vec<Vec<u8>>> = vec![
        vec![],
        vec![b"vault".to_vec()],
        vec![b"a".to_vec(), vec![], vec![1u8; 32]],
        vec![vec![9u8; 32]; 15],
    ];
    for seeds in cases {
        let parts: Vec<&[u8]> = seeds.iter().map(|seed| seed.as_slice()).collect();
        let expected = Pubkey::try_find_program_address(&parts, &key(&program))
            .map(|(found, bump)| (Address::new(found.to_bytes()), bump));
        assert!(expected.is_some());
        assert_eq!(find_program_address(&seeds, &program), expected);
    }
}

#[test]
fn search_rejects_seeds_beyond_the_limits() {
    let program = address(200);
    let too_many: Vec<Vec<u8>> = vec![vec![1u8]; 16];
    assert_eq!(find_program_address(&too_many, &program), None);
    let too_long: Vec<Vec<u8>> = vec![vec![1u8; 33]];
    assert_eq!(find_program_address(&too_long, &program), None);
    let parts: Vec<&[u8]> = too_long.iter().map(|seed| seed.as_slice()).collect();
    assert_eq!(Pubkey::try_find_program_address(&parts, &key(&program)), None);
}

#[test]
fn creation_rejects_seeds_beyond_the_limits() {
    let program = address(200);
    let too_many: Vec<Vec<u8>> = vec![vec![1u8]; 17];
    assert_eq!(create_program_address(&too_many, &program), None);
    let too_long: Vec<Vec<u8>> = vec![vec![], vec![1u8; 33]];
    assert_eq!(create_program_address(&too_long, &program), None);
    let parts: Vec<&[u8]> = too_long.iter().map(|seed| seed.as_slice()).collect();
    assert!(Pubkey::create_program_address(&parts, &key(&program)).is_err());
}

#[test]
fn found_bump_derives_the_found_address() {
    let program = address(11);
    let seeds: Vec<Vec<u8>> = vec![b"escrow".to_vec(), vec![5u8; 32]];
    let (found, bump) = find_program_address(&seeds, &program).unwrap();
    let mut with_bump = seeds.clone();
    with_bump.push(vec![bump]);
    assert_eq!(create_program_address(&with_bump, &program), Some(found));
    let parts: Vec<&[u8]> = with_bump.iter().map(|seed| seed.as_slice()).collect();
    let expected = Pubkey::create_program_address(&parts, &key(&program)).unwrap();
    assert_eq!(found.bytes, expected.to_bytes());
}

#[test]
fn create_program_address_agrees_with_the_sdk_on_every_bump() {
    let program = address(11);
    let mut invalid = 0;
    for bump in 0..=255u8 {
        let seeds: Vec<Vec<u8>> = vec![b"escrow".to_vec(), vec![5u8; 32], vec![bump]];
        let parts: Vec<&[u8]> = seeds.iter().map(|seed| seed.as_slice()).collect();
        let expected = Pubkey::create_program_address(&parts, &key(&program))
            .ok()
            .map(|found| Address::new(found.to_bytes()));
        if expected.is_none() {
            invalid += 1;
        }
        assert_eq!(create_program_address(&seeds, &program), expected);
    }
    assert!(invalid > 0);
}

#[test]
fn authority_resolves_to_its_one_address() {
    let program = address(11);
    let maker = address(5);
    let (escrow, bump) = find_escrow_address(&program, &maker).unwrap();
    let (custody, token_bump) = find_escrow_token_address(&program, &escrow).unwrap();

    assert_eq!(Authority::Signature { signer: maker }.resolve(&program), Some(maker));
    assert_eq!(Authority::Escrow { maker, bump }.resolve(&program), Some(escrow));
    assert_eq!(
        Authority::EscrowToken { escrow, bump: token_bump }.resolve(&program),
        Some(custody)
    );

    assert!(Authority::Escrow { maker, bump }.permits(&program, &escrow));
    assert!(!Authority::Escrow { maker, bump }.permits(&program, &maker));
    assert!(!Authority::Escrow { maker, bump }.permits(&program, &custody));
    assert!(!Authority::Signature { signer: maker }.permits(&program, &escrow));
    assert!(!Authority::Escrow { maker, bump: bump.wrapping_sub(1) }.permits(&program, &escrow));
    assert!(!Authority::Escrow { maker, bump }.permits(&address(12), &escrow));
}
