use escrow::address::Address;
use escrow::authority::{Authority, ESCROW_SEED};
use solana_program::pubkey::Pubkey;

#[test]
fn seed_is_the_word_escrow() {
    assert_eq!(&ESCROW_SEED, b"escrow");
}

#[test]
fn authority_is_the_program_derived_address() {
    for fill in [0u8, 1, 42, 200, 255] {
        let program = Pubkey::new_from_array([fill; 32]);
        let (address, bump) = Pubkey::find_program_address(&[b"escrow"], &program);
        let found = Authority::find(&Address::new([fill; 32])).unwrap();
        assert_eq!(found.address.to_bytes(), address.to_bytes());
        assert_eq!(found.bump, bump);
    }
}

#[test]
fn authority_differs_from_the_program() {
    let program = Address::new([42u8; 32]);
    let found = Authority::find(&program).unwrap();
    assert_ne!(found.address, program);
}

#[test]
fn authority_is_rebuilt_from_seed_and_bump() {
    let program = Pubkey::new_from_array([7u8; 32]);
    let found = Authority::find(&Address::new([7u8; 32])).unwrap();
    let rebuilt = Pubkey::create_program_address(&[&ESCROW_SEED, &[found.bump]], &program).unwrap();
    assert_eq!(rebuilt.to_bytes(), found.address.to_bytes());
    assert!(!rebuilt.is_on_curve());
}

#[test]
fn derivation_is_stable() {
    let program = Address::new([9u8; 32]);
    let first = Authority::find(&program);
    let second = Authority::find(&program);
    assert!(first.is_some());
    assert_eq!(first, second);
}

#[test]
fn programs_have_their_own_authorities() {
    let a = Authority::find(&Address::new([1u8; 32])).unwrap();
    let b = Authority::find(&Address::new([2u8; 32])).unwrap();
    assert_ne!(a.address, b.address);
}
