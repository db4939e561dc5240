use escrow::account::Account;
use escrow::address::Address;
use escrow::errors::Failure;
use escrow::rent::is_exempt;
use solana_program::rent::Rent;

fn terms(rate: u64, threshold: f64, burn: u8) -> Vec<u8> {
    let mut data = rate.to_le_bytes().to_vec();
    data.extend_from_slice(&threshold.to_le_bytes());
    data.push(burn);
    data
}

fn rent_account(data: Vec<u8>) -> Account {
    Account {
        key: Address::new(solana_program::sysvar::rent::id().to_bytes()),
        is_signer: false,
        is_writable: false,
        lamports: 1,
        data,
        owner: Address::new(solana_program::sysvar::id().to_bytes()),
        executable: false,
        rent_epoch: 0,
    }
}

#[test]
fn default_terms_ask_for_two_years_of_rent() {
    let rent = rent_account(terms(3480, 2.0, 50));
    assert_eq!(Rent::default().minimum_balance(105), 1_621_680);
    assert_eq!(is_exempt(&rent, 1_621_680, 105), Ok(true));
    assert_eq!(is_exempt(&rent, 1_621_679, 105), Ok(false));
    assert_eq!(is_exempt(&rent, u64::MAX, 105), Ok(true));
    assert_eq!(is_exempt(&rent, 0, 105), Ok(false));
}

#[test]
fn an_empty_account_still_pays_for_its_overhead() {
    let rent = rent_account(terms(3480, 2.0, 50));
    assert_eq!(is_exempt(&rent, 890_880, 0), Ok(true));
    assert_eq!(is_exempt(&rent, 890_879, 0), Ok(false));
}

#[test]
fn answers_are_those_of_the_ledger() {
    for (rate, threshold) in [(3480u64, 2.0f64), (5, 2.5), (0, 2.0), (1, 0.0), (1000, 0.5)] {
        let rent = rent_account(terms(rate, threshold, 50));
        let ledger = Rent { lamports_per_byte_year: rate, exemption_threshold: threshold, burn_percent: 50 };
        for len in [0usize, 1, 105, 165, 10_000] {
            let minimum = ledger.minimum_balance(len);
            assert_eq!(is_exempt(&rent, minimum, len), Ok(true));
            if minimum > 0 {
                assert_eq!(is_exempt(&rent, minimum - 1, len), Ok(false));
            }
            assert_eq!(is_exempt(&rent, 12_345, len), Ok(ledger.is_exempt(12_345, len)));
        }
    }
}

#[test]
fn free_terms_exempt_every_account() {
    let rent = rent_account(terms(0, 2.0, 50));
    assert_eq!(is_exempt(&rent, 0, 105), Ok(true));
    assert_eq!(is_exempt(&rent, 0, usize::MAX - 128), Ok(true));
}

#[test]
fn bytes_after_the_terms_are_ignored() {
    let mut data = terms(3480, 2.0, 50);
    data.extend_from_slice(&[0xaa; 9]);
    let rent = rent_account(data);
    assert_eq!(is_exempt(&rent, 1_621_680, 105), Ok(true));
    assert_eq!(is_exempt(&rent, 1_621_679, 105), Ok(false));
}

#[test]
fn another_account_gives_no_terms() {
    let mut rent = rent_account(terms(3480, 2.0, 50));
    rent.key = Address::new([4u8; 32]);
    assert_eq!(is_exempt(&rent, u64::MAX, 105), Err(Failure::InvalidArgument));
    assert_eq!(is_exempt(&rent, 0, 105), Err(Failure::InvalidArgument));
}

#[test]
fn truncated_terms_are_refused() {
    let mut data = terms(3480, 2.0, 50);
    data.pop();
    assert_eq!(is_exempt(&rent_account(data), u64::MAX, 105), Err(Failure::InvalidArgument));
    assert_eq!(is_exempt(&rent_account(Vec::new()), u64::MAX, 105), Err(Failure::InvalidArgument));
}

#[test]
fn a_price_beyond_64_bits_is_refused() {
    let rent = rent_account(terms(u64::MAX, 2.0, 50));
    assert_eq!(is_exempt(&rent, u64::MAX, 105), Err(Failure::InvalidArgument));
    let at_the_limit = rent_account(terms(u64::MAX / 233, 2.0, 50));
    assert!(is_exempt(&at_the_limit, u64::MAX, 105).is_ok());
    let beyond = rent_account(terms(u64::MAX / 233 + 1, 2.0, 50));
    assert_eq!(is_exempt(&beyond, u64::MAX, 105), Err(Failure::InvalidArgument));
}

#[test]
fn a_size_beyond_64_bits_is_refused() {
    let rent = rent_account(terms(0, 2.0, 50));
    assert_eq!(is_exempt(&rent, u64::MAX, usize::MAX), Err(Failure::InvalidArgument));
    assert_eq!(is_exempt(&rent, u64::MAX, usize::MAX - 127), Err(Failure::InvalidArgument));
}
