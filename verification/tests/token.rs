use escrow::address::Address;
use escrow::errors::Failure;
use escrow::token;
use escrow::token::{AccountMeta, Instruction};
use solana_program::program_error::ProgramError;
use solana_program::program_option::COption;
use solana_program::program_pack::Pack;
use solana_program::pubkey::Pubkey;
use spl_token::state::{Account as TokenAccount, AccountState};

fn address(fill: u8) -> Address {
    Address::new([fill; 32])
}

fn pubkey(address: &Address) -> Pubkey {
    Pubkey::new_from_array(address.to_bytes())
}

fn adopted(built: solana_program::instruction::Instruction) -> Instruction {
    Instruction {
        program_id: Address::new(built.program_id.to_bytes()),
        accounts: built
            .accounts
            .iter()
            .map(|meta| AccountMeta {
                pubkey: Address::new(meta.pubkey.to_bytes()),
                is_signer: meta.is_signer,
                is_writable: meta.is_writable,
            })
            .collect(),
        data: built.data,
    }
}

fn token_account(amount: u64, state: AccountState) -> Vec<u8> {
    let account = TokenAccount {
        mint: Pubkey::new_from_array([11u8; 32]),
        owner: Pubkey::new_from_array([12u8; 32]),
        amount,
        delegate: COption::None,
        state,
        is_native: COption::None,
        delegated_amount: 0,
        close_authority: COption::None,
    };
    let mut data = vec![0u8; TokenAccount::LEN];
    TokenAccount::pack(account, &mut data).unwrap();
    data
}

#[test]
fn id_is_the_token_program() {
    assert_eq!(token::id().to_bytes(), spl_token::id().to_bytes());
    assert_eq!(
        token::id().to_bytes(),
        [
            6, 221, 246, 225, 215, 101, 161, 147, 217, 203, 225, 70, 206, 235, 121, 172, 28, 180,
            133, 237, 95, 91, 55, 145, 58, 140, 245, 133, 126, 255, 0, 169
        ]
    );
}

#[test]
fn transfer_names_source_destination_and_authority() {
    let request =
        token::transfer(&token::id(), &address(1), &address(2), &address(3), 500).unwrap();
    assert_eq!(request.program_id, token::id());
    assert_eq!(
        request.accounts,
        vec![
            AccountMeta { pubkey: address(1), is_signer: false, is_writable: true },
            AccountMeta { pubkey: address(2), is_signer: false, is_writable: true },
            AccountMeta { pubkey: address(3), is_signer: false, is_writable: false },
            AccountMeta { pubkey: address(3), is_signer: true, is_writable: false },
        ]
    );
    assert_eq!(request.data, vec![3, 0xf4, 0x01, 0, 0, 0, 0, 0, 0]);
}

#[test]
fn transfer_is_what_the_token_crate_builds() {
    let signer = pubkey(&address(3));
    let built = spl_token::instruction::transfer(
        &spl_token::id(),
        &pubkey(&address(1)),
        &pubkey(&address(2)),
        &signer,
        &[&signer],
        u64::MAX,
    )
    .unwrap();
    let request =
        token::transfer(&token::id(), &address(1), &address(2), &address(3), u64::MAX).unwrap();
    assert_eq!(request, adopted(built));
}

#[test]
fn set_owner_names_the_new_owner_in_its_data() {
    let request = token::set_owner(&token::id(), &address(1), &address(9), &address(3)).unwrap();
    assert_eq!(request.program_id, token::id());
    assert_eq!(
        request.accounts,
        vec![
            AccountMeta { pubkey: address(1), is_signer: false, is_writable: true },
            AccountMeta { pubkey: address(3), is_signer: false, is_writable: false },
            AccountMeta { pubkey: address(3), is_signer: true, is_writable: false },
        ]
    );
    let mut data = vec![6u8, 2, 1];
    data.extend_from_slice(&[9u8; 32]);
    assert_eq!(request.data, data);
}

#[test]
fn set_owner_is_what_the_token_crate_builds() {
    let signer = pubkey(&address(3));
    let built = spl_token::instruction::set_authority(
        &spl_token::id(),
        &pubkey(&address(1)),
        Some(&pubkey(&address(9))),
        spl_token::instruction::AuthorityType::AccountOwner,
        &signer,
        &[&signer],
    )
    .unwrap();
    let request = token::set_owner(&token::id(), &address(1), &address(9), &address(3)).unwrap();
    assert_eq!(request, adopted(built));
}

#[test]
fn close_account_names_account_destination_and_owner() {
    let request =
        token::close_account(&token::id(), &address(1), &address(2), &address(3)).unwrap();
    assert_eq!(request.program_id, token::id());
    assert_eq!(
        request.accounts,
        vec![
            AccountMeta { pubkey: address(1), is_signer: false, is_writable: true },
            AccountMeta { pubkey: address(2), is_signer: false, is_writable: true },
            AccountMeta { pubkey: address(3), is_signer: false, is_writable: false },
            AccountMeta { pubkey: address(3), is_signer: true, is_writable: false },
        ]
    );
    assert_eq!(request.data, vec![9]);
}

#[test]
fn close_account_is_what_the_token_crate_builds() {
    let signer = pubkey(&address(3));
    let built = spl_token::instruction::close_account(
        &spl_token::id(),
        &pubkey(&address(1)),
        &pubkey(&address(2)),
        &signer,
        &[&signer],
    )
    .unwrap();
    let request =
        token::close_account(&token::id(), &address(1), &address(2), &address(3)).unwrap();
    assert_eq!(request, adopted(built));
}

#[test]
fn requests_to_another_program_are_refused() {
    let other = address(77);
    assert_eq!(
        token::transfer(&other, &address(1), &address(2), &address(3), 1),
        Err(Failure::IncorrectProgramId)
    );
    assert_eq!(
        token::set_owner(&other, &address(1), &address(2), &address(3)),
        Err(Failure::IncorrectProgramId)
    );
    assert_eq!(
        token::close_account(&other, &address(1), &address(2), &address(3)),
        Err(Failure::IncorrectProgramId)
    );
    let signer = pubkey(&address(3));
    assert_eq!(
        spl_token::instruction::transfer(
            &pubkey(&other),
            &pubkey(&address(1)),
            &pubkey(&address(2)),
            &signer,
            &[&signer],
            1
        ),
        Err(ProgramError::IncorrectProgramId)
    );
}

#[test]
fn balance_reads_the_amount() {
    assert_eq!(token::balance(&token_account(0, AccountState::Initialized)), Ok(0));
    assert_eq!(token::balance(&token_account(1_000, AccountState::Initialized)), Ok(1_000));
    assert_eq!(token::balance(&token_account(u64::MAX, AccountState::Frozen)), Ok(u64::MAX));
}

#[test]
fn balance_is_at_bytes_64_to_71() {
    let mut data = token_account(0, AccountState::Initialized);
    data[64..72].copy_from_slice(&[1, 2, 3, 4, 5, 6, 7, 8]);
    assert_eq!(token::balance(&data), Ok(0x0807_0605_0403_0201));
    let mut with_options = token_account(77, AccountState::Initialized);
    with_options[72] = 1;
    with_options[109] = 1;
    with_options[129] = 1;
    assert_eq!(token::balance(&with_options), Ok(77));
    assert_eq!(TokenAccount::unpack(&with_options).unwrap().amount, 77);
}

#[test]
fn balance_of_an_uninitialized_account_is_refused() {
    let data = token_account(5, AccountState::Uninitialized);
    assert_eq!(token::balance(&data), Err(Failure::UninitializedAccount));
    assert_eq!(TokenAccount::unpack(&data), Err(ProgramError::UninitializedAccount));
    assert_eq!(token::balance(&[0u8; 165]), Err(Failure::UninitializedAccount));
}

#[test]
fn balance_of_malformed_data_is_refused() {
    assert_eq!(token::balance(&[]), Err(Failure::InvalidAccountData));
    assert_eq!(token::balance(&[1u8; 164]), Err(Failure::InvalidAccountData));
    assert_eq!(token::balance(&[0u8; 166]), Err(Failure::InvalidAccountData));
    for (at, value) in [(72usize, 2u8), (73, 1), (108, 3), (109, 2), (112, 1), (129, 9), (131, 1)] {
        let mut data = token_account(5, AccountState::Initialized);
        data[at] = value;
        assert_eq!(token::balance(&data), Err(Failure::InvalidAccountData));
        assert_eq!(TokenAccount::unpack(&data), Err(ProgramError::InvalidAccountData));
    }
}

#[test]
fn malformed_comes_before_uninitialized() {
    let mut data = token_account(5, AccountState::Uninitialized);
    data[129] = 2;
    assert_eq!(token::balance(&data), Err(Failure::InvalidAccountData));
}
