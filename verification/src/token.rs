//! What the escrow asks of the token program: the requests it sends, and the
//! balance it reads out of a token account.

use crate::address::Address;
use crate::codec::{le_u64, u64_le};
use crate::errors::Failure;
use solana_program::program_error::ProgramError;
use solana_program::program_pack::Pack;
use solana_program::pubkey::Pubkey;
use vstd::prelude::*;

verus! {

/// One account of a request: its address, and how the request uses it.
#[derive(Clone, Copy, Debug, PartialEq, Eq)]
pub struct AccountMeta {
    /// The address of the account.
    pub pubkey: Address,
    /// Whether the request needs the account's signature.
    pub is_signer: bool,
    /// Whether the request may change the account.
    pub is_writable: bool,
}

/// One account of a request as a mathematical value.
pub struct AccountMetaView {
    pub pubkey: Seq<u8>,
    pub is_signer: bool,
    pub is_writable: bool,
}

impl View for AccountMeta {
    type V = AccountMetaView;

    open spec fn view(&self) -> AccountMetaView {
        AccountMetaView {
            pubkey: self.pubkey@,
            is_signer: self.is_signer,
            is_writable: self.is_writable,
        }
    }
}

/// A request to a program: which program, on which accounts, with what data.
#[derive(Clone, Debug, PartialEq, Eq)]
pub struct Instruction {
    /// The program that is asked.
    pub program_id: Address,
    /// The accounts that the request names, in order.
    pub accounts: Vec<AccountMeta>,
    /// The encoded command.
    pub data: Vec<u8>,
}

/// A request as a mathematical value.
pub struct InstructionView {
    pub program_id: Seq<u8>,
    pub accounts: Seq<AccountMetaView>,
    pub data: Seq<u8>,
}

impl View for Instruction {
    type V = InstructionView;

    open spec fn view(&self) -> InstructionView {
        InstructionView {
            program_id: self.program_id@,
            accounts: self.accounts@.map_values(|m: AccountMeta| m@),
            data: self.data@,
        }
    }
}

/// The address of the token program.
pub open spec fn token_program_id() -> Seq<u8> {
    seq![
        6u8, 221u8, 246u8, 225u8, 215u8, 101u8, 161u8, 147u8, 217u8, 203u8, 225u8, 70u8, 206u8,
        235u8, 121u8, 172u8, 28u8, 180u8, 133u8, 237u8, 95u8, 91u8, 55u8, 145u8, 58u8, 140u8,
        245u8, 133u8, 126u8, 255u8, 0u8, 169u8,
    ]
}

/// An account that the request may change and that does not sign.
pub open spec fn writable(pubkey: Seq<u8>) -> AccountMetaView {
    AccountMetaView { pubkey, is_signer: false, is_writable: true }
}

/// An account that the request only reads.
pub open spec fn readonly(pubkey: Seq<u8>, is_signer: bool) -> AccountMetaView {
    AccountMetaView { pubkey, is_signer, is_writable: false }
}

/// The request that moves `amount` tokens from `source` to `destination` on
/// the word of `authority`, which is named once as the owner and once more
/// as the signer.
pub open spec fn transfer_request(
    token_program: Seq<u8>,
    source: Seq<u8>,
    destination: Seq<u8>,
    authority: Seq<u8>,
    amount: u64,
) -> InstructionView {
    InstructionView {
        program_id: token_program,
        accounts: seq![
            writable(source),
            writable(destination),
            readonly(authority, false),
            readonly(authority, true),
        ],
        data: seq![3u8] + u64_le(amount),
    }
}

/// The request that makes `new_owner` the owner of the token account
/// `account` on the word of `current_owner`.
pub open spec fn set_owner_request(
    token_program: Seq<u8>,
    account: Seq<u8>,
    new_owner: Seq<u8>,
    current_owner: Seq<u8>,
) -> InstructionView {
    InstructionView {
        program_id: token_program,
        accounts: seq![
            writable(account),
            readonly(current_owner, false),
            readonly(current_owner, true),
        ],
        data: seq![6u8, 2u8, 1u8] + new_owner,
    }
}

/// The request that closes the token account `account` on the word of
/// `owner` and credits its deposit to `destination`.
pub open spec fn close_account_request(
    token_program: Seq<u8>,
    account: Seq<u8>,
    destination: Seq<u8>,
    owner: Seq<u8>,
) -> InstructionView {
    InstructionView {
        program_id: token_program,
        accounts: seq![
            writable(account),
            writable(destination),
            readonly(owner, false),
            readonly(owner, true),
        ],
        data: seq![9u8],
    }
}

/// Whether the four bytes at `at` are the tag of an optional field: a zero
/// or a one, then three zeros.
pub open spec fn option_tag(data: Seq<u8>, at: int) -> bool {
    &&& data[at] <= 1
    &&& data[at + 1] == 0
    &&& data[at + 2] == 0
    &&& data[at + 3] == 0
}

/// Whether `data` has the layout of a token account: 165 bytes, a state byte
/// of at most two, and well-formed tags before the delegate, the native
/// reserve and the close authority.
pub open spec fn token_account_layout(data: Seq<u8>) -> bool {
    &&& data.len() == 165
    &&& option_tag(data, 72)
    &&& data[108] <= 2
    &&& option_tag(data, 109)
    &&& option_tag(data, 129)
}

/// The balance of the token account held in `data`: the eight bytes after the
/// mint and the owner. An account whose state byte is zero is uninitialized.
pub open spec fn token_balance(data: Seq<u8>) -> Result<u64, Failure> {
    if !token_account_layout(data) {
        Err(Failure::InvalidAccountData)
    } else if data[108] == 0 {
        Err(Failure::UninitializedAccount)
    } else {
        Ok(le_u64(data.subrange(64, 72)) as u64)
    }
}

/// The address of the token program.
pub fn id() -> (id: Address)
    ensures
        id@ == token_program_id(),
{
    spl_token_id()
}

/// Builds the request that moves `amount` tokens from `source` to
/// `destination`, signed by `authority`. Fails with `IncorrectProgramId`
/// unless `token_program` is the token program.
pub fn transfer(
    token_program: &Address,
    source: &Address,
    destination: &Address,
    authority: &Address,
    amount: u64,
) -> (r: Result<Instruction, Failure>)
    ensures
        token_program@ != token_program_id() ==> r == Err::<Instruction, Failure>(
            Failure::IncorrectProgramId,
        ),
        token_program@ == token_program_id() ==> r is Ok && r->Ok_0@ == transfer_request(
            token_program@,
            source@,
            destination@,
            authority@,
            amount,
        ),
{
    match spl_transfer(token_program, source, destination, authority, amount) {
        Some(request) => Ok(request),
        None => Err(Failure::IncorrectProgramId),
    }
}

/// Builds the request that hands the token account `account` from
/// `current_owner`, who signs, to `new_owner`. Fails with
/// `IncorrectProgramId` unless `token_program` is the token program.
pub fn set_owner(
    token_program: &Address,
    account: &Address,
    new_owner: &Address,
    current_owner: &Address,
) -> (r: Result<Instruction, Failure>)
    ensures
        token_program@ != token_program_id() ==> r == Err::<Instruction, Failure>(
            Failure::IncorrectProgramId,
        ),
        token_program@ == token_program_id() ==> r is Ok && r->Ok_0@ == set_owner_request(
            token_program@,
            account@,
            new_owner@,
            current_owner@,
        ),
{
    match spl_set_owner(token_program, account, new_owner, current_owner) {
        Some(request) => Ok(request),
        None => Err(Failure::IncorrectProgramId),
    }
}

/// Builds the request that closes the token account `account`, signed by
/// `owner`, in favour of `destination`. Fails with `IncorrectProgramId`
/// unless `token_program` is the token program.
pub fn close_account(
    token_program: &Address,
    account: &Address,
    destination: &Address,
    owner: &Address,
) -> (r: Result<Instruction, Failure>)
    ensures
        token_program@ != token_program_id() ==> r == Err::<Instruction, Failure>(
            Failure::IncorrectProgramId,
        ),
        token_program@ == token_program_id() ==> r is Ok && r->Ok_0@ == close_account_request(
            token_program@,
            account@,
            destination@,
            owner@,
        ),
{
    match spl_close_account(token_program, account, destination, owner) {
        Some(request) => Ok(request),
        None => Err(Failure::IncorrectProgramId),
    }
}

/// Reads the balance out of the data of a token account. Fails with
/// `InvalidAccountData` when the data has not the layout of a token account,
/// and with `UninitializedAccount` when the account is not initialized.
pub fn balance(data: &[u8]) -> (r: Result<u64, Failure>)
    ensures
        r == token_balance(data@),
{
    spl_unpack_amount(data)
}

/// `spl_token::id`: the contract gives the thirty-two bytes of the address
/// that the crate declares for the token program.
#[verifier::external_body]
fn spl_token_id() -> (id: Address)
    ensures
        id@ == token_program_id(),
{
    Address { bytes: spl_token::id().to_bytes() }
}

/// `spl_token::instruction::transfer` with the authority as its only signer.
/// The contract says that the call fails exactly when `token_program` is not
/// the token program, and otherwise gives the request field by field: the
/// program, the source and the destination as writable accounts, the
/// authority twice as read-only account, the second time as signer, and as
/// data the tag 3 and the amount in little-endian order.
#[verifier::external_body]
fn spl_transfer(
    token_program: &Address,
    source: &Address,
    destination: &Address,
    authority: &Address,
    amount: u64,
) -> (r: Option<Instruction>)
    ensures
        r is Some <==> token_program@ == token_program_id(),
        r matches Some(request) ==> request@ == transfer_request(
            token_program@,
            source@,
            destination@,
            authority@,
            amount,
        ),
{
    let signer = Pubkey::new_from_array(authority.bytes);
    let built = spl_token::instruction::transfer(
        &Pubkey::new_from_array(token_program.bytes),
        &Pubkey::new_from_array(source.bytes),
        &Pubkey::new_from_array(destination.bytes),
        &signer,
        &[&signer],
        amount,
    ).ok()?;
    Some(Instruction {
        program_id: Address { bytes: built.program_id.to_bytes() },
        accounts: built.accounts.iter().map(|m| AccountMeta { pubkey: Address { bytes: m.pubkey.to_bytes() }, is_signer: m.is_signer, is_writable: m.is_writable }).collect(),
        data: built.data,
    })
}

/// `spl_token::instruction::set_authority` for the authority of kind
/// `AccountOwner`, with the current owner as its only signer. The contract
/// says that the call fails exactly when `token_program` is not the token
/// program, and otherwise gives the request field by field: the program, the
/// token account as writable account, the current owner twice as read-only
/// account, the second time as signer, and as data the tag 6, a 2 for the
/// authority that owns the account, a 1 for "there is a new owner", and the
/// new owner's address.
#[verifier::external_body]
fn spl_set_owner(
    token_program: &Address,
    account: &Address,
    new_owner: &Address,
    current_owner: &Address,
) -> (r: Option<Instruction>)
    ensures
        r is Some <==> token_program@ == token_program_id(),
        r matches Some(request) ==> request@ == set_owner_request(
            token_program@,
            account@,
            new_owner@,
            current_owner@,
        ),
{
    let signer = Pubkey::new_from_array(current_owner.bytes);
    let built = spl_token::instruction::set_authority(
        &Pubkey::new_from_array(token_program.bytes),
        &Pubkey::new_from_array(account.bytes),
        Some(&Pubkey::new_from_array(new_owner.bytes)),
        spl_token::instruction::AuthorityType::AccountOwner,
        &signer,
        &[&signer],
    ).ok()?;
    Some(Instruction {
        program_id: Address { bytes: built.program_id.to_bytes() },
        accounts: built.accounts.iter().map(|m| AccountMeta { pubkey: Address { bytes: m.pubkey.to_bytes() }, is_signer: m.is_signer, is_writable: m.is_writable }).collect(),
        data: built.data,
    })
}

/// `spl_token::instruction::close_account` with the owner as its only
/// signer. The contract says that the call fails exactly when
/// `token_program` is not the token program, and otherwise gives the request
/// field by field: the program, the token account and the destination as
/// writable accounts, the owner twice as read-only account, the second time
/// as signer, and as data the tag 9.
#[verifier::external_body]
fn spl_close_account(
    token_program: &Address,
    account: &Address,
    destination: &Address,
    owner: &Address,
) -> (r: Option<Instruction>)
    ensures
        r is Some <==> token_program@ == token_program_id(),
        r matches Some(request) ==> request@ == close_account_request(
            token_program@,
            account@,
            destination@,
            owner@,
        ),
{
    let signer = Pubkey::new_from_array(owner.bytes);
    let built = spl_token::instruction::close_account(
        &Pubkey::new_from_array(token_program.bytes),
        &Pubkey::new_from_array(account.bytes),
        &Pubkey::new_from_array(destination.bytes),
        &signer,
        &[&signer],
    ).ok()?;
    Some(Instruction {
        program_id: Address { bytes: built.program_id.to_bytes() },
        accounts: built.accounts.iter().map(|m| AccountMeta { pubkey: Address { bytes: m.pubkey.to_bytes() }, is_signer: m.is_signer, is_writable: m.is_writable }).collect(),
        data: built.data,
    })
}

/// `spl_token::state::Account::unpack`, of which the balance is kept. The
/// contract says that the call fails with `InvalidAccountData` unless the
/// data is 165 bytes long with well-formed option tags and a known state,
/// fails with `UninitializedAccount` when the state is zero, and otherwise
/// gives the little-endian number in bytes 64 to 71.
#[verifier::external_body]
fn spl_unpack_amount(data: &[u8]) -> (r: Result<u64, Failure>)
    ensures
        r == token_balance(data@),
{
    match spl_token::state::Account::unpack(data) {
        Ok(account) => Ok(account.amount),
        Err(ProgramError::UninitializedAccount) => Err(Failure::UninitializedAccount),
        Err(_) => Err(Failure::InvalidAccountData),
    }
}

} // verus!
