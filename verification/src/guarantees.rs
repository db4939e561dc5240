//! What the escrow guarantees, stated over the outcomes that the processor's
//! contracts promise and proved from them.

use crate::account::{views, Account};
use crate::address::Address;
use crate::authority::{escrow_authority, escrow_seed, program_address, Authority};
use crate::codec::u64_le;
use crate::errors::{custom, EscrowError, Failure};
use crate::processor::{
    close_escrow_accounts, close_escrow_rejection, exchange_closing, exchange_payment,
    exchange_rejection, exchange_release, init_escrow_accounts, init_escrow_handover,
    init_escrow_record, init_escrow_rejection, process_outcome, Plan,
};
use crate::rent::{rent_exempt, rent_usable};
use crate::state::{lemma_pack_unpack, EscrowView};
use crate::token::{token_balance, token_program_id};
use vstd::prelude::*;

verus! {

/// An accepted `InitEscrow` leaves a record that is initialized and holds
/// the initializer, the temporary token account, the receiving account and
/// the amount that came with the instruction; no other account and nothing
/// else of the record account has changed.
pub proof fn lemma_init_escrow_writes_record(accounts: Vec<Account>, amount: u64, program: Address)
    requires
        init_escrow_rejection(views(accounts@), program@) is None,
    ensures
        ({
            let after = init_escrow_accounts(views(accounts@), amount);
            let record = EscrowView::decode(after[3].data);
            &&& after.len() == accounts@.len()
            &&& record is Ok
            &&& record->Ok_0.is_initialized
            &&& record->Ok_0.initializer == accounts@[0].key@
            &&& record->Ok_0.temp_token_account == accounts@[1].key@
            &&& record->Ok_0.initializer_token_to_receive_account == accounts@[2].key@
            &&& record->Ok_0.expected_amount == amount
            &&& forall|i: int| 0 <= i < after.len() && i != 3 ==> after[i] == accounts@[i]@
            &&& after[3].lamports == accounts@[3].lamports
            &&& after[3].data.len() == accounts@[3].data@.len()
        }),
{
    let before = views(accounts@);
    lemma_pack_unpack(init_escrow_record(before, amount));
}

/// A record is initialized once: on the accounts that an accepted
/// `InitEscrow` leaves, a second `InitEscrow` is rejected with
/// `AccountAlreadyInitialized`, whatever amount it asks for.
pub proof fn lemma_init_escrow_once(accounts: Vec<Account>, amount: u64, program: Address)
    requires
        init_escrow_rejection(views(accounts@), program@) is None,
    ensures
        init_escrow_rejection(init_escrow_accounts(views(accounts@), amount), program@) == Some(
            Failure::AccountAlreadyInitialized,
        ),
{
    let before = views(accounts@);
    lemma_pack_unpack(init_escrow_record(before, amount));
}

/// `InitEscrow` on an initialized record is rejected with
/// `AccountAlreadyInitialized` wherever the checks that come before pass:
/// six accounts, a signing initializer, a receiving account of the token
/// program, and a record account that is exempt from rent.
pub proof fn lemma_init_escrow_already_initialized(accounts: Vec<Account>, program: Address)
    requires
        accounts@.len() >= 6,
        accounts@[0].is_signer,
        accounts@[2].owner@ == token_program_id(),
        rent_usable(accounts@[4]@, accounts@[3].data@.len() as usize),
        rent_exempt(
            accounts@[4].data@.subrange(0, 17),
            accounts@[3].lamports,
            accounts@[3].data@.len() as usize,
        ),
        EscrowView::decode(accounts@[3].data@) is Ok,
    ensures
        init_escrow_rejection(views(accounts@), program@) == Some(
            Failure::AccountAlreadyInitialized,
        ),
{
}

/// `InitEscrow` on a record account whose balance does not exempt it from
/// rent is rejected with `NotRentExempt` wherever the checks that come
/// before pass: six accounts, a signing initializer, a receiving account of
/// the token program, and rent terms that can be applied.
pub proof fn lemma_init_escrow_not_rent_exempt(accounts: Vec<Account>, program: Address)
    requires
        accounts@.len() >= 6,
        accounts@[0].is_signer,
        accounts@[2].owner@ == token_program_id(),
        rent_usable(accounts@[4]@, accounts@[3].data@.len() as usize),
        !rent_exempt(
            accounts@[4].data@.subrange(0, 17),
            accounts@[3].lamports,
            accounts@[3].data@.len() as usize,
        ),
    ensures
        init_escrow_rejection(views(accounts@), program@) == Some(
            custom(EscrowError::NotRentExempt),
        ),
{
}

/// The call that follows an accepted `InitEscrow` goes to the token program
/// and asks for a change of owner of the temporary token account; the new
/// owner that it names is the authority derived for the program, and the
/// initializer appears in it only as the owner who signs the change.
pub proof fn lemma_init_escrow_hands_over_to_authority(
    accounts: Vec<Account>,
    program: Address,
)
    requires
        init_escrow_rejection(views(accounts@), program@) is None,
    ensures
        ({
            let request = init_escrow_handover(views(accounts@), program@).instruction;
            let derived = program_address(escrow_seed(), program@);
            &&& derived is Some
            &&& request.program_id == token_program_id()
            &&& request.accounts.len() == 3
            &&& request.accounts[0].pubkey == accounts@[1].key@
            &&& request.accounts[0].is_writable
            &&& request.accounts[1].pubkey == accounts@[0].key@
            &&& request.accounts[2].pubkey == accounts@[0].key@
            &&& request.accounts[2].is_signer
            &&& request.data == seq![6u8, 2u8, 1u8] + derived->Some_0.0
        }),
{
}

/// `Exchange` with an amount that is not the balance of the temporary token
/// account is rejected with `ExpectedAmountMismatch` wherever the checks
/// that come before pass: nine accounts, a signing taker, a temporary token
/// account that the token program can read, and a program for which an
/// authority is derived.
pub proof fn lemma_exchange_amount_mismatch(accounts: Vec<Account>, amount: u64, program: Address)
    requires
        accounts@.len() >= 9,
        accounts@[0].is_signer,
        token_balance(accounts@[3].data@) is Ok,
        program_address(escrow_seed(), program@) is Some,
        token_balance(accounts@[3].data@)->Ok_0 != amount,
    ensures
        exchange_rejection(views(accounts@), amount, program@) == Some(
            custom(EscrowError::ExpectedAmountMismatch),
        ),
{
}

/// `Exchange` on accounts of which one is not the one that the record names
/// (the temporary token account, the initializer, or the initializer's
/// receiving account) is rejected with `InvalidAccountData` wherever the
/// checks that come before pass: nine accounts, a signing taker, the
/// taker's amount in the temporary token account, a derived authority, and
/// an initialized record.
pub proof fn lemma_exchange_identity_mismatch(accounts: Vec<Account>, amount: u64, program: Address)
    requires
        accounts@.len() >= 9,
        accounts@[0].is_signer,
        token_balance(accounts@[3].data@) == Ok::<u64, Failure>(amount),
        program_address(escrow_seed(), program@) is Some,
        EscrowView::decode(accounts@[6].data@) is Ok,
        ({
            let record = EscrowView::decode(accounts@[6].data@)->Ok_0;
            ||| record.temp_token_account != accounts@[3].key@
            ||| record.initializer != accounts@[4].key@
            ||| record.initializer_token_to_receive_account != accounts@[5].key@
        }),
    ensures
        exchange_rejection(views(accounts@), amount, program@) == Some(
            Failure::InvalidAccountData,
        ),
{
}

/// The settlement of an accepted `Exchange` pays the initializer what the
/// record asks for and releases to the taker what the temporary token
/// account holds, which is the amount that the taker expected: the first
/// call moves the record's amount from the taker's paying account to the
/// initializer's receiving account, the second moves the whole balance of
/// the temporary token account to the taker's receiving account, the third
/// closes the temporary token account in favour of the initializer; the
/// second and third are signed for the derived authority, and all three go
/// to the token program.
pub proof fn lemma_exchange_settles_both_legs(accounts: Vec<Account>, amount: u64, program: Address)
    requires
        exchange_rejection(views(accounts@), amount, program@) is None,
    ensures
        ({
            let record = EscrowView::decode(accounts@[6].data@)->Ok_0;
            let authority = escrow_authority(program@);
            let payment = exchange_payment(views(accounts@));
            let release = exchange_release(views(accounts@), program@);
            let closing = exchange_closing(views(accounts@), program@);
            &&& token_balance(accounts@[3].data@) == Ok::<u64, Failure>(amount)
            &&& payment.instruction.program_id == token_program_id()
            &&& payment.instruction.accounts[0].pubkey == accounts@[1].key@
            &&& payment.instruction.accounts[1].pubkey == accounts@[5].key@
            &&& payment.instruction.accounts[1].pubkey
                == record.initializer_token_to_receive_account
            &&& payment.instruction.accounts[3].pubkey == accounts@[0].key@
            &&& payment.instruction.data == seq![3u8] + u64_le(record.expected_amount)
            &&& payment.signer is None
            &&& release.instruction.program_id == token_program_id()
            &&& release.instruction.accounts[0].pubkey == accounts@[3].key@
            &&& release.instruction.accounts[0].pubkey == record.temp_token_account
            &&& release.instruction.accounts[1].pubkey == accounts@[2].key@
            &&& release.instruction.accounts[3].pubkey == authority.address
            &&& release.instruction.data == seq![3u8] + u64_le(amount)
            &&& release.signer == Some(authority)
            &&& closing.instruction.program_id == token_program_id()
            &&& closing.instruction.accounts[0].pubkey == accounts@[3].key@
            &&& closing.instruction.accounts[1].pubkey == accounts@[4].key@
            &&& closing.instruction.accounts[1].pubkey == record.initializer
            &&& closing.instruction.accounts[3].pubkey == authority.address
            &&& closing.instruction.data == seq![9u8]
            &&& closing.signer == Some(authority)
        }),
{
}

/// A swap is settled on the terms on which it was opened. When an
/// `Exchange` is accepted on accounts whose record account holds what an
/// accepted `InitEscrow` wrote, then the temporary token account, the
/// initializer and the initializer's receiving account are those of the
/// opening; the initializer is paid, on that receiving account, exactly the
/// amount that was asked for at the opening; the taker is sent exactly the
/// balance of the temporary token account, which is the amount the taker
/// expected; and the temporary token account is closed in favour of the
/// initializer.
pub proof fn lemma_swap_keeps_its_terms(
    opened: Vec<Account>,
    asked: u64,
    taken: Vec<Account>,
    expected: u64,
    program: Address,
)
    requires
        init_escrow_rejection(views(opened@), program@) is None,
        exchange_rejection(views(taken@), expected, program@) is None,
        taken@[6].data@ == init_escrow_accounts(views(opened@), asked)[3].data,
    ensures
        ({
            let payment = exchange_payment(views(taken@)).instruction;
            let release = exchange_release(views(taken@), program@).instruction;
            let closing = exchange_closing(views(taken@), program@).instruction;
            &&& taken@[3].key@ == opened@[1].key@
            &&& taken@[4].key@ == opened@[0].key@
            &&& taken@[5].key@ == opened@[2].key@
            &&& payment.accounts[1].pubkey == opened@[2].key@
            &&& payment.data == seq![3u8] + u64_le(asked)
            &&& release.accounts[0].pubkey == opened@[1].key@
            &&& release.accounts[1].pubkey == taken@[2].key@
            &&& release.data == seq![3u8] + u64_le(expected)
            &&& token_balance(taken@[3].data@) == Ok::<u64, Failure>(expected)
            &&& closing.accounts[0].pubkey == opened@[1].key@
            &&& closing.accounts[1].pubkey == opened@[0].key@
        }),
{
    lemma_pack_unpack(init_escrow_record(views(opened@), asked));
}

/// An initialized record is never rewritten: whatever instruction is
/// processed on accounts whose fourth account holds an initialized record,
/// and whatever comes of it, every account is left exactly as it was. Only
/// closing the record, after a settlement, clears it.
pub proof fn lemma_initialized_record_is_kept(
    before: Vec<Account>,
    instruction_data: Seq<u8>,
    program: Address,
    after: Vec<Account>,
    result: Result<Plan, Failure>,
)
    requires
        before@.len() >= 4,
        EscrowView::decode(before@[3].data@) is Ok,
        process_outcome(before@, instruction_data, program@, after@, result),
    ensures
        after@ == before@,
        !(result matches Ok(Plan::Handover(_))),
{
}

/// Every account that a planned call hands over is one of the accounts that
/// came with the instruction.
pub proof fn lemma_planned_accounts_exist(
    accounts: Vec<Account>,
    amount: u64,
    program: Address,
    position: int,
)
    ensures
        init_escrow_rejection(views(accounts@), program@) is None ==> {
            let handover = init_escrow_handover(views(accounts@), program@);
            0 <= position < handover.accounts.len() ==> handover.accounts[position]
                < accounts@.len()
        },
        exchange_rejection(views(accounts@), amount, program@) is None ==> {
            let payment = exchange_payment(views(accounts@));
            let release = exchange_release(views(accounts@), program@);
            let closing = exchange_closing(views(accounts@), program@);
            &&& 0 <= position < payment.accounts.len() ==> payment.accounts[position]
                < accounts@.len()
            &&& 0 <= position < release.accounts.len() ==> release.accounts[position]
                < accounts@.len()
            &&& 0 <= position < closing.accounts.len() ==> closing.accounts[position]
                < accounts@.len()
        },
{
}

/// Closing the record gives its deposit to the initializer and loses
/// nothing: the initializer's balance grows by exactly the deposit, the
/// record account is left with no balance and no data, the sum of all
/// balances that matter is what it was, and no other account changes.
pub proof fn lemma_close_escrow_returns_deposit(accounts: Vec<Account>)
    requires
        close_escrow_rejection(views(accounts@)) is None,
    ensures
        ({
            let after = close_escrow_accounts(views(accounts@));
            &&& after.len() == accounts@.len()
            &&& after[4].lamports == accounts@[4].lamports + accounts@[6].lamports
            &&& after[6].lamports == 0
            &&& after[6].data.len() == 0
            &&& after[4].lamports + after[6].lamports == accounts@[4].lamports
                + accounts@[6].lamports
            &&& after[4].data == accounts@[4].data@
            &&& after[4].key == accounts@[4].key@
            &&& after[6].key == accounts@[6].key@
            &&& forall|i: int|
                0 <= i < after.len() && i != 4 && i != 6 ==> after[i] == accounts@[i]@
        }),
{
}

/// The initializer regains both deposits. `taken` are the accounts on which
/// an `Exchange` was accepted and `settled` the same accounts after the
/// calls of its settlement. Provided that the closing call did what it was
/// asked to do with the deposit of the temporary token account, which is to
/// credit it to the initializer, and that the calls left the deposit of the
/// record alone, closing the record leaves the initializer with the former
/// balance and both deposits.
pub proof fn lemma_initializer_regains_both_deposits(taken: Vec<Account>, settled: Vec<Account>)
    requires
        taken@.len() >= 9,
        settled@.len() == taken@.len(),
        settled@[4].lamports == taken@[4].lamports + taken@[3].lamports,
        settled@[6].lamports == taken@[6].lamports,
        close_escrow_rejection(views(settled@)) is None,
    ensures
        close_escrow_accounts(views(settled@))[4].lamports == taken@[4].lamports
            + taken@[3].lamports + taken@[6].lamports,
        close_escrow_accounts(views(settled@))[6].lamports == 0,
        close_escrow_accounts(views(settled@))[6].data.len() == 0,
{
}

/// The record cannot be closed into a balance that would overflow: it is
/// then rejected with `AmountOverflow`.
pub proof fn lemma_close_escrow_overflow(accounts: Vec<Account>)
    requires
        accounts@.len() >= 9,
        accounts@[4].lamports + accounts@[6].lamports > u64::MAX,
    ensures
        close_escrow_rejection(views(accounts@)) == Some(custom(EscrowError::AmountOverflow)),
{
}

/// The derivation of the authority is stable: two authorities derived for
/// the same program have the same address and the same bump seed.
pub proof fn lemma_authority_stable(first: Authority, second: Authority, program: Address)
    requires
        program_address(escrow_seed(), program@) is Some,
        first@ == escrow_authority(program@),
        second@ == escrow_authority(program@),
    ensures
        first == second,
{
    Address::lemma_view_determines(first.address, second.address);
}

/// The record that an accepted `InitEscrow` writes is the record that a
/// later `Exchange` reads: whatever account list carries the written bytes
/// in the place of the record, they decode to the fields that were written,
/// and encoding those fields gives the same bytes again.
pub proof fn lemma_record_survives(
    accounts: Vec<Account>,
    amount: u64,
    program: Address,
    later: Vec<Account>,
)
    requires
        init_escrow_rejection(views(accounts@), program@) is None,
        later@.len() >= 9,
        later@[6].data@ == init_escrow_accounts(views(accounts@), amount)[3].data,
    ensures
        EscrowView::decode(later@[6].data@) == Ok::<EscrowView, Failure>(
            init_escrow_record(views(accounts@), amount),
        ),
        EscrowView::decode(later@[6].data@)->Ok_0.encode() == later@[6].data@,
{
    lemma_pack_unpack(init_escrow_record(views(accounts@), amount));
}

} // verus!
