//! The settlement logic of the escrow: what is checked of the accounts that
//! come with an instruction, what is written, and what the token program is
//! asked to do.
//!
//! The processor works on the accounts as values. It never calls another
//! program itself: it returns the calls to be made, and whoever runs it makes
//! them. All of an instruction takes effect or none of it does; the processor
//! relies on the ledger for that and undoes nothing itself. It relies on the
//! ledger, too, to refuse a change to an account that the transaction did
//! not mark as writable: the processor changes the record account, and the
//! initializer's balance when the record is closed, without asking.

use crate::account::{views, Account, AccountView};
use crate::address::Address;
use crate::authority::{escrow_authority, escrow_seed, program_address, Authority, AuthorityView};
use crate::errors::{custom, EscrowError, Failure};
use crate::instruction::EscrowInstruction;
use crate::rent::{is_exempt, rent_exempt, rent_usable};
use crate::state::{Escrow, EscrowView};
use crate::token::{
    balance, close_account, close_account_request, id, set_owner, set_owner_request,
    token_balance, token_program_id, transfer, transfer_request, Instruction, InstructionView,
};
use vstd::prelude::*;

verus! {

/// Number of accounts that `InitEscrow` takes: the initializer, the temporary
/// token account, the token account on which the initializer wants to be
/// paid, the record, the ledger's rent terms, the token program.
pub const INIT_ESCROW_ACCOUNTS: usize = 6;

/// Number of accounts that `Exchange` takes: the taker, the token account
/// the taker pays from, the token account the taker is paid on, the
/// temporary token account, the initializer, the token account on which the
/// initializer is paid, the record, the token program, the authority.
pub const EXCHANGE_ACCOUNTS: usize = 9;

/// One call to be made on another program.
#[derive(Clone, Debug, PartialEq, Eq)]
pub struct Invocation {
    /// The request to send.
    pub instruction: Instruction,
    /// The accounts to hand over with the request, by their position among
    /// the accounts of the instruction being processed.
    pub accounts: Vec<usize>,
    /// The derived authority in whose name the program signs, if any.
    pub signer: Option<Authority>,
}

/// A call as a mathematical value.
pub struct InvocationView {
    pub instruction: InstructionView,
    pub accounts: Seq<usize>,
    pub signer: Option<AuthorityView>,
}

impl View for Invocation {
    type V = InvocationView;

    open spec fn view(&self) -> InvocationView {
        InvocationView {
            instruction: self.instruction@,
            accounts: self.accounts@,
            signer: match self.signer {
                Some(authority) => Some(authority@),
                None => None,
            },
        }
    }
}

/// The three calls that settle a swap, in the order in which they are made.
#[derive(Clone, Debug, PartialEq, Eq)]
pub struct Settlement {
    /// The taker pays the initializer.
    pub payment: Invocation,
    /// The deposit is released to the taker.
    pub release: Invocation,
    /// The temporary token account is closed in favour of the initializer.
    pub closing: Invocation,
}

/// What remains to be done after an instruction was accepted.
#[derive(Clone, Debug, PartialEq, Eq)]
pub enum Plan {
    /// `InitEscrow` was accepted and the record is written: the temporary
    /// token account is to be handed to the authority.
    Handover(Invocation),
    /// `Exchange` was accepted: the three calls are to be made, and the
    /// record closed after them.
    Settle(Settlement),
}

/// The record that `InitEscrow` writes.
pub open spec fn init_escrow_record(accounts: Seq<AccountView>, amount: u64) -> EscrowView {
    EscrowView {
        is_initialized: true,
        initializer: accounts[0].key,
        temp_token_account: accounts[1].key,
        initializer_token_to_receive_account: accounts[2].key,
        expected_amount: amount,
    }
}

/// Why `InitEscrow` is rejected on `accounts`, by the first check that
/// fails; `None` when every check passes.
pub open spec fn init_escrow_rejection(accounts: Seq<AccountView>, program: Seq<u8>) -> Option<
    Failure,
> {
    if accounts.len() < 6 {
        Some(Failure::NotEnoughAccountKeys)
    } else if !accounts[0].is_signer {
        Some(Failure::MissingRequiredSignature)
    } else if accounts[2].owner != token_program_id() {
        Some(Failure::IncorrectProgramId)
    } else if !rent_usable(accounts[4], accounts[3].data.len() as usize) {
        Some(Failure::InvalidArgument)
    } else if !rent_exempt(
        accounts[4].data.subrange(0, 17),
        accounts[3].lamports,
        accounts[3].data.len() as usize,
    ) {
        Some(custom(EscrowError::NotRentExempt))
    } else if EscrowView::decode_unchecked(accounts[3].data) is Err {
        Some(Failure::InvalidAccountData)
    } else if EscrowView::decode_unchecked(accounts[3].data)->Ok_0.is_initialized {
        Some(Failure::AccountAlreadyInitialized)
    } else if program_address(escrow_seed(), program) is None {
        Some(Failure::InvalidSeeds)
    } else if accounts[5].key != token_program_id() {
        Some(Failure::IncorrectProgramId)
    } else {
        None
    }
}

/// The accounts after an accepted `InitEscrow`: the record account holds the
/// new record, and nothing else has changed.
pub open spec fn init_escrow_accounts(accounts: Seq<AccountView>, amount: u64) -> Seq<
    AccountView,
> {
    accounts.update(
        3,
        AccountView { data: init_escrow_record(accounts, amount).encode(), ..accounts[3] },
    )
}

/// The call that follows an accepted `InitEscrow`: the token program is
/// asked to make the authority the owner of the temporary token account, on
/// the word of the initializer.
pub open spec fn init_escrow_handover(accounts: Seq<AccountView>, program: Seq<u8>) -> InvocationView {
    InvocationView {
        instruction: set_owner_request(
            accounts[5].key,
            accounts[1].key,
            escrow_authority(program).address,
            accounts[0].key,
        ),
        accounts: seq![1usize, 0usize, 5usize],
        signer: None,
    }
}

/// Why `Exchange` is rejected on `accounts`, by the first check that fails;
/// `None` when every check passes.
pub open spec fn exchange_rejection(accounts: Seq<AccountView>, amount: u64, program: Seq<u8>) -> Option<
    Failure,
> {
    if accounts.len() < 9 {
        Some(Failure::NotEnoughAccountKeys)
    } else if !accounts[0].is_signer {
        Some(Failure::MissingRequiredSignature)
    } else if token_balance(accounts[3].data) is Err {
        Some(token_balance(accounts[3].data)->Err_0)
    } else if program_address(escrow_seed(), program) is None {
        Some(Failure::InvalidSeeds)
    } else if amount != token_balance(accounts[3].data)->Ok_0 {
        Some(custom(EscrowError::ExpectedAmountMismatch))
    } else if EscrowView::decode(accounts[6].data) is Err {
        Some(EscrowView::decode(accounts[6].data)->Err_0)
    } else if EscrowView::decode(accounts[6].data)->Ok_0.temp_token_account != accounts[3].key {
        Some(Failure::InvalidAccountData)
    } else if EscrowView::decode(accounts[6].data)->Ok_0.initializer != accounts[4].key {
        Some(Failure::InvalidAccountData)
    } else if EscrowView::decode(accounts[6].data)->Ok_0.initializer_token_to_receive_account
        != accounts[5].key {
        Some(Failure::InvalidAccountData)
    } else if accounts[7].key != token_program_id() {
        Some(Failure::IncorrectProgramId)
    } else {
        None
    }
}

/// The first call of a settlement: the taker's token account pays the
/// amount that the record asks for to the initializer's token account, on
/// the word of the taker.
pub open spec fn exchange_payment(accounts: Seq<AccountView>) -> InvocationView {
    InvocationView {
        instruction: transfer_request(
            accounts[7].key,
            accounts[1].key,
            accounts[5].key,
            accounts[0].key,
            EscrowView::decode(accounts[6].data)->Ok_0.expected_amount,
        ),
        accounts: seq![1usize, 5usize, 0usize, 7usize],
        signer: None,
    }
}

/// The second call of a settlement: the whole balance of the temporary token
/// account goes to the taker's token account, on the word of the authority.
pub open spec fn exchange_release(accounts: Seq<AccountView>, program: Seq<u8>) -> InvocationView {
    InvocationView {
        instruction: transfer_request(
            accounts[7].key,
            accounts[3].key,
            accounts[2].key,
            escrow_authority(program).address,
            token_balance(accounts[3].data)->Ok_0,
        ),
        accounts: seq![3usize, 2usize, 8usize, 7usize],
        signer: Some(escrow_authority(program)),
    }
}

/// The third call of a settlement: the temporary token account is closed
/// and its deposit credited to the initializer, on the word of the
/// authority.
pub open spec fn exchange_closing(accounts: Seq<AccountView>, program: Seq<u8>) -> InvocationView {
    InvocationView {
        instruction: close_account_request(
            accounts[7].key,
            accounts[3].key,
            accounts[4].key,
            escrow_authority(program).address,
        ),
        accounts: seq![3usize, 4usize, 8usize, 7usize],
        signer: Some(escrow_authority(program)),
    }
}

/// Whether `settlement` is the settlement of `Exchange` on `accounts`.
pub open spec fn is_exchange_settlement(
    settlement: Settlement,
    accounts: Seq<AccountView>,
    program: Seq<u8>,
) -> bool {
    &&& settlement.payment@ == exchange_payment(accounts)
    &&& settlement.release@ == exchange_release(accounts, program)
    &&& settlement.closing@ == exchange_closing(accounts, program)
}

/// Why the record cannot be closed on `accounts`; `None` when it can.
pub open spec fn close_escrow_rejection(accounts: Seq<AccountView>) -> Option<Failure> {
    if accounts.len() < 9 {
        Some(Failure::NotEnoughAccountKeys)
    } else if accounts[4].lamports + accounts[6].lamports > u64::MAX {
        Some(custom(EscrowError::AmountOverflow))
    } else {
        None
    }
}

/// The accounts after the record was closed: its deposit has gone to the
/// initializer, its data is cleared, and nothing else has changed.
pub open spec fn close_escrow_accounts(accounts: Seq<AccountView>) -> Seq<AccountView> {
    accounts.update(
        4,
        AccountView {
            lamports: (accounts[4].lamports + accounts[6].lamports) as u64,
            ..accounts[4]
        },
    ).update(6, AccountView { lamports: 0, data: Seq::empty(), ..accounts[6] })
}

/// What `process_init_escrow` does: `before` and `after` are the accounts
/// before and after the call, `result` is what it returns.
pub open spec fn init_escrow_outcome(
    before: Seq<Account>,
    amount: u64,
    program: Seq<u8>,
    after: Seq<Account>,
    result: Result<Invocation, Failure>,
) -> bool {
    match init_escrow_rejection(views(before), program) {
        Some(failure) => result == Err::<Invocation, Failure>(failure) && after == before,
        None => {
            &&& result is Ok
            &&& result->Ok_0@ == init_escrow_handover(views(before), program)
            &&& after.len() == before.len()
            &&& views(after) == init_escrow_accounts(views(before), amount)
        },
    }
}

/// What `process_exchange` returns on `accounts`.
pub open spec fn exchange_outcome(
    accounts: Seq<Account>,
    amount: u64,
    program: Seq<u8>,
    result: Result<Settlement, Failure>,
) -> bool {
    match exchange_rejection(views(accounts), amount, program) {
        Some(failure) => result == Err::<Settlement, Failure>(failure),
        None => {
            &&& result is Ok
            &&& is_exchange_settlement(result->Ok_0, views(accounts), program)
        },
    }
}

/// What `process` does: `before` and `after` are the accounts before and
/// after the call, `result` is what it returns. Bytes that decode to no
/// instruction are rejected as they are; `InitEscrow` does what
/// `process_init_escrow` does and plans the handover; `Exchange` changes no
/// account, does what `process_exchange` does and plans the settlement.
pub open spec fn process_outcome(
    before: Seq<Account>,
    instruction_data: Seq<u8>,
    program: Seq<u8>,
    after: Seq<Account>,
    result: Result<Plan, Failure>,
) -> bool {
    match EscrowInstruction::decode(instruction_data) {
        Err(failure) => result == Err::<Plan, Failure>(failure) && after == before,
        Ok(EscrowInstruction::InitEscrow { amount }) => match result {
            Ok(Plan::Handover(handover)) => init_escrow_outcome(
                before,
                amount,
                program,
                after,
                Ok(handover),
            ),
            Ok(Plan::Settle(_)) => false,
            Err(failure) => init_escrow_outcome(before, amount, program, after, Err(failure)),
        },
        Ok(EscrowInstruction::Exchange { amount }) => after == before && match result {
            Ok(Plan::Settle(settlement)) => exchange_outcome(
                before,
                amount,
                program,
                Ok(settlement),
            ),
            Ok(Plan::Handover(_)) => false,
            Err(failure) => exchange_outcome(before, amount, program, Err(failure)),
        },
    }
}

/// The escrow program.
pub struct Processor;

impl Processor {
    /// Processes one instruction of the escrow program, sent to the program
    /// at `program_id` with `accounts`.
    ///
    /// Instruction bytes that decode to no command are rejected with
    /// `InvalidInstruction`. `InitEscrow` is handled by
    /// `process_init_escrow` and `Exchange` by `process_exchange`; whatever
    /// they reject is rejected, and what they accept comes back as the plan
    /// of what remains to be done. The accounts change only where
    /// `InitEscrow` is accepted.
    pub fn process(program_id: &Address, accounts: &mut Vec<Account>, instruction_data: &[u8]) -> (r:
        Result<Plan, Failure>)
        ensures
            process_outcome(old(accounts)@, instruction_data@, program_id@, final(accounts)@, r),
    {
        let instruction: EscrowInstruction = EscrowInstruction::unpack(instruction_data)?;
        match instruction {
            EscrowInstruction::InitEscrow { amount } => {
                let handover: Invocation = Self::process_init_escrow(accounts, amount, program_id)?;
                Ok(Plan::Handover(handover))
            },
            EscrowInstruction::Exchange { amount } => {
                let settlement: Settlement = Self::process_exchange(accounts, amount, program_id)?;
                Ok(Plan::Settle(settlement))
            },
        }
    }

    /// Opens a swap. The accounts are, in order: the initializer, who must
    /// have signed; the temporary token account that holds the deposit; the
    /// token account on which the initializer wants to be paid, which must
    /// belong to the token program; the record account, which must be exempt
    /// from rent and hold an uninitialized record; the account of the
    /// ledger's rent terms; the token program.
    ///
    /// The checks are made in the order of `init_escrow_rejection`, and the
    /// first that fails gives the error; the accounts are then left as they
    /// were. When all pass, the record is written with the initializer, the
    /// temporary token account, the receiving account and `amount`, marked
    /// initialized, and the result is the call that hands the temporary
    /// token account to the authority derived for `program_id`.
    pub fn process_init_escrow(accounts: &mut Vec<Account>, amount: u64, program_id: &Address) -> (r:
        Result<Invocation, Failure>)
        ensures
            init_escrow_outcome(old(accounts)@, amount, program_id@, final(accounts)@, r),
    {
        if accounts.len() < INIT_ESCROW_ACCOUNTS {
            return Err(Failure::NotEnoughAccountKeys);
        }
        if !accounts[0].is_signer {
            return Err(Failure::MissingRequiredSignature);
        }
        let token_program: Address = id();
        if accounts[2].owner != token_program {
            return Err(Failure::IncorrectProgramId);
        }
        let data_len: usize = accounts[3].data.len();
        if !is_exempt(&accounts[4], accounts[3].lamports, data_len)? {
            return Err(Failure::from(EscrowError::NotRentExempt));
        }
        let stored: Escrow = Escrow::unpack_unchecked(accounts[3].data.as_slice())?;
        if stored.is_initialized() {
            return Err(Failure::AccountAlreadyInitialized);
        }
        let record = Escrow {
            is_initialized: true,
            initializer_pubkey: accounts[0].key,
            temp_token_account_pubkey: accounts[1].key,
            initializer_token_to_receive_account_pubkey: accounts[2].key,
            expected_amount: amount,
        };
        let authority: Authority = match Authority::find(program_id) {
            Some(authority) => authority,
            None => { return Err(Failure::InvalidSeeds); },
        };
        let handover: Instruction = set_owner(
            &accounts[5].key,
            &accounts[1].key,
            &authority.address,
            &accounts[0].key,
        )?;
        let packed: Vec<u8> = record.to_bytes();
        accounts[3].data = packed;
        proof {
            assert(record@ == init_escrow_record(views(old(accounts)@), amount));
            assert(views(accounts@) =~= init_escrow_accounts(views(old(accounts)@), amount));
        }
        let positions: Vec<usize> = vec![1usize, 0usize, 5usize];
        assert(positions@ =~= seq![1usize, 0usize, 5usize]);
        Ok(Invocation { instruction: handover, accounts: positions, signer: None })
    }

    /// Takes a swap. The accounts are, in order: the taker, who must have
    /// signed; the token account the taker pays from; the token account the
    /// taker is paid on; the temporary token account; the initializer; the
    /// token account on which the initializer is paid; the record account;
    /// the token program; the authority.
    ///
    /// The checks are made in the order of `exchange_rejection`, and the
    /// first that fails gives the error: the taker's `amount` must be the
    /// balance of the temporary token account, and the record must name the
    /// temporary token account, the initializer and the initializer's
    /// receiving account that came with the instruction. When all pass, the
    /// result is the three calls that settle the swap. After they are made,
    /// `close_escrow` closes the record.
    pub fn process_exchange(accounts: &Vec<Account>, amount: u64, program_id: &Address) -> (r:
        Result<Settlement, Failure>)
        ensures
            exchange_outcome(accounts@, amount, program_id@, r),
    {
        if accounts.len() < EXCHANGE_ACCOUNTS {
            return Err(Failure::NotEnoughAccountKeys);
        }
        if !accounts[0].is_signer {
            return Err(Failure::MissingRequiredSignature);
        }
        let held: u64 = balance(accounts[3].data.as_slice())?;
        let authority: Authority = match Authority::find(program_id) {
            Some(authority) => authority,
            None => { return Err(Failure::InvalidSeeds); },
        };
        if amount != held {
            return Err(Failure::from(EscrowError::ExpectedAmountMismatch));
        }
        let record: Escrow = Escrow::unpack(accounts[6].data.as_slice())?;
        if record.temp_token_account_pubkey != accounts[3].key {
            return Err(Failure::InvalidAccountData);
        }
        if record.initializer_pubkey != accounts[4].key {
            return Err(Failure::InvalidAccountData);
        }
        if record.initializer_token_to_receive_account_pubkey != accounts[5].key {
            return Err(Failure::InvalidAccountData);
        }
        let token_program: &Address = &accounts[7].key;
        let pay: Instruction = transfer(
            token_program,
            &accounts[1].key,
            &accounts[5].key,
            &accounts[0].key,
            record.expected_amount,
        )?;
        let release: Instruction = transfer(
            token_program,
            &accounts[3].key,
            &accounts[2].key,
            &authority.address,
            held,
        )?;
        let close: Instruction = close_account(
            token_program,
            &accounts[3].key,
            &accounts[4].key,
            &authority.address,
        )?;
        let pay_with: Vec<usize> = vec![1usize, 5usize, 0usize, 7usize];
        let release_with: Vec<usize> = vec![3usize, 2usize, 8usize, 7usize];
        let close_with: Vec<usize> = vec![3usize, 4usize, 8usize, 7usize];
        assert(pay_with@ =~= seq![1usize, 5usize, 0usize, 7usize]);
        assert(release_with@ =~= seq![3usize, 2usize, 8usize, 7usize]);
        assert(close_with@ =~= seq![3usize, 4usize, 8usize, 7usize]);
        Ok(
            Settlement {
                payment: Invocation { instruction: pay, accounts: pay_with, signer: None },
                release: Invocation {
                    instruction: release,
                    accounts: release_with,
                    signer: Some(authority),
                },
                closing: Invocation {
                    instruction: close,
                    accounts: close_with,
                    signer: Some(authority),
                },
            },
        )
    }

    /// Closes the record after the calls of a settlement were made, on the
    /// accounts of the `Exchange` as the calls left them: the deposit of the
    /// record account is added to the balance of the initializer, and the
    /// record account is left with no balance and no data.
    ///
    /// Fails with `NotEnoughAccountKeys` on fewer accounts than `Exchange`
    /// takes, and with `AmountOverflow` when the initializer's balance
    /// cannot take the deposit; the accounts are then left as they were.
    pub fn close_escrow(accounts: &mut Vec<Account>) -> (r: Result<(), Failure>)
        ensures
            match close_escrow_rejection(views(old(accounts)@)) {
                Some(failure) => r == Err::<(), Failure>(failure) && *final(accounts) == *old(
                    accounts,
                ),
                None => {
                    &&& r is Ok
                    &&& final(accounts)@.len() == old(accounts)@.len()
                    &&& views(final(accounts)@) == close_escrow_accounts(views(old(accounts)@))
                },
            },
    {
        if accounts.len() < EXCHANGE_ACCOUNTS {
            return Err(Failure::NotEnoughAccountKeys);
        }
        let total: u64 = match accounts[4].lamports.checked_add(accounts[6].lamports) {
            Some(total) => total,
            None => { return Err(Failure::from(EscrowError::AmountOverflow)); },
        };
        accounts[4].lamports = total;
        accounts[6].lamports = 0;
        accounts[6].data = Vec::new();
        assert(views(accounts@) =~= close_escrow_accounts(views(old(accounts)@)));
        Ok(())
    }
}

} // verus!
