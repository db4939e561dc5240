//! Ledger accounts as the program sees them during one invocation.

use crate::address::Address;
use vstd::prelude::*;

verus! {

/// One account handed to the program: who it is, who owns it, what it holds.
#[derive(Clone, Debug, PartialEq, Eq)]
pub struct Account {
    /// The address of the account.
    pub key: Address,
    /// Whether the holder of the account's key signed the transaction.
    pub is_signer: bool,
    /// Whether the transaction may change the account.
    pub is_writable: bool,
    /// The balance that pays for the account's storage.
    pub lamports: u64,
    /// The contents of the account.
    pub data: Vec<u8>,
    /// The program that owns the account.
    pub owner: Address,
    /// Whether the account holds a program.
    pub executable: bool,
    /// The epoch at which the account next owes rent.
    pub rent_epoch: u64,
}

/// An account as a mathematical value.
pub struct AccountView {
    pub key: Seq<u8>,
    pub is_signer: bool,
    pub is_writable: bool,
    pub lamports: u64,
    pub data: Seq<u8>,
    pub owner: Seq<u8>,
    pub executable: bool,
    pub rent_epoch: u64,
}

impl View for Account {
    type V = AccountView;

    open spec fn view(&self) -> AccountView {
        AccountView {
            key: self.key@,
            is_signer: self.is_signer,
            is_writable: self.is_writable,
            lamports: self.lamports,
            data: self.data@,
            owner: self.owner@,
            executable: self.executable,
            rent_epoch: self.rent_epoch,
        }
    }
}

/// The accounts of a list, each as a mathematical value.
pub open spec fn views(accounts: Seq<Account>) -> Seq<AccountView> {
    accounts.map_values(|a: Account| a@)
}

} // verus!
