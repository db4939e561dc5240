//! The escrow record: the terms of one pending swap, as kept in the data of
//! the record account.

use crate::address::Address;
use crate::codec::{le_u64, lemma_decode_encode, lemma_encode_decode, push_u64, read_u64, u64_le};
use crate::errors::Failure;
use vstd::prelude::*;

verus! {

/// Number of bytes of an encoded record.
pub const ESCROW_LEN: usize = 105;

/// The terms of one pending swap.
#[derive(Clone, Copy, Debug, PartialEq, Eq)]
pub struct Escrow {
    /// Whether the record describes a pending swap.
    pub is_initialized: bool,
    /// The party that deposited the tokens.
    pub initializer_pubkey: Address,
    /// The token account that holds the deposit.
    pub temp_token_account_pubkey: Address,
    /// The token account on which the initializer wants to be paid.
    pub initializer_token_to_receive_account_pubkey: Address,
    /// What the taker must pay.
    pub expected_amount: u64,
}

/// A record as a mathematical value.
pub struct EscrowView {
    pub is_initialized: bool,
    pub initializer: Seq<u8>,
    pub temp_token_account: Seq<u8>,
    pub initializer_token_to_receive_account: Seq<u8>,
    pub expected_amount: u64,
}

impl View for Escrow {
    type V = EscrowView;

    open spec fn view(&self) -> EscrowView {
        EscrowView {
            is_initialized: self.is_initialized,
            initializer: self.initializer_pubkey@,
            temp_token_account: self.temp_token_account_pubkey@,
            initializer_token_to_receive_account: self.initializer_token_to_receive_account_pubkey@,
            expected_amount: self.expected_amount,
        }
    }
}

impl EscrowView {
    /// Every address of the record has the length of an address.
    pub open spec fn wf(self) -> bool {
        &&& self.initializer.len() == 32
        &&& self.temp_token_account.len() == 32
        &&& self.initializer_token_to_receive_account.len() == 32
    }

    /// The bytes of the record: the flag, the three addresses, then the amount
    /// in little-endian order.
    pub open spec fn encode(self) -> Seq<u8> {
        seq![if self.is_initialized { 1u8 } else { 0u8 }] + self.initializer
            + self.temp_token_account + self.initializer_token_to_receive_account + u64_le(
            self.expected_amount,
        )
    }

    /// The record that `data` holds, whether or not it is initialized.
    pub open spec fn decode_unchecked(data: Seq<u8>) -> Result<EscrowView, Failure> {
        if data.len() != 105 || data[0] > 1 {
            Err(Failure::InvalidAccountData)
        } else {
            Ok(
                EscrowView {
                    is_initialized: data[0] == 1,
                    initializer: data.subrange(1, 33),
                    temp_token_account: data.subrange(33, 65),
                    initializer_token_to_receive_account: data.subrange(65, 97),
                    expected_amount: le_u64(data.subrange(97, 105)) as u64,
                },
            )
        }
    }

    /// The initialized record that `data` holds.
    pub open spec fn decode(data: Seq<u8>) -> Result<EscrowView, Failure> {
        match Self::decode_unchecked(data) {
            Ok(record) => if record.is_initialized {
                Ok(record)
            } else {
                Err(Failure::UninitializedAccount)
            },
            Err(failure) => Err(failure),
        }
    }
}

impl Escrow {
    /// Whether the record describes a pending swap.
    pub fn is_initialized(&self) -> (b: bool)
        ensures
            b == self@.is_initialized,
    {
        self.is_initialized
    }

    /// Reads a record out of `src` without asking that it be initialized.
    /// Fails with `InvalidAccountData` unless `src` has the length of a record
    /// and its flag byte is zero or one.
    pub fn unpack_unchecked(src: &[u8]) -> (r: Result<Escrow, Failure>)
        ensures
            match r {
                Ok(record) => EscrowView::decode_unchecked(src@) == Ok::<EscrowView, Failure>(
                    record@,
                ),
                Err(failure) => EscrowView::decode_unchecked(src@) == Err::<EscrowView, Failure>(
                    failure,
                ),
            },
    {
        if src.len() != ESCROW_LEN {
            return Err(Failure::InvalidAccountData);
        }
        let flag: u8 = src[0];
        if flag > 1 {
            return Err(Failure::InvalidAccountData);
        }
        Ok(
            Escrow {
                is_initialized: flag == 1,
                initializer_pubkey: Address::read(src, 1),
                temp_token_account_pubkey: Address::read(src, 33),
                initializer_token_to_receive_account_pubkey: Address::read(src, 65),
                expected_amount: read_u64(src, 97),
            },
        )
    }

    /// Reads an initialized record out of `src`. Fails as `unpack_unchecked`
    /// does, and with `UninitializedAccount` when the record is not initialized.
    pub fn unpack(src: &[u8]) -> (r: Result<Escrow, Failure>)
        ensures
            match r {
                Ok(record) => EscrowView::decode(src@) == Ok::<EscrowView, Failure>(record@),
                Err(failure) => EscrowView::decode(src@) == Err::<EscrowView, Failure>(failure),
            },
    {
        match Escrow::unpack_unchecked(src) {
            Ok(record) => {
                if record.is_initialized {
                    Ok(record)
                } else {
                    Err(Failure::UninitializedAccount)
                }
            },
            Err(failure) => Err(failure),
        }
    }

    /// The bytes of the record.
    pub fn to_bytes(&self) -> (out: Vec<u8>)
        ensures
            out@ == self@.encode(),
            out@.len() == 105,
    {
        let mut out: Vec<u8> = Vec::with_capacity(ESCROW_LEN);
        out.push(if self.is_initialized { 1u8 } else { 0u8 });
        let mut a: Vec<u8> = self.initializer_pubkey.to_vec();
        let mut b: Vec<u8> = self.temp_token_account_pubkey.to_vec();
        let mut c: Vec<u8> = self.initializer_token_to_receive_account_pubkey.to_vec();
        out.append(&mut a);
        out.append(&mut b);
        out.append(&mut c);
        push_u64(&mut out, self.expected_amount);
        out
    }

    /// Writes the record over `dst`. Fails with `InvalidAccountData`, and
    /// leaves `dst` as it is, unless `dst` has the length of a record.
    pub fn pack(src: Escrow, dst: &mut Vec<u8>) -> (r: Result<(), Failure>)
        ensures
            old(dst)@.len() == 105 ==> r is Ok && final(dst)@ == src@.encode(),
            old(dst)@.len() != 105 ==> r == Err::<(), Failure>(Failure::InvalidAccountData)
                && final(dst)@ == old(dst)@,
    {
        if dst.len() != ESCROW_LEN {
            return Err(Failure::InvalidAccountData);
        }
        *dst = src.to_bytes();
        Ok(())
    }
}

/// A record that is written and read again comes back unchanged, flag and
/// all: the encoding has the length of a record and decodes to the record.
pub proof fn lemma_pack_unpack(record: EscrowView)
    requires
        record.wf(),
    ensures
        record.encode().len() == 105,
        EscrowView::decode_unchecked(record.encode()) == Ok::<EscrowView, Failure>(record),
        record.is_initialized ==> EscrowView::decode(record.encode()) == Ok::<EscrowView, Failure>(
            record,
        ),
        !record.is_initialized ==> EscrowView::decode(record.encode()) == Err::<
            EscrowView,
            Failure,
        >(Failure::UninitializedAccount),
{
    let data = record.encode();
    lemma_decode_encode(record.expected_amount);
    assert(data.subrange(1, 33) =~= record.initializer);
    assert(data.subrange(33, 65) =~= record.temp_token_account);
    assert(data.subrange(65, 97) =~= record.initializer_token_to_receive_account);
    assert(data.subrange(97, 105) =~= u64_le(record.expected_amount));
}

/// Bytes that decode to a record are the encoding of that record: no two
/// different byte strings hold the same record.
pub proof fn lemma_unpack_pack(data: Seq<u8>)
    requires
        EscrowView::decode_unchecked(data) is Ok,
    ensures
        EscrowView::decode_unchecked(data)->Ok_0.wf(),
        EscrowView::decode_unchecked(data)->Ok_0.encode() == data,
{
    let record = EscrowView::decode_unchecked(data)->Ok_0;
    lemma_encode_decode(data.subrange(97, 105));
    assert(record.encode() =~= data);
}

} // verus!
