//! The ledger's terms for keeping an account: an account whose balance is at
//! least the minimum for its size is exempt from rent and is never reclaimed.

use crate::account::{Account, AccountView};
use crate::codec::{le_u64, read_u64};
use crate::errors::Failure;
use solana_program::account_info::AccountInfo;
use solana_program::pubkey::Pubkey;
use solana_program::sysvar::Sysvar;
use vstd::prelude::*;

verus! {

/// Number of bytes of the encoded terms: the yearly price of a byte (eight
/// bytes), the exemption threshold in years (eight bytes), the burnt share
/// (one byte).
pub const RENT_LEN: usize = 17;

/// Bytes that the ledger adds to the size of every account when it prices it.
pub const ACCOUNT_STORAGE_OVERHEAD: u64 = 128;

/// The address of the account in which the ledger publishes its terms.
pub open spec fn rent_sysvar_id() -> Seq<u8> {
    seq![
        6u8, 167u8, 213u8, 23u8, 25u8, 44u8, 92u8, 81u8, 33u8, 140u8, 201u8, 76u8, 61u8, 74u8,
        241u8, 127u8, 88u8, 218u8, 238u8, 8u8, 155u8, 161u8, 253u8, 68u8, 227u8, 219u8, 217u8,
        138u8, 0u8, 0u8, 0u8, 0u8,
    ]
}

/// Whether `rent` is the account of the terms and holds encoded terms.
pub open spec fn rent_readable(rent: AccountView) -> bool {
    rent.key == rent_sysvar_id() && rent.data.len() >= 17
}

/// The yearly price of a byte that the terms in `data` give.
pub open spec fn rent_rate(data: Seq<u8>) -> int {
    le_u64(data.subrange(0, 8))
}

/// Whether the yearly price of an account of `data_len` bytes can be
/// computed in 64 bits from the terms in `data`: the priced size, which is
/// the size and the overhead, and the price itself both fit.
pub open spec fn rent_priceable(data: Seq<u8>, data_len: usize) -> bool {
    128 + data_len <= u64::MAX && (128 + data_len) * rent_rate(data) <= u64::MAX
}

/// Whether the terms in `rent` can be applied to an account of `data_len`
/// bytes: they are readable, and the account can be priced.
pub open spec fn rent_usable(rent: AccountView, data_len: usize) -> bool {
    rent_readable(rent) && rent_priceable(rent.data, data_len)
}

/// Whether, under the encoded terms, a balance of `lamports` exempts an
/// account of `data_len` bytes from rent.
pub uninterp spec fn rent_exempt(terms: Seq<u8>, lamports: u64, data_len: usize) -> bool;

/// Whether, under the terms in `rent`, a balance of `lamports` exempts an
/// account of `data_len` bytes from rent. Fails with `InvalidArgument` when
/// `rent` is not the account of the terms, holds fewer bytes than the terms
/// take, or prices the account beyond 64 bits.
pub fn is_exempt(rent: &Account, lamports: u64, data_len: usize) -> (r: Result<bool, Failure>)
    ensures
        !rent_usable(rent@, data_len) ==> r == Err::<bool, Failure>(Failure::InvalidArgument),
        rent_usable(rent@, data_len) ==> r == Ok::<bool, Failure>(
            rent_exempt(rent@.data.subrange(0, 17), lamports, data_len),
        ),
{
    if rent.data.len() >= RENT_LEN {
        let rate: u64 = read_u64(rent.data.as_slice(), 0);
        if data_len as u64 > u64::MAX - ACCOUNT_STORAGE_OVERHEAD {
            return Err(Failure::InvalidArgument);
        }
        let priced: u64 = ACCOUNT_STORAGE_OVERHEAD + data_len as u64;
        if rate != 0 && priced > u64::MAX / rate {
            assert(priced * rate > u64::MAX) by (nonlinear_arith)
                requires
                    rate > 0,
                    priced > u64::MAX / rate,
            ;
            return Err(Failure::InvalidArgument);
        }
        assert(priced * rate <= u64::MAX) by (nonlinear_arith)
            requires
                rate == 0 || (rate > 0 && priced <= u64::MAX / rate),
        ;
    }
    match rent_is_exempt(rent, lamports, data_len) {
        Some(exempt) => Ok(exempt),
        None => Err(Failure::InvalidArgument),
    }
}

/// `Rent::from_account_info` on an account with the fields of `rent`, then
/// `Rent::is_exempt` on what it read. The contract says that the terms are
/// read exactly when the account has the address of the terms and at least
/// seventeen bytes of data, and that the answer is then a function of those
/// seventeen bytes, the balance and the size alone, to which it gives a name.
/// It leaves out the sizes that cannot be priced in 64 bits, on which the
/// outside arithmetic overflows: the first eight bytes of the terms are the
/// yearly price of a byte.
#[verifier::external_body]
fn rent_is_exempt(rent: &Account, lamports: u64, data_len: usize) -> (r: Option<bool>)
    requires
        rent@.data.len() >= 17 ==> rent_priceable(rent@.data, data_len),
    ensures
        r is Some <==> rent_readable(rent@),
        r matches Some(exempt) ==> exempt == rent_exempt(
            rent@.data.subrange(0, 17),
            lamports,
            data_len,
        ),
{
    let key = Pubkey::new_from_array(rent.key.bytes);
    let owner = Pubkey::new_from_array(rent.owner.bytes);
    let (mut balance, mut data) = (rent.lamports, rent.data.clone());
    let info = AccountInfo::new(
        &key, rent.is_signer, rent.is_writable, &mut balance, &mut data, &owner,
        rent.executable, rent.rent_epoch,
    );
    let terms = solana_program::rent::Rent::from_account_info(&info).ok()?;
    Some(terms.is_exempt(lamports, data_len))
}

} // verus!
