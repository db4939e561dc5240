//! The program-derived authority: an address without a private key, derived
//! from a fixed seed and the program's own address, that holds the deposit
//! between the two instructions of a swap.

use crate::address::Address;
use solana_program::pubkey::Pubkey;
use vstd::prelude::*;

verus! {

/// The seed from which the authority is derived: the ASCII bytes of `escrow`.
pub const ESCROW_SEED: [u8; 6] = [101, 115, 99, 114, 111, 119];

/// The seed from which the authority is derived: the ASCII bytes of `escrow`.
pub open spec fn escrow_seed() -> Seq<u8> {
    seq![101u8, 115u8, 99u8, 114u8, 111u8, 119u8]
}

/// The address and bump seed that the ledger derives from one seed and a
/// program's address, if it derives any.
pub uninterp spec fn program_address(seed: Seq<u8>, program_id: Seq<u8>) -> Option<(Seq<u8>, u8)>;

/// A derived authority together with what proves the program's right to
/// sign for it. The authority has no key: whoever acts for it presents the
/// escrow seed and the bump seed in place of a signature.
#[derive(Clone, Copy, Debug, PartialEq, Eq)]
pub struct Authority {
    /// The derived address.
    pub address: Address,
    /// The bump seed that makes the derived address one without a key.
    pub bump: u8,
}

/// An authority as a mathematical value.
pub struct AuthorityView {
    pub address: Seq<u8>,
    pub bump: u8,
}

impl View for Authority {
    type V = AuthorityView;

    open spec fn view(&self) -> AuthorityView {
        AuthorityView { address: self.address@, bump: self.bump }
    }
}

/// The authority of the program at `program_id`, where the ledger derives
/// one.
pub open spec fn escrow_authority(program_id: Seq<u8>) -> AuthorityView
    recommends
        program_address(escrow_seed(), program_id) is Some,
{
    AuthorityView {
        address: program_address(escrow_seed(), program_id)->Some_0.0,
        bump: program_address(escrow_seed(), program_id)->Some_0.1,
    }
}

impl Authority {
    /// Derives the authority of the program at `program_id` from the escrow
    /// seed. The result is `None` exactly when the ledger derives no address.
    pub fn find(program_id: &Address) -> (r: Option<Authority>)
        ensures
            r is None <==> program_address(escrow_seed(), program_id@) is None,
            r matches Some(authority) ==> authority@ == escrow_authority(program_id@),
    {
        let seed: [u8; 6] = ESCROW_SEED;
        assert(seed@ =~= escrow_seed());
        match find_program_address(&seed, program_id) {
            Some((address, bump)) => Some(Authority { address, bump }),
            None => None,
        }
    }
}

/// `Pubkey::try_find_program_address` with `seed` as the only seed: the
/// contract says that the result is a function of the seed and the program's
/// address alone, and gives that function a name.
#[verifier::external_body]
fn find_program_address(seed: &[u8], program_id: &Address) -> (r: Option<(Address, u8)>)
    ensures
        r is None <==> program_address(seed@, program_id@) is None,
        r matches Some((address, bump)) ==> program_address(seed@, program_id@) == Some(
            (address@, bump),
        ),
{
    Pubkey::try_find_program_address(&[seed], &Pubkey::new_from_array(program_id.bytes)).map(
        |(key, bump)| (Address { bytes: key.to_bytes() }, bump),
    )
}

} // verus!
