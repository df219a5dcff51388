//! Account identifiers and the derivation of the pool's signing identity.

use crate::errors::ErrorCode;
use anchor_lang::prelude::Pubkey;
use vstd::prelude::*;

verus! {

/// A 32-byte identifier of a custody account, a mint, a program or an authority.
#[derive(Clone, Copy, Debug, PartialEq, Eq)]
pub struct Address {
    pub bytes: [u8; 32],
}

impl View for Address {
    type V = Seq<u8>;

    open spec fn view(&self) -> Seq<u8> {
        self.bytes@
    }
}

impl DeepView for Address {
    type V = Seq<u8>;

    open spec fn deep_view(&self) -> Seq<u8> {
        self.bytes@
    }
}

impl Address {
    /// Whether two identifiers hold the same bytes.
    pub fn same(&self, other: &Address) -> (r: bool)
        ensures
            r == (self@ == other@),
            r == (*self == *other),
    {
        let mut i: usize = 0;
        while i < 32
            invariant
                i <= 32,
                forall|j: int| 0 <= j < i ==> self.bytes[j] == other.bytes[j],
            decreases 32 - i,
        {
            if self.bytes[i] != other.bytes[i] {
                return false;
            }
            i = i + 1;
        }
        assert(self.bytes =~= other.bytes);
        true
    }
}

/// The identity that a program derives from one 32-byte seed and a nonce byte,
/// as a function of the seed's bytes, the nonce and the program's bytes;
/// `None` where these derive no valid identity.
pub uninterp spec fn program_address(seed: Seq<u8>, nonce: u8, program: Seq<u8>) -> Option<Seq<u8>>;

/// Calls `Pubkey::create_program_address` with the seeds `[seed, [nonce]]`.
/// The contract claims only that the outcome is a fixed function of the three
/// inputs: the bytes of the derived key on success, `None` on either error.
#[verifier::external_body]
pub(crate) fn create_program_address(seed: &Address, nonce: u8, program_id: &Address) -> (res: Option<Address>)
    ensures
        res.deep_view() == program_address(seed@, nonce, program_id@),
{
    let program = Pubkey::new_from_array(program_id.bytes);
    match Pubkey::create_program_address(&[&seed.bytes[..], &[nonce]], &program) {
        Ok(key) => Some(Address { bytes: key.to_bytes() }),
        Err(_) => None,
    }
}

/// The presented signer is accepted only if the derivation succeeded and gave
/// exactly its bytes.
pub open spec fn signer_admitted(derived: Option<Seq<u8>>, presented: Address) -> Result<(), ErrorCode> {
    if derived == Some(presented@) {
        Ok(())
    } else {
        Err(ErrorCode::InvalidSignerDerivation)
    }
}

/// Compares the outcome of a derivation with the signer that was presented.
pub fn check_signer(derived: Option<Address>, presented: &Address) -> (res: Result<(), ErrorCode>)
    ensures
        res == signer_admitted(derived.deep_view(), *presented),
{
    match derived {
        Some(expected) => {
            if expected.same(presented) {
                Ok(())
            } else {
                Err(ErrorCode::InvalidSignerDerivation)
            }
        },
        None => Err(ErrorCode::InvalidSignerDerivation),
    }
}

} // verus!
