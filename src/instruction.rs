use vstd::prelude::*;

use crate::bytes::{le_bytes, lemma_le_round_trip, read_u64_le, u64_from_le};
use crate::error::EscrowError;

verus! {

/// The instructions that the escrow program accepts.
#[derive(Clone, Copy, Debug, PartialEq, Eq, Structural)]
pub enum EscrowInstruction {
    /// Fills an escrow record and hands the deposit account over to the escrow's authority.
    ///
    /// Accounts, in order:
    /// 0. `[signer]` the initializer
    /// 1. `[writable]` the token account holding the deposit, owned by the token program
    /// 2. `[]` the initializer's account that receives the counter-asset
    /// 3. `[writable]` the escrow record
    /// 4. `[]` the rent sysvar
    /// 5. `[]` the token program
    InitEscrow {
        /// The amount of counter-asset that the initializer expects.
        amount: u64,
    },
}

/// The amount encoded in the first eight bytes of `s`, little-endian.
pub open spec fn amount_from_bytes(s: Seq<u8>) -> Result<u64, EscrowError> {
    if s.len() >= 8 {
        Ok(u64_from_le(s.subrange(0, 8)))
    } else {
        Err(EscrowError::InvalidInstruction)
    }
}

/// The instruction encoded by `s`: a tag byte, then the tag's payload.
pub open spec fn instruction_from_bytes(s: Seq<u8>) -> Result<EscrowInstruction, EscrowError> {
    if s.len() == 0 {
        Err(EscrowError::InvalidInstruction)
    } else if s[0] != 0 {
        Err(EscrowError::UnknownInstruction)
    } else {
        match amount_from_bytes(s.subrange(1, s.len() as int)) {
            Ok(amount) => Ok(EscrowInstruction::InitEscrow { amount }),
            Err(e) => Err(e),
        }
    }
}

/// A zero tag followed by the little-endian bytes of `n` decodes to `InitEscrow` with
/// amount `n`; an empty buffer and a lone nonzero tag are both rejected.
pub proof fn lemma_init_escrow_decodes(n: u64, k: u8)
    requires
        k != 0,
    ensures
        instruction_from_bytes(seq![0u8] + le_bytes(n)) == Ok::<EscrowInstruction, EscrowError>(
            EscrowInstruction::InitEscrow { amount: n },
        ),
        instruction_from_bytes(Seq::<u8>::empty()) is Err,
        instruction_from_bytes(seq![k]) is Err,
{
    let s = seq![0u8] + le_bytes(n);
    assert(s.subrange(1, s.len() as int) =~= le_bytes(n));
    assert(le_bytes(n).subrange(0, 8) =~= le_bytes(n));
    lemma_le_round_trip(n);
}

impl EscrowInstruction {
    /// Decodes an instruction buffer; bytes past the payload are ignored.
    pub fn unpack(input: &[u8]) -> (r: Result<Self, EscrowError>)
        ensures
            r == instruction_from_bytes(input@),
    {
        if input.len() == 0 {
            return Err(EscrowError::InvalidInstruction);
        }
        if input[0] != 0 {
            return Err(EscrowError::UnknownInstruction);
        }
        let rest = vstd::slice::slice_subrange(input, 1, input.len());
        assert(rest@ == input@.subrange(1, input@.len() as int));
        let amount = Self::unpack_amount(rest)?;
        Ok(EscrowInstruction::InitEscrow { amount })
    }

    /// Reads a little-endian `u64` from the first eight bytes of `input`.
    pub fn unpack_amount(input: &[u8]) -> (r: Result<u64, EscrowError>)
        ensures
            r == amount_from_bytes(input@),
    {
        if input.len() < 8 {
            return Err(EscrowError::InvalidInstruction);
        }
        Ok(read_u64_le(input, 0))
    }
}

} // verus!
