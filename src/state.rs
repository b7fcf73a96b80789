use vstd::prelude::*;

use crate::bytes::{le_bytes, read_address, read_u64_le, u64_from_le, u64_to_le, write_at, Address};
use crate::error::EscrowError;

verus! {

/// Size of an encoded escrow record: a flag, three addresses and an amount.
pub const ESCROW_LEN: usize = 105;

/// The persistent terms of one escrow.
#[derive(Clone, Copy, Debug, PartialEq, Eq)]
pub struct Escrow {
    /// Whether the record holds terms.
    pub is_initialized: bool,
    /// The party that deposited the tokens.
    pub initializer_pubkey: Address,
    /// The token account that holds the deposit under the escrow's authority.
    pub x_token_account_pubkey: Address,
    /// The initializer's account that receives the counter-asset.
    pub initializer_token_to_receive_account_pubkey: Address,
    /// The amount of counter-asset that the initializer expects.
    pub expected_amount: u64,
}

/// The escrow record as mathematical values.
pub struct EscrowModel {
    pub is_initialized: bool,
    pub initializer: Seq<u8>,
    pub deposit: Seq<u8>,
    pub receive: Seq<u8>,
    pub expected_amount: u64,
}

impl EscrowModel {
    /// Every address is 32 bytes long.
    pub open spec fn wf(self) -> bool {
        &&& self.initializer.len() == 32
        &&& self.deposit.len() == 32
        &&& self.receive.len() == 32
    }
}

impl View for Escrow {
    type V = EscrowModel;

    open spec fn view(&self) -> EscrowModel {
        EscrowModel {
            is_initialized: self.is_initialized,
            initializer: self.initializer_pubkey@,
            deposit: self.x_token_account_pubkey@,
            receive: self.initializer_token_to_receive_account_pubkey@,
            expected_amount: self.expected_amount,
        }
    }
}

/// The wire layout of a record: flag at 0, addresses at 1, 33 and 65, amount at 97.
pub open spec fn escrow_bytes(m: EscrowModel) -> Seq<u8> {
    seq![if m.is_initialized { 1u8 } else { 0u8 }] + m.initializer + m.deposit + m.receive
        + le_bytes(m.expected_amount)
}

/// The record that `s` encodes, if its flag byte is 0 or 1.
pub open spec fn escrow_from_bytes(s: Seq<u8>) -> Option<EscrowModel> {
    if s.len() == ESCROW_LEN && (s[0] == 0 || s[0] == 1) {
        Some(
            EscrowModel {
                is_initialized: s[0] == 1,
                initializer: s.subrange(1, 33),
                deposit: s.subrange(33, 65),
                receive: s.subrange(65, 97),
                expected_amount: u64_from_le(s.subrange(97, 105)),
            },
        )
    } else {
        None
    }
}

/// Decoding the encoding of a record gives that record back.
pub proof fn lemma_round_trip(m: EscrowModel)
    requires
        m.wf(),
    ensures
        escrow_from_bytes(escrow_bytes(m)) == Some(m),
{
    let s = escrow_bytes(m);
    lemma_le_bytes_len(m.expected_amount);
    assert(s.subrange(1, 33) =~= m.initializer);
    assert(s.subrange(33, 65) =~= m.deposit);
    assert(s.subrange(65, 97) =~= m.receive);
    assert(s.subrange(97, 105) =~= le_bytes(m.expected_amount));
    crate::bytes::lemma_le_round_trip(m.expected_amount);
}

proof fn lemma_le_bytes_len(n: u64)
    ensures
        le_bytes(n).len() == 8,
{
}

/// Every record of the right size whose flag byte is neither 0 nor 1 is rejected.
pub proof fn lemma_bad_flag_rejected(s: Seq<u8>)
    requires
        s.len() == ESCROW_LEN,
        s[0] != 0 && s[0] != 1,
    ensures
        escrow_from_bytes(s).is_none(),
{
}

impl Escrow {
    pub fn is_initialized(&self) -> (r: bool)
        ensures
            r == self.is_initialized,
    {
        self.is_initialized
    }

    /// Decodes a record from its 105 bytes; a flag byte other than 0 or 1 is corrupt data.
    pub fn unpack_from_slice(src: &[u8]) -> (r: Result<Escrow, EscrowError>)
        requires
            src@.len() == ESCROW_LEN,
        ensures
            r is Ok <==> (src@[0] == 0 || src@[0] == 1),
            match r {
                Ok(e) => escrow_from_bytes(src@) == Some(e@),
                Err(err) => err == EscrowError::InvalidAccountData,
            },
    {
        let is_initialized = if src[0] == 0 {
            false
        } else if src[0] == 1 {
            true
        } else {
            return Err(EscrowError::InvalidAccountData);
        };
        let e = Escrow {
            is_initialized,
            initializer_pubkey: read_address(src, 1),
            x_token_account_pubkey: read_address(src, 33),
            initializer_token_to_receive_account_pubkey: read_address(src, 65),
            expected_amount: read_u64_le(src, 97),
        };
        Ok(e)
    }

    /// Writes the record's 105 bytes over `dst`.
    pub fn pack_into_slice(&self, dst: &mut [u8])
        requires
            old(dst)@.len() == ESCROW_LEN,
        ensures
            final(dst)@ == escrow_bytes(self@),
    {
        let flag: u8 = if self.is_initialized { 1 } else { 0 };
        dst[0] = flag;
        write_at(dst, 1, self.initializer_pubkey.bytes.as_slice());
        write_at(dst, 33, self.x_token_account_pubkey.bytes.as_slice());
        write_at(dst, 65, self.initializer_token_to_receive_account_pubkey.bytes.as_slice());
        let amount = u64_to_le(self.expected_amount);
        write_at(dst, 97, amount.as_slice());
        assert(dst@ =~= escrow_bytes(self@));
    }
}

} // verus!
