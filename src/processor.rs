use vstd::prelude::*;

use crate::bytes::Address;
use crate::error::EscrowError;
use crate::instruction::{instruction_from_bytes, EscrowInstruction};
use crate::runtime::{
    check_token_program, find_program_address, is_token_program, program_address,
};
use crate::state::{escrow_bytes, escrow_from_bytes, Escrow, EscrowModel, ESCROW_LEN};

verus! {

/// What the escrow program reads of one account.
pub struct AccountInput {
    /// The account's address.
    pub key: Address,
    /// The program that owns the account.
    pub owner: Address,
    /// Whether the account signed the transaction.
    pub is_signer: bool,
    /// The account's data.
    pub data: Vec<u8>,
}

/// An account as mathematical values.
pub struct AccountModel {
    pub key: Seq<u8>,
    pub owner: Seq<u8>,
    pub is_signer: bool,
    pub data: Seq<u8>,
}

impl View for AccountInput {
    type V = AccountModel;

    open spec fn view(&self) -> AccountModel {
        AccountModel {
            key: self.key@,
            owner: self.owner@,
            is_signer: self.is_signer,
            data: self.data@,
        }
    }
}

/// The request, made to the token program, that moves ownership of `account` from
/// `current_authority` to `new_authority`, signed by `signer`.
#[derive(Clone, Copy, Debug, PartialEq, Eq)]
pub struct AuthorityChange {
    pub token_program: Address,
    pub account: Address,
    pub new_authority: Address,
    pub current_authority: Address,
    pub signer: Address,
}

pub struct AuthorityChangeModel {
    pub token_program: Seq<u8>,
    pub account: Seq<u8>,
    pub new_authority: Seq<u8>,
    pub current_authority: Seq<u8>,
    pub signer: Seq<u8>,
}

impl View for AuthorityChange {
    type V = AuthorityChangeModel;

    open spec fn view(&self) -> AuthorityChangeModel {
        AuthorityChangeModel {
            token_program: self.token_program@,
            account: self.account@,
            new_authority: self.new_authority@,
            current_authority: self.current_authority@,
            signer: self.signer@,
        }
    }
}

/// What a successful initialization asks of the runtime: the escrow account's new
/// data, and one authority change to be made in the same transaction.
pub struct InitEscrowEffect {
    pub record: Vec<u8>,
    pub authority_change: AuthorityChange,
}

pub struct InitEscrowEffectModel {
    pub record: Seq<u8>,
    pub authority_change: AuthorityChangeModel,
}

impl View for InitEscrowEffect {
    type V = InitEscrowEffectModel;

    open spec fn view(&self) -> InitEscrowEffectModel {
        InitEscrowEffectModel { record: self.record@, authority_change: self.authority_change@ }
    }
}

/// The seed of the escrow authority's program address: the bytes of "escrow".
pub open spec fn escrow_seed() -> Seq<u8> {
    seq![101u8, 115u8, 99u8, 114u8, 111u8, 119u8]
}

pub open spec fn account_models(accounts: Seq<AccountInput>) -> Seq<AccountModel> {
    accounts.map_values(|a: AccountInput| a@)
}

/// The first check that initialization fails, in the order in which they are made,
/// or `None` where all pass.
pub open spec fn init_escrow_check(
    accounts: Seq<AccountModel>,
    rent_exempt: bool,
    program_id: Seq<u8>,
) -> Option<EscrowError> {
    if accounts.len() < 1 {
        Some(EscrowError::NotEnoughAccountKeys)
    } else if !accounts[0].is_signer {
        Some(EscrowError::MissingRequiredSignature)
    } else if accounts.len() < 3 {
        Some(EscrowError::NotEnoughAccountKeys)
    } else if !is_token_program(accounts[1].owner) {
        Some(EscrowError::IncorrectProgramId)
    } else if accounts.len() < 5 {
        Some(EscrowError::NotEnoughAccountKeys)
    } else if !rent_exempt {
        Some(EscrowError::NotRentExempt)
    } else if escrow_from_bytes(accounts[3].data) is None {
        Some(EscrowError::InvalidAccountData)
    } else if escrow_from_bytes(accounts[3].data).unwrap().is_initialized {
        Some(EscrowError::AccountAlreadyInitialized)
    } else if program_address(escrow_seed(), program_id) is None {
        Some(EscrowError::AddressDerivationFailed)
    } else if accounts.len() < 6 {
        Some(EscrowError::NotEnoughAccountKeys)
    } else if !is_token_program(accounts[5].key) {
        Some(EscrowError::IncorrectProgramId)
    } else {
        None
    }
}

/// The terms that a successful initialization records.
pub open spec fn init_escrow_record(accounts: Seq<AccountModel>, amount: u64) -> EscrowModel {
    EscrowModel {
        is_initialized: true,
        initializer: accounts[0].key,
        deposit: accounts[1].key,
        receive: accounts[2].key,
        expected_amount: amount,
    }
}

/// The effect of a successful initialization.
pub open spec fn init_escrow_effect(
    accounts: Seq<AccountModel>,
    amount: u64,
    program_id: Seq<u8>,
) -> InitEscrowEffectModel {
    InitEscrowEffectModel {
        record: escrow_bytes(init_escrow_record(accounts, amount)),
        authority_change: AuthorityChangeModel {
            token_program: accounts[5].key,
            account: accounts[1].key,
            new_authority: program_address(escrow_seed(), program_id).unwrap().0,
            current_authority: accounts[0].key,
            signer: accounts[0].key,
        },
    }
}

/// `r` is the outcome of initializing with these accounts: the first failed check's
/// error, or else exactly the effect above.
pub open spec fn init_escrow_outcome(
    r: Result<InitEscrowEffect, EscrowError>,
    accounts: Seq<AccountModel>,
    amount: u64,
    rent_exempt: bool,
    program_id: Seq<u8>,
) -> bool {
    match init_escrow_check(accounts, rent_exempt, program_id) {
        Some(e) => r == Err::<InitEscrowEffect, EscrowError>(e),
        None => match r {
            Ok(effect) => effect@ == init_escrow_effect(accounts, amount, program_id),
            Err(_) => false,
        },
    }
}

/// The escrow account after a successful initialization has been committed: its
/// data replaced by the new record, everything else as it was.
pub open spec fn with_record_written(
    accounts: Seq<AccountModel>,
    amount: u64,
    program_id: Seq<u8>,
) -> Seq<AccountModel> {
    accounts.update(
        3,
        AccountModel { data: init_escrow_effect(accounts, amount, program_id).record, ..accounts[3] },
    )
}

/// Once an initialization has succeeded and its record is stored, initializing again
/// with the same accounts fails with `AccountAlreadyInitialized`, whatever the amount,
/// so nothing is written a second time and the stored record stays as it is.
pub proof fn lemma_second_init_rejected(
    accounts: Seq<AccountModel>,
    amount: u64,
    second_amount: u64,
    rent_exempt: bool,
    program_id: Seq<u8>,
    r: Result<InitEscrowEffect, EscrowError>,
)
    requires
        forall|i: int| 0 <= i < accounts.len() ==> (#[trigger] accounts[i]).key.len() == 32,
        init_escrow_check(accounts, rent_exempt, program_id) is None,
        init_escrow_outcome(
            r,
            with_record_written(accounts, amount, program_id),
            second_amount,
            rent_exempt,
            program_id,
        ),
    ensures
        r == Err::<InitEscrowEffect, EscrowError>(EscrowError::AccountAlreadyInitialized),
{
    let after = with_record_written(accounts, amount, program_id);
    let m = init_escrow_record(accounts, amount);
    assert(accounts[0].key.len() == 32 && accounts[1].key.len() == 32 && accounts[2].key.len()
        == 32);
    crate::state::lemma_round_trip(m);
    assert(after[3].data == escrow_bytes(m));
    assert(after[0] == accounts[0] && after[1] == accounts[1] && after[5] == accounts[5]);
}

/// A request whose initializer did not sign fails with `MissingRequiredSignature`,
/// whatever else is wrong with it: the signature is checked first.
pub proof fn lemma_signature_checked_first(
    accounts: Seq<AccountModel>,
    rent_exempt: bool,
    program_id: Seq<u8>,
)
    requires
        accounts.len() >= 1,
        !accounts[0].is_signer,
    ensures
        init_escrow_check(accounts, rent_exempt, program_id) == Some(
            EscrowError::MissingRequiredSignature,
        ),
{
}

/// The escrow program's instruction processor.
pub struct Processor;

impl Processor {
    /// Decodes `instruction_data` and runs the instruction it names.
    /// `rent_exempt` tells whether the escrow account (account 3) is funded enough to
    /// be exempt from rent.
    pub fn process(
        program_id: &Address,
        accounts: &[AccountInput],
        instruction_data: &[u8],
        rent_exempt: bool,
    ) -> (r: Result<InitEscrowEffect, EscrowError>)
        ensures
            match instruction_from_bytes(instruction_data@) {
                Err(e) => r == Err::<InitEscrowEffect, EscrowError>(e),
                Ok(EscrowInstruction::InitEscrow { amount }) => init_escrow_outcome(
                    r,
                    account_models(accounts@),
                    amount,
                    rent_exempt,
                    program_id@,
                ),
            },
    {
        let instruction = EscrowInstruction::unpack(instruction_data)?;
        match instruction {
            EscrowInstruction::InitEscrow { amount } => {
                Self::process_init_escrow(accounts, amount, program_id, rent_exempt)
            },
        }
    }

    /// Checks the accounts, in order, and on success returns the escrow account's new
    /// record and the authority change that hands the deposit account to the
    /// escrow's program address. Nothing is written on failure.
    pub fn process_init_escrow(
        accounts: &[AccountInput],
        amount: u64,
        program_id: &Address,
        rent_exempt: bool,
    ) -> (r: Result<InitEscrowEffect, EscrowError>)
        ensures
            init_escrow_outcome(r, account_models(accounts@), amount, rent_exempt, program_id@),
    {
        let ghost accs = account_models(accounts@);
        assert(forall|i: int| 0 <= i < accounts@.len() ==> accs[i] == accounts@[i]@);
        if accounts.len() < 1 {
            return Err(EscrowError::NotEnoughAccountKeys);
        }
        let initializer = &accounts[0];
        if !initializer.is_signer {
            return Err(EscrowError::MissingRequiredSignature);
        }
        if accounts.len() < 3 {
            return Err(EscrowError::NotEnoughAccountKeys);
        }
        let x_token_account = &accounts[1];
        let token_to_receive_account = &accounts[2];
        if !check_token_program(&x_token_account.owner) {
            return Err(EscrowError::IncorrectProgramId);
        }
        if accounts.len() < 5 {
            return Err(EscrowError::NotEnoughAccountKeys);
        }
        let escrow_account = &accounts[3];
        if !rent_exempt {
            return Err(EscrowError::NotRentExempt);
        }
        if escrow_account.data.len() != ESCROW_LEN {
            return Err(EscrowError::InvalidAccountData);
        }
        let mut escrow_info = Escrow::unpack_from_slice(escrow_account.data.as_slice())?;
        if escrow_info.is_initialized() {
            return Err(EscrowError::AccountAlreadyInitialized);
        }
        escrow_info.is_initialized = true;
        escrow_info.initializer_pubkey = initializer.key;
        escrow_info.x_token_account_pubkey = x_token_account.key;
        escrow_info.initializer_token_to_receive_account_pubkey = token_to_receive_account.key;
        escrow_info.expected_amount = amount;
        let mut record: Vec<u8> = vec![0u8; ESCROW_LEN];
        escrow_info.pack_into_slice(record.as_mut_slice());

        let seed: [u8; 6] = [101u8, 115u8, 99u8, 114u8, 111u8, 119u8];
        assert(seed@ =~= escrow_seed());
        let pda = match find_program_address(seed.as_slice(), program_id) {
            Some((address, _bump)) => address,
            None => {
                return Err(EscrowError::AddressDerivationFailed);
            },
        };
        if accounts.len() < 6 {
            return Err(EscrowError::NotEnoughAccountKeys);
        }
        let token_program = &accounts[5];
        if !check_token_program(&token_program.key) {
            return Err(EscrowError::IncorrectProgramId);
        }
        let authority_change = AuthorityChange {
            token_program: token_program.key,
            account: x_token_account.key,
            new_authority: pda,
            current_authority: initializer.key,
            signer: initializer.key,
        };
        Ok(InitEscrowEffect { record, authority_change })
    }
}

} // verus!
