use escrow::bytes::Address;
use escrow::error::EscrowError;
use escrow::processor::{AccountInput, InitEscrowEffect, Processor};
use escrow::state::{Escrow, ESCROW_LEN};
use solana_program::pubkey::Pubkey;

fn addr(b: u8) -> Address {
    Address { bytes: [b; 32] }
}

fn token_id() -> Address {
    Address {
        bytes: spl_token::id().to_bytes(),
    }
}

fn program_id() -> Address {
    addr(200)
}

fn derived_authority() -> Address {
    let (pda, _) = Pubkey::find_program_address(
        &[b"escrow"],
        &Pubkey::new_from_array(program_id().bytes),
    );
    Address {
        bytes: pda.to_bytes(),
    }
}

fn account(key: Address, owner: Address, is_signer: bool, data: Vec<u8>) -> AccountInput {
    AccountInput {
        key,
        owner,
        is_signer,
        data,
    }
}

/// The initializer (signed), the deposit account (owned by the token program), the
/// payout account, an empty escrow record, the rent sysvar and the token program.
fn accounts() -> Vec<AccountInput> {
    vec![
        account(addr(1), addr(0), true, vec![]),
        account(addr(2), token_id(), false, vec![]),
        account(addr(3), token_id(), false, vec![]),
        account(addr(4), program_id(), false, vec![0u8; ESCROW_LEN]),
        account(addr(5), addr(0), false, vec![]),
        account(token_id(), addr(0), false, vec![]),
    ]
}

fn instruction(amount: u64) -> Vec<u8> {
    let mut v = vec![0u8];
    v.extend_from_slice(&amount.to_le_bytes());
    v
}

fn run(accs: &[AccountInput], amount: u64, exempt: bool) -> Result<InitEscrowEffect, EscrowError> {
    Processor::process(&program_id(), accs, &instruction(amount), exempt)
}

#[test]
fn initialization_records_terms_and_asks_for_one_authority_change() {
    let accs = accounts();
    let effect = run(&accs, 1_000_000, true).unwrap();
    assert_eq!(effect.record.len(), ESCROW_LEN);
    let record = Escrow::unpack_from_slice(&effect.record).unwrap();
    assert_eq!(
        record,
        Escrow {
            is_initialized: true,
            initializer_pubkey: addr(1),
            x_token_account_pubkey: addr(2),
            initializer_token_to_receive_account_pubkey: addr(3),
            expected_amount: 1_000_000,
        }
    );
    let change = effect.authority_change;
    assert_eq!(change.token_program, token_id());
    assert_eq!(change.account, addr(2));
    assert_eq!(change.current_authority, addr(1));
    assert_eq!(change.signer, addr(1));
    assert_eq!(change.new_authority, derived_authority());
    assert_ne!(change.new_authority, program_id());
}

#[test]
fn deposit_not_owned_by_token_program_is_rejected() {
    let mut accs = accounts();
    accs[1].owner = addr(9);
    let before = accs[3].data.clone();
    assert_eq!(
        run(&accs, 1_000_000, true).err(),
        Some(EscrowError::IncorrectProgramId)
    );
    assert_eq!(accs[3].data, before);
}

#[test]
fn second_initialization_is_rejected() {
    let mut accs = accounts();
    let effect = run(&accs, 1_000_000, true).unwrap();
    accs[3].data = effect.record.clone();
    assert_eq!(
        run(&accs, 7, true).err(),
        Some(EscrowError::AccountAlreadyInitialized)
    );
    assert_eq!(accs[3].data, effect.record);
}

#[test]
fn missing_signature_wins_over_rent() {
    let mut accs = accounts();
    accs[0].is_signer = false;
    assert_eq!(
        run(&accs, 1, false).err(),
        Some(EscrowError::MissingRequiredSignature)
    );
}

#[test]
fn not_rent_exempt_is_rejected() {
    assert_eq!(
        run(&accounts(), 1, false).err(),
        Some(EscrowError::NotRentExempt)
    );
}

#[test]
fn corrupt_record_is_rejected() {
    let mut accs = accounts();
    accs[3].data[0] = 7;
    assert_eq!(
        run(&accs, 1, true).err(),
        Some(EscrowError::InvalidAccountData)
    );
    let mut accs = accounts();
    accs[3].data = vec![0u8; ESCROW_LEN - 1];
    assert_eq!(
        run(&accs, 1, true).err(),
        Some(EscrowError::InvalidAccountData)
    );
}

#[test]
fn missing_accounts_are_rejected() {
    for n in [0usize, 2, 4, 5] {
        let mut accs = accounts();
        accs.truncate(n);
        assert_eq!(
            run(&accs, 1, true).err(),
            Some(EscrowError::NotEnoughAccountKeys),
            "{} accounts",
            n
        );
    }
}

#[test]
fn wrong_token_program_is_rejected() {
    let mut accs = accounts();
    accs[5].key = addr(8);
    assert_eq!(
        run(&accs, 1, true).err(),
        Some(EscrowError::IncorrectProgramId)
    );
}

#[test]
fn malformed_instruction_is_rejected_before_accounts() {
    let accs = accounts();
    assert_eq!(
        Processor::process(&program_id(), &accs, &[], true).err(),
        Some(EscrowError::InvalidInstruction)
    );
    assert_eq!(
        Processor::process(&program_id(), &accs, &[1, 0, 0, 0, 0, 0, 0, 0, 0], true).err(),
        Some(EscrowError::UnknownInstruction)
    );
}

#[test]
fn process_init_escrow_takes_the_amount_directly() {
    let effect = Processor::process_init_escrow(&accounts(), 99, &program_id(), true).unwrap();
    let record = Escrow::unpack_from_slice(&effect.record).unwrap();
    assert_eq!(record.expected_amount, 99);
}
