use escrow::error::EscrowError;
use escrow::instruction::EscrowInstruction;

fn encode(n: u64) -> Vec<u8> {
    let mut v = vec![0u8];
    v.extend_from_slice(&n.to_le_bytes());
    v
}

#[test]
fn init_escrow_decodes_its_amount() {
    for n in [0u64, 1, 255, 256, 1_000_000, u64::MAX] {
        assert_eq!(
            EscrowInstruction::unpack(&encode(n)),
            Ok(EscrowInstruction::InitEscrow { amount: n })
        );
    }
}

#[test]
fn empty_buffer_is_invalid() {
    assert_eq!(
        EscrowInstruction::unpack(&[]),
        Err(EscrowError::InvalidInstruction)
    );
}

#[test]
fn nonzero_tag_is_unknown() {
    for k in 1u8..=255 {
        assert_eq!(
            EscrowInstruction::unpack(&[k]),
            Err(EscrowError::UnknownInstruction)
        );
    }
    assert_eq!(
        EscrowInstruction::unpack(&[3, 1, 2, 3, 4, 5, 6, 7, 8]),
        Err(EscrowError::UnknownInstruction)
    );
}

#[test]
fn short_payload_is_invalid() {
    assert_eq!(
        EscrowInstruction::unpack(&[0]),
        Err(EscrowError::InvalidInstruction)
    );
    assert_eq!(
        EscrowInstruction::unpack(&[0, 1, 2, 3, 4, 5, 6, 7]),
        Err(EscrowError::InvalidInstruction)
    );
}

#[test]
fn trailing_bytes_are_ignored() {
    let mut v = encode(42);
    v.extend_from_slice(&[9, 9, 9]);
    assert_eq!(
        EscrowInstruction::unpack(&v),
        Ok(EscrowInstruction::InitEscrow { amount: 42 })
    );
}

#[test]
fn unpack_amount_reads_eight_bytes() {
    assert_eq!(
        EscrowInstruction::unpack_amount(&[0x40, 0x42, 0x0F, 0, 0, 0, 0, 0]),
        Ok(1_000_000)
    );
    assert_eq!(
        EscrowInstruction::unpack_amount(&[1, 2, 3]),
        Err(EscrowError::InvalidInstruction)
    );
}
