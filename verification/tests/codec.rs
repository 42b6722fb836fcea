use rndr_escrow::error::EscrowError;
use rndr_escrow::ids::AccountId;
use rndr_escrow::instruction::RNDRInstruction;

fn id(byte: u8) -> AccountId {
    AccountId::from_bytes(vec![byte; 32]).unwrap()
}

#[test]
fn round_trip_init_escrow() {
    let x = RNDRInstruction::InitEscrow { owner: id(1) };
    let buf = x.pack();
    assert_eq!(RNDRInstruction::unpack(&buf).unwrap(), x);
}

#[test]
fn round_trip_set_escrow_owner() {
    let x = RNDRInstruction::SetEscrowOwner { new_owner: id(9) };
    let buf = x.pack();
    assert_eq!(RNDRInstruction::unpack(&buf).unwrap(), x);
}

#[test]
fn round_trip_fund_job() {
    for amount in [0u64, 1, 100, 0x0102030405060708, u64::MAX] {
        let x = RNDRInstruction::FundJob { amount };
        let buf = x.pack();
        assert_eq!(RNDRInstruction::unpack(&buf).unwrap(), x);
    }
}

#[test]
fn round_trip_disburse_funds() {
    for amount in [0u64, 60, u64::MAX - 1] {
        let x = RNDRInstruction::DisburseFunds { amount };
        let buf = x.pack();
        assert_eq!(RNDRInstruction::unpack(&buf).unwrap(), x);
    }
}

#[test]
fn pack_layout_is_tag_then_payload() {
    let owner = id(5);
    let buf = RNDRInstruction::InitEscrow { owner }.pack();
    let mut expected = vec![0u8];
    expected.extend_from_slice(&[5u8; 32]);
    assert_eq!(buf, expected);

    let buf = RNDRInstruction::SetEscrowOwner { new_owner: id(6) }.pack();
    let mut expected = vec![1u8];
    expected.extend_from_slice(&[6u8; 32]);
    assert_eq!(buf, expected);
}

#[test]
fn pack_amount_is_little_endian() {
    let buf = RNDRInstruction::FundJob { amount: 258 }.pack();
    assert_eq!(buf, vec![2u8, 2, 1, 0, 0, 0, 0, 0, 0]);

    let buf = RNDRInstruction::DisburseFunds { amount: 1 }.pack();
    assert_eq!(buf, vec![3u8, 1, 0, 0, 0, 0, 0, 0, 0]);
}

#[test]
fn unpack_rejects_empty_buffer() {
    assert_eq!(
        RNDRInstruction::unpack(&[]).unwrap_err(),
        EscrowError::TruncatedInstruction
    );
}

#[test]
fn unpack_rejects_short_identifier_payload() {
    let buf = vec![0u8; 32]; // tag 0 plus only 31 payload bytes
    assert_eq!(
        RNDRInstruction::unpack(&buf).unwrap_err(),
        EscrowError::TruncatedInstruction
    );
    let buf = vec![1u8; 16];
    assert_eq!(
        RNDRInstruction::unpack(&buf).unwrap_err(),
        EscrowError::TruncatedInstruction
    );
}

#[test]
fn unpack_rejects_short_amount_payload() {
    assert_eq!(
        RNDRInstruction::unpack(&[2, 1, 2, 3]).unwrap_err(),
        EscrowError::TruncatedInstruction
    );
    assert_eq!(
        RNDRInstruction::unpack(&[3, 1, 2, 3, 4, 5, 6, 7]).unwrap_err(),
        EscrowError::TruncatedInstruction
    );
}

#[test]
fn unpack_rejects_unknown_tag() {
    for tag in [4u8, 5, 100, 255] {
        let mut buf = vec![tag];
        buf.extend_from_slice(&[0u8; 32]);
        assert_eq!(
            RNDRInstruction::unpack(&buf).unwrap_err(),
            EscrowError::UnknownInstruction
        );
    }
}

#[test]
fn unpack_ignores_trailing_bytes() {
    let mut buf = RNDRInstruction::FundJob { amount: 7 }.pack();
    buf.extend_from_slice(&[0xAA, 0xBB]);
    assert_eq!(
        RNDRInstruction::unpack(&buf).unwrap(),
        RNDRInstruction::FundJob { amount: 7 }
    );
}

#[test]
fn account_id_needs_exactly_32_bytes() {
    assert!(AccountId::from_bytes(vec![0u8; 31]).is_none());
    assert!(AccountId::from_bytes(vec![0u8; 33]).is_none());
    assert!(AccountId::from_bytes(Vec::new()).is_none());
    let built = AccountId::from_bytes((0u8..32).collect()).unwrap();
    assert_eq!(built.as_bytes().as_slice(), &(0u8..32).collect::<Vec<u8>>()[..]);
}

#[test]
fn account_id_equality_is_by_bytes() {
    let a = id(3);
    let b = a.copy_id();
    assert!(a.eq_id(&b));
    assert_eq!(a, b);
    assert!(!a.eq_id(&id(4)));
}
