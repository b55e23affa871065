use ln_usdt_escrow::error::{EscrowError, Failure};
use ln_usdt_escrow::instruction::{parse_ix, EscrowIx};
use ln_usdt_escrow::state::{EscrowState, Status, RECORD_LEN};
use ln_usdt_escrow::wire::{
    i64_from_le, i64_to_le, read_bytes, read_i64_le, read_u64_le, u64_from_le, u64_to_le,
};

fn init_bytes(hash: [u8; 32], recipient: [u8; 32], refund: [u8; 32], after: i64, amount: u64) -> Vec<u8> {
    let mut v = vec![0u8];
    v.extend_from_slice(&hash);
    v.extend_from_slice(&recipient);
    v.extend_from_slice(&refund);
    v.extend_from_slice(&after.to_le_bytes());
    v.extend_from_slice(&amount.to_le_bytes());
    v
}

fn sample_record() -> EscrowState {
    EscrowState {
        v: 1,
        status: Status::Active,
        payment_hash: [0x11; 32],
        recipient: [0x22; 32],
        refund: [0x33; 32],
        refund_after: -5,
        mint: [0x44; 32],
        amount: 0x0102_0304_0506_0708,
        vault: [0x55; 32],
        bump: 254,
    }
}

#[test]
fn read_bytes_takes_prefix_and_advances() {
    let data = [1u8, 2, 3, 4, 5];
    let mut rest: &[u8] = &data[1..];
    let got = read_bytes::<3>(&mut rest);
    assert_eq!(got, Ok([2u8, 3, 4]));
    assert_eq!(rest, &[5u8]);
    let last = read_bytes::<1>(&mut rest);
    assert_eq!(last, Ok([5u8]));
    assert!(rest.is_empty());
    let none = read_bytes::<0>(&mut rest);
    assert_eq!(none, Ok([]));
    assert!(rest.is_empty());
}

#[test]
fn read_bytes_short_input_fails_and_keeps_input() {
    let data = [1u8, 2, 3];
    let mut rest: &[u8] = &data[1..];
    assert_eq!(read_bytes::<3>(&mut rest), Err(EscrowError::InvalidInstruction));
    assert_eq!(rest, &[2u8, 3]);
    let mut empty: &[u8] = &[];
    assert_eq!(read_bytes::<1>(&mut empty), Err(EscrowError::InvalidInstruction));
    assert!(empty.is_empty());
}

#[test]
fn read_u64_le_exact_value() {
    let data = [0x08u8, 0x07, 0x06, 0x05, 0x04, 0x03, 0x02, 0x01, 0xee];
    let mut rest: &[u8] = &data;
    assert_eq!(read_u64_le(&mut rest), Ok(0x0102_0304_0506_0708));
    assert_eq!(rest, &[0xeeu8]);
    assert_eq!(read_u64_le(&mut rest), Err(EscrowError::InvalidInstruction));
    assert_eq!(rest, &[0xeeu8]);
}

#[test]
fn read_i64_le_negative_and_positive() {
    let minus_two = (-2i64).to_le_bytes();
    let mut rest: &[u8] = &minus_two;
    assert_eq!(read_i64_le(&mut rest), Ok(-2));
    assert!(rest.is_empty());
    let big = i64::MAX.to_le_bytes();
    let mut rest: &[u8] = &big;
    assert_eq!(read_i64_le(&mut rest), Ok(i64::MAX));
    let low = i64::MIN.to_le_bytes();
    let mut rest: &[u8] = &low;
    assert_eq!(read_i64_le(&mut rest), Ok(i64::MIN));
    let mut short: &[u8] = &low[1..];
    assert_eq!(read_i64_le(&mut short), Err(EscrowError::InvalidInstruction));
    assert_eq!(short.len(), 7);
}

#[test]
fn little_endian_conversions_agree_with_std() {
    for x in [0u64, 1, 255, 256, 0xdead_beef, u64::MAX, 0x8000_0000_0000_0000, 0x0102_0304_0506_0708] {
        assert_eq!(u64_to_le(x), x.to_le_bytes());
        assert_eq!(u64_from_le(&x.to_le_bytes()), x);
    }
    for x in [0i64, 1, -1, i64::MIN, i64::MAX, -1_700_000_000, 1_700_000_000] {
        assert_eq!(i64_to_le(x), x.to_le_bytes());
        assert_eq!(i64_from_le(&x.to_le_bytes()), x);
    }
}

#[test]
fn parse_init_reads_fields_in_order() {
    let bytes = init_bytes([9; 32], [8; 32], [7; 32], 1_700_000_000, 100);
    assert_eq!(bytes.len(), 113);
    assert_eq!(
        parse_ix(&bytes),
        Ok(EscrowIx::Init {
            payment_hash: [9; 32],
            recipient: [8; 32],
            refund: [7; 32],
            refund_after: 1_700_000_000,
            amount: 100,
        })
    );
}

#[test]
fn parse_init_negative_deadline() {
    let bytes = init_bytes([1; 32], [2; 32], [3; 32], -1, u64::MAX);
    assert_eq!(
        parse_ix(&bytes),
        Ok(EscrowIx::Init {
            payment_hash: [1; 32],
            recipient: [2; 32],
            refund: [3; 32],
            refund_after: -1,
            amount: u64::MAX,
        })
    );
}

#[test]
fn parse_claim_and_refund() {
    let mut claim = vec![1u8];
    claim.extend_from_slice(&[0xab; 32]);
    assert_eq!(parse_ix(&claim), Ok(EscrowIx::Claim { preimage: [0xab; 32] }));
    assert_eq!(parse_ix(&[2u8]), Ok(EscrowIx::Refund));
}

#[test]
fn parse_rejects_empty_unknown_and_short() {
    assert_eq!(parse_ix(&[]), Err(EscrowError::InvalidInstruction));
    assert_eq!(parse_ix(&[3u8]), Err(EscrowError::InvalidInstruction));
    assert_eq!(parse_ix(&[255u8, 0, 0]), Err(EscrowError::InvalidInstruction));
    assert_eq!(parse_ix(&[0u8]), Err(EscrowError::InvalidInstruction));
    assert_eq!(parse_ix(&[1u8]), Err(EscrowError::InvalidInstruction));
    let init = init_bytes([9; 32], [8; 32], [7; 32], 5, 6);
    assert_eq!(parse_ix(&init[..112]), Err(EscrowError::InvalidInstruction));
    let mut claim = vec![1u8];
    claim.extend_from_slice(&[0xab; 31]);
    assert_eq!(parse_ix(&claim), Err(EscrowError::InvalidInstruction));
}

#[test]
fn parse_ignores_trailing_bytes() {
    let mut init = init_bytes([9; 32], [8; 32], [7; 32], 5, 6);
    let plain = parse_ix(&init);
    init.extend_from_slice(&[1, 2, 3]);
    assert_eq!(parse_ix(&init), plain);
    let mut claim = vec![1u8];
    claim.extend_from_slice(&[0xab; 32]);
    claim.push(77);
    assert_eq!(parse_ix(&claim), Ok(EscrowIx::Claim { preimage: [0xab; 32] }));
    assert_eq!(parse_ix(&[2u8, 9, 9]), Ok(EscrowIx::Refund));
}

#[test]
fn record_layout_is_fixed_width_in_declared_order() {
    let r = sample_record();
    let bytes = r.encode();
    assert_eq!(bytes.len(), RECORD_LEN);
    assert_eq!(bytes.len(), 179);
    assert_eq!(bytes[0], 1);
    assert_eq!(bytes[1], 0);
    assert_eq!(&bytes[2..34], &[0x11; 32]);
    assert_eq!(&bytes[34..66], &[0x22; 32]);
    assert_eq!(&bytes[66..98], &[0x33; 32]);
    assert_eq!(&bytes[98..106], &(-5i64).to_le_bytes());
    assert_eq!(&bytes[106..138], &[0x44; 32]);
    assert_eq!(&bytes[138..146], &[8u8, 7, 6, 5, 4, 3, 2, 1]);
    assert_eq!(&bytes[146..178], &[0x55; 32]);
    assert_eq!(bytes[178], 254);
}

#[test]
fn record_layout_matches_borsh() {
    let r = sample_record();
    let expected = borsh::to_vec(&(
        r.v,
        1u8,
        r.payment_hash,
        r.recipient,
        r.refund,
        r.refund_after,
        r.mint,
        r.amount,
        r.vault,
        r.bump,
    ))
    .unwrap();
    let claimed = EscrowState { status: Status::Claimed, ..r };
    assert_eq!(claimed.encode(), expected);
}

#[test]
fn record_round_trips() {
    for status in [Status::Active, Status::Claimed, Status::Refunded] {
        let r = EscrowState { status, ..sample_record() };
        assert_eq!(EscrowState::decode(&r.encode()), Some(r));
    }
}

#[test]
fn record_decode_rejects_wrong_length_and_unknown_status() {
    let mut bytes = sample_record().encode();
    assert_eq!(EscrowState::decode(&bytes[..178]), None);
    assert_eq!(EscrowState::decode(&[]), None);
    bytes.push(0);
    assert_eq!(EscrowState::decode(&bytes), None);
    bytes.pop();
    bytes[1] = 3;
    assert_eq!(EscrowState::decode(&bytes), None);
    bytes[1] = 2;
    assert_eq!(
        EscrowState::decode(&bytes),
        Some(EscrowState { status: Status::Refunded, ..sample_record() })
    );
}

#[test]
fn record_store_writes_in_place() {
    let r = sample_record();
    let mut data = vec![0xeeu8; 200];
    assert_eq!(r.store(&mut data), Ok(()));
    assert_eq!(data.len(), 200);
    assert_eq!(&data[..179], &r.encode()[..]);
    assert_eq!(&data[179..], &[0xee; 21]);
    let mut short = vec![9u8; 178];
    assert_eq!(r.store(&mut short), Err(Failure::InvalidAccountData));
    assert_eq!(short, vec![9u8; 178]);
}

#[test]
fn status_bytes() {
    assert_eq!(Status::Active.to_byte(), 0);
    assert_eq!(Status::Claimed.to_byte(), 1);
    assert_eq!(Status::Refunded.to_byte(), 2);
    assert_eq!(Status::from_byte(0), Some(Status::Active));
    assert_eq!(Status::from_byte(1), Some(Status::Claimed));
    assert_eq!(Status::from_byte(2), Some(Status::Refunded));
    assert_eq!(Status::from_byte(3), None);
}

#[test]
fn error_codes_are_stable() {
    assert_eq!(EscrowError::InvalidInstruction.code(), 1);
    assert_eq!(EscrowError::InvalidEscrowAddress.code(), 2);
    assert_eq!(EscrowError::InvalidVaultAccount.code(), 3);
    assert_eq!(EscrowError::InvalidTokenAccount.code(), 4);
    assert_eq!(EscrowError::InvalidSigner.code(), 5);
    assert_eq!(EscrowError::InvalidPreimage.code(), 6);
    assert_eq!(EscrowError::NotActive.code(), 7);
    assert_eq!(EscrowError::TooEarly.code(), 8);
    for c in 1u32..=8 {
        assert_eq!(EscrowError::from_code(c).map(|e| e.code()), Some(c));
    }
    assert_eq!(EscrowError::from_code(0), None);
    assert_eq!(EscrowError::from_code(9), None);
}
