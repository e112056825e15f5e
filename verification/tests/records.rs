//! The wire codec: round trips, layout, and each rejection.

use sikte::records::{
    DecodeError, RECORD_BYTES, SyscallData, SyscallState, decode_record, encode_record,
};

fn sample_enter() -> SyscallData {
    SyscallData {
        timestamp: 123_456_789,
        tgid: 4242,
        pid: 4243,
        state: SyscallState::AtEnter { syscall_id: 0 },
    }
}

#[test]
fn roundtrip_at_enter_preserves_all_fields() {
    let rec = SyscallData {
        timestamp: 987_654_321,
        tgid: 17,
        pid: 18,
        state: SyscallState::AtEnter { syscall_id: 59 },
    };
    let bytes = encode_record(&rec);
    assert_eq!(bytes.len(), RECORD_BYTES);
    let back = decode_record(&bytes, true).expect("valid record must decode");
    assert_eq!(back, rec);
}

#[test]
fn roundtrip_at_exit_with_negative_return() {
    let rec = SyscallData {
        timestamp: u64::MAX,
        tgid: -1,
        pid: i32::MIN,
        state: SyscallState::AtExit { syscall_ret: -38 },
    };
    let bytes = encode_record(&rec);
    let back = decode_record(&bytes, true).expect("valid record must decode");
    assert_eq!(back, rec);
}

#[test]
fn encoding_is_little_endian_with_declared_layout() {
    let rec = SyscallData {
        timestamp: 0x0102_0304_0506_0708,
        tgid: 0x11223344,
        pid: 0x55667701,
        state: SyscallState::AtExit { syscall_ret: 0x0A0B_0C0D_0E0F_1011 },
    };
    let bytes = encode_record(&rec);
    // timestamp, little-endian
    assert_eq!(&bytes[0..8], &[0x08, 0x07, 0x06, 0x05, 0x04, 0x03, 0x02, 0x01]);
    // tgid, pid
    assert_eq!(&bytes[8..12], &[0x44, 0x33, 0x22, 0x11]);
    assert_eq!(&bytes[12..16], &[0x01, 0x77, 0x66, 0x55]);
    // tag = 1 (exit), padding zero
    assert_eq!(&bytes[16..20], &[1, 0, 0, 0]);
    assert_eq!(&bytes[20..24], &[0, 0, 0, 0]);
    // payload
    assert_eq!(&bytes[24..32], &[0x11, 0x10, 0x0F, 0x0E, 0x0D, 0x0C, 0x0B, 0x0A]);
}

#[test]
fn wrong_length_is_rejected() {
    let bytes = vec![0u8; 31];
    assert_eq!(decode_record(&bytes, true), Err(DecodeError::WrongLength));
    let bytes = vec![0u8; 33];
    assert_eq!(decode_record(&bytes, true), Err(DecodeError::WrongLength));
}

#[test]
fn misaligned_slice_is_rejected() {
    let bytes = encode_record(&sample_enter());
    assert_eq!(decode_record(&bytes, false), Err(DecodeError::Misaligned));
}

#[test]
fn invalid_tag_is_rejected() {
    let mut bytes = encode_record(&sample_enter());
    bytes[16] = 2;
    assert_eq!(decode_record(&bytes, true), Err(DecodeError::InvalidTag));
    bytes[16] = 0xFF;
    bytes[17] = 0xFF;
    assert_eq!(decode_record(&bytes, true), Err(DecodeError::InvalidTag));
}

#[test]
fn nonzero_padding_is_rejected() {
    let mut bytes = encode_record(&sample_enter());
    bytes[21] = 1;
    assert_eq!(decode_record(&bytes, true), Err(DecodeError::NonZeroPadding));
}

#[test]
fn valid_tags_are_zero_and_one_only() {
    for tag in 0u8..=4 {
        let mut bytes = encode_record(&sample_enter());
        bytes[16] = tag;
        let ok = decode_record(&bytes, true).is_ok();
        assert_eq!(ok, tag == 0 || tag == 1);
    }
}
