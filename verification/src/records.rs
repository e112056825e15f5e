//! Wire format of syscall events.
//!
//! The kernel probes and the userspace drainer share one fixed-layout record:
//! 32 bytes, 8-byte aligned, little-endian. The layout is, in order: a 64-bit
//! monotonic timestamp, the 32-bit thread-group id, the 32-bit task id, a
//! 32-bit state tag (0 for entry, 1 for exit), 32 bits of padding that must be
//! zero, and a 64-bit payload (the syscall number on entry, the return value
//! on exit).

use vstd::prelude::*;
use vstd::bytes::*;

verus! {

/// Userspace process id (kernel thread-group id), signed as in libc.
pub type PidT = i32;

/// Exact size in bytes of one encoded syscall record.
pub const RECORD_BYTES: usize = 32;

/// Required alignment of a record slice handed out by the ring buffer.
pub const RECORD_ALIGN: usize = 8;

/// Wire tag of a syscall-entry record.
pub const TAG_AT_ENTER: u32 = 0;

/// Wire tag of a syscall-exit record.
pub const TAG_AT_EXIT: u32 = 1;

/// Byte capacity of the kernel syscall ring buffer.
pub const MAX_SYSCALL_EVENTS: u32 = 1u32 << 20;

/// Whether a syscall record marks the entry into a syscall (carrying the
/// syscall number) or the exit from one (carrying the return value).
#[derive(Copy, Clone, PartialEq, Eq, Structural, Debug)]
pub enum SyscallState {
    AtEnter { syscall_id: i64 },
    AtExit { syscall_ret: i64 },
}

/// One syscall event as produced by the kernel probes.
#[derive(Copy, Clone, PartialEq, Eq, Structural, Debug)]
pub struct SyscallData {
    /// Monotonic kernel time at probe fire, in nanoseconds.
    pub timestamp: u64,
    /// Thread-group id: the process id in userspace terms.
    pub tgid: PidT,
    /// Task id: the thread id in userspace terms.
    pub pid: PidT,
    /// Entry or exit, with the tag-dependent payload.
    pub state: SyscallState,
}

/// The wire tag of a state value.
pub open spec fn state_tag(s: SyscallState) -> u32 {
    match s {
        SyscallState::AtEnter { .. } => TAG_AT_ENTER,
        SyscallState::AtExit { .. } => TAG_AT_EXIT,
    }
}

/// The tag-dependent payload of a state value.
pub open spec fn state_payload(s: SyscallState) -> i64 {
    match s {
        SyscallState::AtEnter { syscall_id } => syscall_id,
        SyscallState::AtExit { syscall_ret } => syscall_ret,
    }
}

/// Bytes 16..32 of the wire form: tag, zero padding, payload.
pub open spec fn spec_encode_state(s: SyscallState) -> Seq<u8> {
    spec_u32_to_le_bytes(state_tag(s)) + spec_u32_to_le_bytes(0u32) + spec_u64_to_le_bytes(
        state_payload(s) as u64,
    )
}

/// The full 32-byte wire form of a record.
pub open spec fn spec_encode_record(r: SyscallData) -> Seq<u8> {
    spec_u64_to_le_bytes(r.timestamp) + spec_u32_to_le_bytes(r.tgid as u32) + spec_u32_to_le_bytes(
        r.pid as u32,
    ) + spec_encode_state(r.state)
}

/// Timestamp field of a 32-byte wire record.
pub open spec fn wire_timestamp(b: Seq<u8>) -> u64 {
    spec_u64_from_le_bytes(b.subrange(0, 8))
}

/// Thread-group id field (raw bits) of a 32-byte wire record.
pub open spec fn wire_tgid(b: Seq<u8>) -> u32 {
    spec_u32_from_le_bytes(b.subrange(8, 12))
}

/// Task id field (raw bits) of a 32-byte wire record.
pub open spec fn wire_pid(b: Seq<u8>) -> u32 {
    spec_u32_from_le_bytes(b.subrange(12, 16))
}

/// State tag field of a 32-byte wire record.
pub open spec fn wire_tag(b: Seq<u8>) -> u32 {
    spec_u32_from_le_bytes(b.subrange(16, 20))
}

/// Padding field of a 32-byte wire record; zero in every valid record.
pub open spec fn wire_pad(b: Seq<u8>) -> u32 {
    spec_u32_from_le_bytes(b.subrange(20, 24))
}

/// Payload field (raw bits) of a 32-byte wire record.
pub open spec fn wire_payload(b: Seq<u8>) -> u64 {
    spec_u64_from_le_bytes(b.subrange(24, 32))
}

/// Abstract decoding of a 32-byte buffer: `Some` exactly when the tag is a
/// known variant and the padding is zero.
pub open spec fn spec_decode_record(b: Seq<u8>) -> Option<SyscallData>
    recommends
        b.len() == RECORD_BYTES,
{
    if wire_pad(b) != 0 {
        None
    } else if wire_tag(b) == TAG_AT_ENTER {
        Some(
            SyscallData {
                timestamp: wire_timestamp(b),
                tgid: wire_tgid(b) as i32,
                pid: wire_pid(b) as i32,
                state: SyscallState::AtEnter { syscall_id: wire_payload(b) as i64 },
            },
        )
    } else if wire_tag(b) == TAG_AT_EXIT {
        Some(
            SyscallData {
                timestamp: wire_timestamp(b),
                tgid: wire_tgid(b) as i32,
                pid: wire_pid(b) as i32,
                state: SyscallState::AtExit { syscall_ret: wire_payload(b) as i64 },
            },
        )
    } else {
        None
    }
}

/// Why the drainer rejected a raw ring-buffer item.
#[derive(Copy, Clone, PartialEq, Eq, Structural, Debug)]
pub enum DecodeError {
    /// The slice was not exactly 32 bytes long.
    WrongLength,
    /// The slice was not 8-byte aligned.
    Misaligned,
    /// The state tag was neither the entry nor the exit tag.
    InvalidTag,
    /// The padding word was not zero.
    NonZeroPadding,
}

/// Decode one raw ring-buffer item. `aligned` reports whether the slice sat
/// on an 8-byte boundary; the caller observes that at the buffer edge.
pub fn decode_record(bytes: &[u8], aligned: bool) -> (r: Result<SyscallData, DecodeError>)
    ensures
        bytes@.len() != RECORD_BYTES ==> r == Err::<SyscallData, DecodeError>(
            DecodeError::WrongLength,
        ),
        bytes@.len() == RECORD_BYTES && !aligned ==> r == Err::<SyscallData, DecodeError>(
            DecodeError::Misaligned,
        ),
        bytes@.len() == RECORD_BYTES && aligned && wire_tag(bytes@) != TAG_AT_ENTER && wire_tag(
            bytes@,
        ) != TAG_AT_EXIT ==> r == Err::<SyscallData, DecodeError>(DecodeError::InvalidTag),
        bytes@.len() == RECORD_BYTES && aligned && (wire_tag(bytes@) == TAG_AT_ENTER || wire_tag(
            bytes@,
        ) == TAG_AT_EXIT) && wire_pad(bytes@) != 0 ==> r == Err::<SyscallData, DecodeError>(
            DecodeError::NonZeroPadding,
        ),
        r is Ok <==> (bytes@.len() == RECORD_BYTES && aligned && spec_decode_record(bytes@) is Some),
        r is Ok ==> Some(r.unwrap()) == spec_decode_record(bytes@),
{
    if bytes.len() != RECORD_BYTES {
        return Err(DecodeError::WrongLength);
    }
    if !aligned {
        return Err(DecodeError::Misaligned);
    }
    let tag = u32_from_le_bytes(vstd::slice::slice_subrange(bytes, 16, 20));
    if tag != TAG_AT_ENTER && tag != TAG_AT_EXIT {
        return Err(DecodeError::InvalidTag);
    }
    let pad = u32_from_le_bytes(vstd::slice::slice_subrange(bytes, 20, 24));
    if pad != 0 {
        return Err(DecodeError::NonZeroPadding);
    }
    let timestamp = u64_from_le_bytes(vstd::slice::slice_subrange(bytes, 0, 8));
    let tgid_bits = u32_from_le_bytes(vstd::slice::slice_subrange(bytes, 8, 12));
    let pid_bits = u32_from_le_bytes(vstd::slice::slice_subrange(bytes, 12, 16));
    let payload_bits = u64_from_le_bytes(vstd::slice::slice_subrange(bytes, 24, 32));
    let state = if tag == TAG_AT_ENTER {
        SyscallState::AtEnter { syscall_id: #[verifier::truncate] (payload_bits as i64) }
    } else {
        SyscallState::AtExit { syscall_ret: #[verifier::truncate] (payload_bits as i64) }
    };
    Ok(
        SyscallData {
            timestamp,
            tgid: #[verifier::truncate] (tgid_bits as i32),
            pid: #[verifier::truncate] (pid_bits as i32),
            state,
        },
    )
}

/// Encode a record into its 32-byte wire form.
pub fn encode_record(r: &SyscallData) -> (out: Vec<u8>)
    ensures
        out@ == spec_encode_record(*r),
        out@.len() == RECORD_BYTES,
{
    proof {
        lemma_auto_spec_u64_to_from_le_bytes();
        lemma_auto_spec_u32_to_from_le_bytes();
    }
    let (tag, payload) = match r.state {
        SyscallState::AtEnter { syscall_id } => (TAG_AT_ENTER, syscall_id),
        SyscallState::AtExit { syscall_ret } => (TAG_AT_EXIT, syscall_ret),
    };
    let mut out = u64_to_le_bytes(r.timestamp);
    let mut tgid_bytes = u32_to_le_bytes(#[verifier::truncate] (r.tgid as u32));
    out.append(&mut tgid_bytes);
    let mut pid_bytes = u32_to_le_bytes(#[verifier::truncate] (r.pid as u32));
    out.append(&mut pid_bytes);
    let mut tag_bytes = u32_to_le_bytes(tag);
    out.append(&mut tag_bytes);
    let mut pad_bytes = u32_to_le_bytes(0u32);
    out.append(&mut pad_bytes);
    let mut payload_bytes = u64_to_le_bytes(#[verifier::truncate] (payload as u64));
    out.append(&mut payload_bytes);
    assert(out@ =~= spec_encode_record(*r));
    out
}

/// Casting a signed 64-bit value to its raw bits and back is the identity.
proof fn lemma_i64_bits_roundtrip(x: i64)
    ensures
        ((x as u64) as i64) == x,
{
    assert(((x as u64) as i64) == x) by (bit_vector);
}

/// Casting a signed 32-bit value to its raw bits and back is the identity.
proof fn lemma_i32_bits_roundtrip(x: i32)
    ensures
        ((x as u32) as i32) == x,
{
    assert(((x as u32) as i32) == x) by (bit_vector);
}

/// A record written bit-for-bit into a byte buffer and decoded again comes
/// back unchanged: same timestamp, ids, tag and payload.
pub proof fn lemma_record_roundtrip(r: SyscallData)
    ensures
        spec_encode_record(r).len() == RECORD_BYTES,
        spec_decode_record(spec_encode_record(r)) == Some(r),
{
    lemma_auto_spec_u64_to_from_le_bytes();
    lemma_auto_spec_u32_to_from_le_bytes();
    let b = spec_encode_record(r);
    assert(b.subrange(0, 8) =~= spec_u64_to_le_bytes(r.timestamp));
    assert(b.subrange(8, 12) =~= spec_u32_to_le_bytes(r.tgid as u32));
    assert(b.subrange(12, 16) =~= spec_u32_to_le_bytes(r.pid as u32));
    assert(b.subrange(16, 20) =~= spec_u32_to_le_bytes(state_tag(r.state)));
    assert(b.subrange(20, 24) =~= spec_u32_to_le_bytes(0u32));
    assert(b.subrange(24, 32) =~= spec_u64_to_le_bytes(state_payload(r.state) as u64));
    lemma_i32_bits_roundtrip(r.tgid);
    lemma_i32_bits_roundtrip(r.pid);
    lemma_i64_bits_roundtrip(state_payload(r.state));
}

/// A buffer the abstract decoder accepts carries a tag that is either the
/// entry tag or the exit tag, and the decoded record preserves it; together
/// with the decoder's contract this pins down every record a subscriber can
/// observe: it came from a 32-byte, 8-aligned slice with a valid tag.
pub proof fn lemma_decoded_record_valid(b: Seq<u8>)
    requires
        b.len() == RECORD_BYTES,
        spec_decode_record(b) is Some,
    ensures
        wire_tag(b) == TAG_AT_ENTER || wire_tag(b) == TAG_AT_EXIT,
        wire_pad(b) == 0,
        state_tag(spec_decode_record(b).unwrap().state) == wire_tag(b),
{
}

} // verus!
