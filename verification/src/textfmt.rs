//! Rendering of the correlator's output lines, byte-exact.
//!
//! A matched pair prints as `(pid/tid) NAME (took U.UU us)`: the duration in
//! microseconds with two decimals. An orphan exit — one whose entry was
//! never seen — prints as `(pid/tid) ??? (took ??? us)`. On teardown the
//! running total prints the same way. The syscall name comes from the
//! caller, which resolves it in the external number-to-name table.
//!
//! Lines are built as ASCII bytes; every function is proved to produce
//! exactly the sequence its spec describes.

use vstd::prelude::*;

verus! {

/// Decimal digits of `n`, most significant first; a single `0` for zero.
pub open spec fn spec_digits(n: nat) -> Seq<u8>
    decreases n,
{
    if n < 10 {
        seq![(48 + n) as u8]
    } else {
        spec_digits(n / 10).push((48 + n % 10) as u8)
    }
}

/// Decimal rendering of a signed value: a leading minus for negatives.
pub open spec fn spec_signed_dec(n: int) -> Seq<u8> {
    if n < 0 {
        seq![45u8] + spec_digits((-n) as nat)
    } else {
        spec_digits(n as nat)
    }
}

/// A nanosecond quantity as microseconds with two decimals: the integer
/// part, a dot, then hundredths of a microsecond zero-padded to two digits.
pub open spec fn spec_micros_two_decimals(ns: nat) -> Seq<u8> {
    spec_digits(ns / 1000) + seq![
        46u8,
        (48 + (ns % 1000) / 100) as u8,
        (48 + ((ns % 1000) / 10) % 10) as u8,
    ]
}

/// The `(pid/tid) ` prefix of every correlator line.
pub open spec fn spec_pid_tid_prefix(pid: int, tid: int) -> Seq<u8> {
    seq![40u8] + spec_signed_dec(pid) + seq![47u8] + spec_signed_dec(tid) + seq![41u8, 32u8]
}

/// The ` (took ` chunk.
pub open spec fn bytes_took_open() -> Seq<u8> {
    seq![32u8, 40u8, 116u8, 111u8, 111u8, 107u8, 32u8]
}

/// The ` us)` chunk.
pub open spec fn bytes_us_close() -> Seq<u8> {
    seq![32u8, 117u8, 115u8, 41u8]
}

/// The `???` placeholder for an unknown name or duration.
pub open spec fn bytes_unknown() -> Seq<u8> {
    seq![63u8, 63u8, 63u8]
}

/// The line for a matched enter/exit pair.
pub open spec fn spec_exit_line(pid: int, tid: int, name: Seq<u8>, elapsed_ns: nat) -> Seq<u8> {
    spec_pid_tid_prefix(pid, tid) + name + bytes_took_open() + spec_micros_two_decimals(elapsed_ns)
        + bytes_us_close()
}

/// The line for an orphan exit: unknown name, unknown duration.
pub open spec fn spec_orphan_line(pid: int, tid: int) -> Seq<u8> {
    spec_pid_tid_prefix(pid, tid) + bytes_unknown() + bytes_took_open() + bytes_unknown()
        + bytes_us_close()
}

/// The teardown line: `Total U.UU us` of accumulated syscall time.
pub open spec fn spec_total_line(total_ns: nat) -> Seq<u8> {
    seq![84u8, 111u8, 116u8, 97u8, 108u8, 32u8] + spec_micros_two_decimals(total_ns) + seq![
        32u8,
        117u8,
        115u8,
    ]
}

/// Decimal digits of a 64-bit value.
pub fn u64_to_dec(n: u64) -> (r: Vec<u8>)
    ensures
        r@ == spec_digits(n as nat),
    decreases n,
{
    if n < 10 {
        let mut v: Vec<u8> = Vec::new();
        v.push(48 + n as u8);
        proof {
            assert(v@ =~= spec_digits(n as nat));
        }
        v
    } else {
        let mut v = u64_to_dec(n / 10);
        v.push(48 + (n % 10) as u8);
        v
    }
}

/// Decimal digits of a 128-bit value (the running total can exceed 64
/// bits' worth of nanoseconds only in theory, but the type allows it).
pub fn u128_to_dec(n: u128) -> (r: Vec<u8>)
    ensures
        r@ == spec_digits(n as nat),
    decreases n,
{
    if n < 10 {
        let mut v: Vec<u8> = Vec::new();
        v.push(48 + n as u8);
        proof {
            assert(v@ =~= spec_digits(n as nat));
        }
        v
    } else {
        let mut v = u128_to_dec(n / 10);
        v.push(48 + (n % 10) as u8);
        v
    }
}

/// Decimal rendering of a 32-bit signed id.
pub fn i32_to_dec(n: i32) -> (r: Vec<u8>)
    ensures
        r@ == spec_signed_dec(n as int),
{
    if n < 0 {
        let mut v: Vec<u8> = Vec::new();
        v.push(45u8);
        let m: i64 = -(n as i64);
        let mut digits = u64_to_dec(m as u64);
        v.append(&mut digits);
        proof {
            assert(v@ =~= spec_signed_dec(n as int));
        }
        v
    } else {
        u64_to_dec(n as u64)
    }
}

/// Append every byte of `src` to `out`.
fn push_bytes(out: &mut Vec<u8>, src: &Vec<u8>)
    ensures
        final(out)@ == old(out)@ + src@,
{
    let n = src.len();
    let mut k: usize = 0;
    proof {
        assert(out@ =~= old(out)@ + src@.subrange(0, 0));
    }
    while k < n
        invariant
            n == src@.len(),
            0 <= k <= n,
            out@ == old(out)@ + src@.subrange(0, k as int),
        decreases n - k,
    {
        out.push(src[k]);
        proof {
            assert(out@ =~= old(out)@ + src@.subrange(0, k as int + 1));
        }
        k += 1;
    }
    proof {
        assert(src@.subrange(0, n as int) =~= src@);
    }
}

/// Microseconds with two decimals out of a nanosecond count.
fn push_micros_two_decimals_u128(out: &mut Vec<u8>, ns: u128)
    ensures
        final(out)@ == old(out)@ + spec_micros_two_decimals(ns as nat),
{
    let mut int_part = u128_to_dec(ns / 1000);
    out.append(&mut int_part);
    out.push(46u8);
    let frac = (ns % 1000) as u64;
    out.push(48 + (frac / 100) as u8);
    out.push(48 + ((frac / 10) % 10) as u8);
    proof {
        assert(out@ =~= old(out)@ + spec_micros_two_decimals(ns as nat));
    }
}

/// Push the `(pid/tid) ` prefix.
fn push_pid_tid_prefix(out: &mut Vec<u8>, pid: i32, tid: i32)
    ensures
        final(out)@ == old(out)@ + spec_pid_tid_prefix(pid as int, tid as int),
{
    out.push(40u8);
    let mut p = i32_to_dec(pid);
    out.append(&mut p);
    out.push(47u8);
    let mut t = i32_to_dec(tid);
    out.append(&mut t);
    out.push(41u8);
    out.push(32u8);
    proof {
        assert(out@ =~= old(out)@ + spec_pid_tid_prefix(pid as int, tid as int));
    }
}

/// Push ` (took `.
fn push_took_open(out: &mut Vec<u8>)
    ensures
        final(out)@ == old(out)@ + bytes_took_open(),
{
    out.push(32u8);
    out.push(40u8);
    out.push(116u8);
    out.push(111u8);
    out.push(111u8);
    out.push(107u8);
    out.push(32u8);
    proof {
        assert(out@ =~= old(out)@ + bytes_took_open());
    }
}

/// Push ` us)`.
fn push_us_close(out: &mut Vec<u8>)
    ensures
        final(out)@ == old(out)@ + bytes_us_close(),
{
    out.push(32u8);
    out.push(117u8);
    out.push(115u8);
    out.push(41u8);
    proof {
        assert(out@ =~= old(out)@ + bytes_us_close());
    }
}

/// Push `???`.
fn push_unknown(out: &mut Vec<u8>)
    ensures
        final(out)@ == old(out)@ + bytes_unknown(),
{
    out.push(63u8);
    out.push(63u8);
    out.push(63u8);
    proof {
        assert(out@ =~= old(out)@ + bytes_unknown());
    }
}

/// The printed line for a matched pair: `(pid/tid) NAME (took U.UU us)`.
/// The caller resolves `name` in the external syscall-name table.
pub fn format_exit_line(pid: i32, tid: i32, name: &Vec<u8>, elapsed_ns: u64) -> (r: Vec<u8>)
    ensures
        r@ == spec_exit_line(pid as int, tid as int, name@, elapsed_ns as nat),
{
    let mut out: Vec<u8> = Vec::new();
    push_pid_tid_prefix(&mut out, pid, tid);
    push_bytes(&mut out, name);
    push_took_open(&mut out);
    push_micros_two_decimals_u128(&mut out, elapsed_ns as u128);
    push_us_close(&mut out);
    proof {
        assert(out@ =~= spec_exit_line(pid as int, tid as int, name@, elapsed_ns as nat));
    }
    out
}

/// The printed line for an orphan exit: `(pid/tid) ??? (took ??? us)`.
pub fn format_orphan_line(pid: i32, tid: i32) -> (r: Vec<u8>)
    ensures
        r@ == spec_orphan_line(pid as int, tid as int),
{
    let mut out: Vec<u8> = Vec::new();
    push_pid_tid_prefix(&mut out, pid, tid);
    push_unknown(&mut out);
    push_took_open(&mut out);
    push_unknown(&mut out);
    push_us_close(&mut out);
    proof {
        assert(out@ =~= spec_orphan_line(pid as int, tid as int));
    }
    out
}

/// The teardown line with the accumulated total: `Total U.UU us`.
pub fn format_total_line(total_ns: u128) -> (r: Vec<u8>)
    ensures
        r@ == spec_total_line(total_ns as nat),
{
    let mut out: Vec<u8> = Vec::new();
    out.push(84u8);
    out.push(111u8);
    out.push(116u8);
    out.push(97u8);
    out.push(108u8);
    out.push(32u8);
    push_micros_two_decimals_u128(&mut out, total_ns);
    out.push(32u8);
    out.push(117u8);
    out.push(115u8);
    proof {
        assert(out@ =~= spec_total_line(total_ns as nat));
    }
    out
}

} // verus!
