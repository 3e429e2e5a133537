//! Little-endian integers as they sit in payloads and account records.
//!
//! Every read is a byte-by-byte reconstruction, so it is indifferent to how the
//! buffer is aligned.

use vstd::prelude::*;

verus! {

/// The number that `bytes` spell, least significant byte first.
pub open spec fn le_value(bytes: Seq<u8>) -> nat
    decreases bytes.len(),
{
    if bytes.len() == 0 {
        0
    } else {
        bytes[0] as nat + 256 * le_value(bytes.drop_first())
    }
}

/// The `width` bytes that spell `value`, least significant byte first.
pub open spec fn le_bytes(value: nat, width: nat) -> Seq<u8>
    decreases width,
{
    if width == 0 {
        Seq::<u8>::empty()
    } else {
        seq![(value % 256) as u8] + le_bytes(value / 256, (width - 1) as nat)
    }
}

/// The signed reading of a 64-bit pattern (two's complement).
pub open spec fn signed64(pattern: nat) -> int {
    if pattern < 0x8000_0000_0000_0000 {
        pattern as int
    } else {
        pattern as int - 0x1_0000_0000_0000_0000
    }
}

/// The 64-bit pattern of a signed value (two's complement).
pub open spec fn pattern64(value: int) -> nat {
    if value >= 0 {
        value as nat
    } else {
        (value + 0x1_0000_0000_0000_0000) as nat
    }
}

/// `le_bytes` yields exactly `width` bytes.
pub proof fn lemma_le_bytes_len(value: nat, width: nat)
    ensures
        le_bytes(value, width).len() == width,
    decreases width,
{
    if width > 0 {
        lemma_le_bytes_len(value / 256, (width - 1) as nat);
    }
}

/// Spelling the value of a byte string over the same width gives the string
/// back.
pub proof fn lemma_le_bytes_of_value(bytes: Seq<u8>)
    ensures
        le_bytes(le_value(bytes), bytes.len()) == bytes,
    decreases bytes.len(),
{
    if bytes.len() > 0 {
        let rest = bytes.drop_first();
        lemma_le_bytes_of_value(rest);
        let v = le_value(bytes);
        assert(v % 256 == bytes[0] as nat && v / 256 == le_value(rest)) by {
            assert(v == bytes[0] as nat + 256 * le_value(rest));
        }
        assert(le_bytes(v, bytes.len()) =~= bytes);
    } else {
        assert(le_bytes(le_value(bytes), bytes.len()) =~= bytes);
    }
}

/// Two bytes spell a number below 2^16.
pub proof fn lemma_le_value_2(bytes: Seq<u8>)
    requires
        bytes.len() == 2,
    ensures
        le_value(bytes) == bytes[0] as nat + 0x100 * bytes[1] as nat,
        le_value(bytes) <= u16::MAX,
{
    reveal_with_fuel(le_value, 3);
    let b1 = bytes.drop_first();
    assert(b1[0] == bytes[1]);
    assert(b1.drop_first().len() == 0);
}

/// Eight bytes spell a number below 2^64.
pub proof fn lemma_le_value_8(bytes: Seq<u8>)
    requires
        bytes.len() == 8,
    ensures
        le_value(bytes) == bytes[0] as nat + 0x100 * bytes[1] as nat + 0x1_0000 * bytes[2] as nat
            + 0x100_0000 * bytes[3] as nat + 0x1_0000_0000 * bytes[4] as nat + 0x100_0000_0000
            * bytes[5] as nat + 0x1_0000_0000_0000 * bytes[6] as nat + 0x100_0000_0000_0000
            * bytes[7] as nat,
        le_value(bytes) <= u64::MAX,
{
    let s1 = bytes.drop_first();
    let s2 = s1.drop_first();
    let s3 = s2.drop_first();
    let s4 = s3.drop_first();
    let s5 = s4.drop_first();
    let s6 = s5.drop_first();
    let s7 = s6.drop_first();
    let s8 = s7.drop_first();
    assert(s1[0] == bytes[1] && s2[0] == bytes[2] && s3[0] == bytes[3] && s4[0] == bytes[4]);
    assert(s5[0] == bytes[5] && s6[0] == bytes[6] && s7[0] == bytes[7] && s8.len() == 0);
    assert(le_value(s8) == 0);
    assert(le_value(s7) == bytes[7] as nat + 256 * le_value(s8));
    assert(le_value(s6) == bytes[6] as nat + 256 * le_value(s7));
    assert(le_value(s5) == bytes[5] as nat + 256 * le_value(s6));
    assert(le_value(s4) == bytes[4] as nat + 256 * le_value(s5));
    assert(le_value(s3) == bytes[3] as nat + 256 * le_value(s4));
    assert(le_value(s2) == bytes[2] as nat + 256 * le_value(s3));
    assert(le_value(s1) == bytes[1] as nat + 256 * le_value(s2));
    assert(le_value(bytes) == bytes[0] as nat + 256 * le_value(s1));
}

/// Reading back what was spelt gives the value, when it fits the width: here
/// for the two widths the formats use.
pub proof fn lemma_le_value_of_bytes_u16(value: u16)
    ensures
        le_value(le_bytes(value as nat, 2)) == value,
{
    reveal_with_fuel(le_bytes, 3);
    let s = le_bytes(value as nat, 2);
    lemma_le_bytes_len(value as nat, 2);
    lemma_le_value_2(s);
    let v: nat = value as nat;
    assert(s[0] == (v % 256) as u8);
    assert(s[1] == ((v / 256) % 256) as u8) by {
        assert(le_bytes(v / 256, 1)[0] == ((v / 256) % 256) as u8);
    }
}

pub proof fn lemma_le_value_of_bytes_u64(value: u64)
    ensures
        le_value(le_bytes(value as nat, 8)) == value,
{
    let v0: nat = value as nat;
    let v1: nat = v0 / 256;
    let v2: nat = v1 / 256;
    let v3: nat = v2 / 256;
    let v4: nat = v3 / 256;
    let v5: nat = v4 / 256;
    let v6: nat = v5 / 256;
    let v7: nat = v6 / 256;
    let v8: nat = v7 / 256;
    let s = le_bytes(v0, 8);
    lemma_le_bytes_len(v0, 8);
    lemma_le_value_8(s);
    assert(le_bytes(v8, 0).len() == 0);
    assert(le_bytes(v7, 1) =~= seq![(v7 % 256) as u8] + le_bytes(v8, 0));
    assert(le_bytes(v6, 2) =~= seq![(v6 % 256) as u8] + le_bytes(v7, 1));
    assert(le_bytes(v5, 3) =~= seq![(v5 % 256) as u8] + le_bytes(v6, 2));
    assert(le_bytes(v4, 4) =~= seq![(v4 % 256) as u8] + le_bytes(v5, 3));
    assert(le_bytes(v3, 5) =~= seq![(v3 % 256) as u8] + le_bytes(v4, 4));
    assert(le_bytes(v2, 6) =~= seq![(v2 % 256) as u8] + le_bytes(v3, 5));
    assert(le_bytes(v1, 7) =~= seq![(v1 % 256) as u8] + le_bytes(v2, 6));
    assert(le_bytes(v0, 8) =~= seq![(v0 % 256) as u8] + le_bytes(v1, 7));
    lemma_le_bytes_len(v1, 7);
    lemma_le_bytes_len(v2, 6);
    lemma_le_bytes_len(v3, 5);
    lemma_le_bytes_len(v4, 4);
    lemma_le_bytes_len(v5, 3);
    lemma_le_bytes_len(v6, 2);
    lemma_le_bytes_len(v7, 1);
    assert(s[0] == (v0 % 256) as u8);
    assert(s[1] == (v1 % 256) as u8);
    assert(s[2] == (v2 % 256) as u8);
    assert(s[3] == (v3 % 256) as u8);
    assert(s[4] == (v4 % 256) as u8);
    assert(s[5] == (v5 % 256) as u8);
    assert(s[6] == (v6 % 256) as u8);
    assert(s[7] == (v7 % 256) as u8);
    assert(v8 == 0);
}

/// The signed and the unsigned reading of 64 bits undo each other.
pub proof fn lemma_signed_pattern(value: i64, pattern: u64)
    ensures
        signed64(pattern64(value as int)) == value,
        pattern64(signed64(pattern as nat)) == pattern,
        pattern64(value as int) <= u64::MAX,
        i64::MIN <= signed64(pattern as nat) <= i64::MAX,
{
}

/// Reads the 16-bit number at `offset`.
pub fn read_u16_le(data: &[u8], offset: usize) -> (value: u16)
    requires
        offset + 2 <= data@.len(),
    ensures
        value == le_value(data@.subrange(offset as int, offset + 2)),
{
    proof {
        lemma_le_value_2(data@.subrange(offset as int, offset + 2));
    }
    let b0: u16 = data[offset] as u16;
    let b1: u16 = data[offset + 1] as u16;
    b0 + 0x100 * b1
}

/// Reads the 64-bit number at `offset`.
pub fn read_u64_le(data: &[u8], offset: usize) -> (value: u64)
    requires
        offset + 8 <= data@.len(),
    ensures
        value == le_value(data@.subrange(offset as int, offset + 8)),
{
    proof {
        lemma_le_value_8(data@.subrange(offset as int, offset + 8));
    }
    let b0: u64 = data[offset] as u64;
    let b1: u64 = data[offset + 1] as u64;
    let b2: u64 = data[offset + 2] as u64;
    let b3: u64 = data[offset + 3] as u64;
    let b4: u64 = data[offset + 4] as u64;
    let b5: u64 = data[offset + 5] as u64;
    let b6: u64 = data[offset + 6] as u64;
    let b7: u64 = data[offset + 7] as u64;
    b0 + 0x100 * b1 + 0x1_0000 * b2 + 0x100_0000 * b3 + 0x1_0000_0000 * b4 + 0x100_0000_0000 * b5
        + 0x1_0000_0000_0000 * b6 + 0x100_0000_0000_0000 * b7
}

/// Reads the signed 64-bit number at `offset`.
pub fn read_i64_le(data: &[u8], offset: usize) -> (value: i64)
    requires
        offset + 8 <= data@.len(),
    ensures
        value == signed64(le_value(data@.subrange(offset as int, offset + 8))),
{
    let pattern: u64 = read_u64_le(data, offset);
    if pattern < 0x8000_0000_0000_0000 {
        pattern as i64
    } else {
        let low: i64 = (pattern - 0x8000_0000_0000_0000) as i64;
        low + i64::MIN
    }
}

/// Reads the `N` bytes at `offset`.
pub fn read_array<const N: usize>(data: &[u8], offset: usize) -> (out: [u8; N])
    requires
        offset + N <= data@.len(),
    ensures
        out@ == data@.subrange(offset as int, offset + N),
{
    let total: usize = data.len();
    let mut out: [u8; N] = [0u8; N];
    let mut i: usize = 0;
    while i < N
        invariant
            i <= N,
            offset + N <= total,
            total == data@.len(),
            out@.len() == N,
            forall|j: int| 0 <= j < i ==> out@[j] == data@[offset + j],
        decreases N - i,
    {
        out[i] = data[offset + i];
        i += 1;
    }
    proof {
        assert(out@ =~= data@.subrange(offset as int, offset + N));
    }
    out
}

/// Appends `bytes` to `out`.
pub fn push_bytes(out: &mut Vec<u8>, bytes: &[u8])
    ensures
        final(out)@ == old(out)@ + bytes@,
{
    let mut i: usize = 0;
    while i < bytes.len()
        invariant
            i <= bytes@.len(),
            out@ == old(out)@ + bytes@.take(i as int),
        decreases bytes@.len() - i,
    {
        out.push(bytes[i]);
        i += 1;
        proof {
            assert(out@ =~= old(out)@ + bytes@.take(i as int));
        }
    }
    proof {
        assert(bytes@.take(bytes@.len() as int) =~= bytes@);
    }
}

/// Appends the two bytes of `value`.
pub fn push_u16_le(out: &mut Vec<u8>, value: u16)
    ensures
        final(out)@ == old(out)@ + le_bytes(value as nat, 2),
{
    let low: u8 = (value % 256) as u8;
    let high: u8 = (value / 256) as u8;
    out.push(low);
    out.push(high);
    proof {
        reveal_with_fuel(le_bytes, 3);
        assert(out@ =~= old(out)@ + le_bytes(value as nat, 2));
    }
}

/// Appends the eight bytes of `value`.
pub fn push_u64_le(out: &mut Vec<u8>, value: u64)
    ensures
        final(out)@ == old(out)@ + le_bytes(value as nat, 8),
{
    let mut rest: u64 = value;
    let mut i: usize = 0;
    while i < 8
        invariant
            i <= 8,
            out@ + le_bytes(rest as nat, (8 - i) as nat) == old(out)@ + le_bytes(value as nat, 8),
        decreases 8 - i,
    {
        let ghost before = out@;
        out.push((rest % 256) as u8);
        proof {
            assert(before + le_bytes(rest as nat, (8 - i) as nat) =~= out@ + le_bytes(
                (rest / 256) as nat,
                (8 - i - 1) as nat,
            ));
        }
        rest = rest / 256;
        i += 1;
    }
    proof {
        assert(out@ + le_bytes(rest as nat, 0) =~= out@);
    }
}

/// Appends the eight bytes of the signed `value`.
pub fn push_i64_le(out: &mut Vec<u8>, value: i64)
    ensures
        final(out)@ == old(out)@ + le_bytes(pattern64(value as int), 8),
{
    let pattern: u64 = if value >= 0 {
        value as u64
    } else {
        let low: u64 = (value - i64::MIN) as u64;
        low + 0x8000_0000_0000_0000
    };
    push_u64_le(out, pattern);
}

/// The spelling of four 64-bit numbers, the last one signed.
pub open spec fn spell_four(first: u64, second: u64, third: u64, last: i64) -> Seq<u8> {
    le_bytes(first as nat, 8) + le_bytes(second as nat, 8) + le_bytes(third as nat, 8) + le_bytes(
        pattern64(last as int),
        8,
    )
}

/// Thirty-two bytes are the spelling of the four numbers read from them.
pub proof fn lemma_four_numbers(data: Seq<u8>)
    requires
        data.len() == 32,
    ensures
        spell_four(
            le_value(data.subrange(0, 8)) as u64,
            le_value(data.subrange(8, 16)) as u64,
            le_value(data.subrange(16, 24)) as u64,
            signed64(le_value(data.subrange(24, 32))) as i64,
        ) == data,
{
    lemma_le_bytes_of_value(data.subrange(0, 8));
    lemma_le_bytes_of_value(data.subrange(8, 16));
    lemma_le_bytes_of_value(data.subrange(16, 24));
    lemma_le_bytes_of_value(data.subrange(24, 32));
    lemma_le_value_8(data.subrange(0, 8));
    lemma_le_value_8(data.subrange(8, 16));
    lemma_le_value_8(data.subrange(16, 24));
    lemma_le_value_8(data.subrange(24, 32));
    lemma_signed_pattern(0, le_value(data.subrange(24, 32)) as u64);
    assert(spell_four(
        le_value(data.subrange(0, 8)) as u64,
        le_value(data.subrange(8, 16)) as u64,
        le_value(data.subrange(16, 24)) as u64,
        signed64(le_value(data.subrange(24, 32))) as i64,
    ) =~= data);
}

/// The four numbers are read back from their spelling.
pub proof fn lemma_spelling_of_four(first: u64, second: u64, third: u64, last: i64)
    ensures
        ({
            let data = spell_four(first, second, third, last);
            &&& data.len() == 32
            &&& le_value(data.subrange(0, 8)) == first
            &&& le_value(data.subrange(8, 16)) == second
            &&& le_value(data.subrange(16, 24)) == third
            &&& signed64(le_value(data.subrange(24, 32))) == last
        }),
{
    let data = spell_four(first, second, third, last);
    let pattern = pattern64(last as int);
    lemma_signed_pattern(last, 0);
    lemma_le_bytes_len(first as nat, 8);
    lemma_le_bytes_len(second as nat, 8);
    lemma_le_bytes_len(third as nat, 8);
    lemma_le_bytes_len(pattern, 8);
    lemma_le_value_of_bytes_u64(first);
    lemma_le_value_of_bytes_u64(second);
    lemma_le_value_of_bytes_u64(third);
    lemma_le_value_of_bytes_u64(pattern as u64);
    assert(data.subrange(0, 8) =~= le_bytes(first as nat, 8));
    assert(data.subrange(8, 16) =~= le_bytes(second as nat, 8));
    assert(data.subrange(16, 24) =~= le_bytes(third as nat, 8));
    assert(data.subrange(24, 32) =~= le_bytes(pattern, 8));
}

} // verus!
