use vstd::prelude::*;
use crate::error::EscrowError;

verus! {

/// The unsigned number that eight bytes hold, least significant byte first.
pub open spec fn le_u64(s: Seq<u8>) -> int
    recommends
        s.len() == 8,
{
    s[0] as int + s[1] as int * 0x100 + s[2] as int * 0x1_0000 + s[3] as int * 0x100_0000
        + s[4] as int * 0x1_0000_0000 + s[5] as int * 0x100_0000_0000 + s[6] as int
        * 0x1_0000_0000_0000 + s[7] as int * 0x100_0000_0000_0000
}

/// The signed number that eight bytes hold in two's complement, least
/// significant byte first.
pub open spec fn le_i64(s: Seq<u8>) -> int
    recommends
        s.len() == 8,
{
    if le_u64(s) >= 0x8000_0000_0000_0000 {
        le_u64(s) - 0x1_0000_0000_0000_0000
    } else {
        le_u64(s)
    }
}

/// Takes the first `N` bytes off `data` and leaves the rest in it; with fewer
/// than `N` bytes `data` stays as it is and the read fails.
pub fn read_bytes<const N: usize>(data: &mut &[u8]) -> (r: Result<[u8; N], EscrowError>)
    ensures
        r is Ok <==> old(data)@.len() >= N,
        r matches Ok(out) ==> out@ == old(data)@.subrange(0, N as int) && final(data)@ == old(
            data,
        )@.subrange(N as int, old(data)@.len() as int),
        r matches Err(e) ==> e == EscrowError::InvalidInstruction && final(data)@ == old(data)@,
{
    if data.len() < N {
        return Err(EscrowError::InvalidInstruction);
    }
    let (head, tail) = data.split_at(N);
    *data = tail;
    let mut out = [0u8; N];
    let mut i: usize = 0;
    while i < N
        invariant
            head@.len() == N,
            i <= N,
            out@.len() == N,
            forall|j: int| 0 <= j < i ==> out@[j] == head@[j],
        decreases N - i,
    {
        out[i] = head[i];
        i = i + 1;
    }
    assert(out@ =~= head@);
    Ok(out)
}

/// Takes an unsigned 64-bit number off `data`, least significant byte first.
pub fn read_u64_le(data: &mut &[u8]) -> (r: Result<u64, EscrowError>)
    ensures
        r is Ok <==> old(data)@.len() >= 8,
        r matches Ok(x) ==> x == le_u64(old(data)@.subrange(0, 8)) && final(data)@ == old(
            data,
        )@.subrange(8, old(data)@.len() as int),
        r matches Err(e) ==> e == EscrowError::InvalidInstruction && final(data)@ == old(data)@,
{
    match read_bytes::<8>(data) {
        Ok(b) => Ok(u64_from_le(&b)),
        Err(e) => Err(e),
    }
}

/// Takes a signed 64-bit number off `data`, least significant byte first.
pub fn read_i64_le(data: &mut &[u8]) -> (r: Result<i64, EscrowError>)
    ensures
        r is Ok <==> old(data)@.len() >= 8,
        r matches Ok(x) ==> x == le_i64(old(data)@.subrange(0, 8)) && final(data)@ == old(
            data,
        )@.subrange(8, old(data)@.len() as int),
        r matches Err(e) ==> e == EscrowError::InvalidInstruction && final(data)@ == old(data)@,
{
    match read_bytes::<8>(data) {
        Ok(b) => Ok(i64_from_le(&b)),
        Err(e) => Err(e),
    }
}

/// The unsigned number in eight little-endian bytes.
pub fn u64_from_le(b: &[u8; 8]) -> (x: u64)
    ensures
        x == le_u64(b@),
{
    let mut x: u64 = 0;
    let mut i: usize = 8;
    let ghost s = b@;
    while i > 0
        invariant
            i <= 8,
            s == b@,
            i == 8 ==> x == 0,
            i == 7 ==> x == s[7],
            i == 6 ==> x == s[7] * 0x100 + s[6],
            i == 5 ==> x == s[7] * 0x1_0000 + s[6] * 0x100 + s[5],
            i == 4 ==> x == s[7] * 0x100_0000 + s[6] * 0x1_0000 + s[5] * 0x100 + s[4],
            i == 3 ==> x == s[7] * 0x1_0000_0000 + s[6] * 0x100_0000 + s[5] * 0x1_0000 + s[4]
                * 0x100 + s[3],
            i == 2 ==> x == s[7] * 0x100_0000_0000 + s[6] * 0x1_0000_0000 + s[5] * 0x100_0000
                + s[4] * 0x1_0000 + s[3] * 0x100 + s[2],
            i == 1 ==> x == s[7] * 0x1_0000_0000_0000 + s[6] * 0x100_0000_0000 + s[5]
                * 0x1_0000_0000 + s[4] * 0x100_0000 + s[3] * 0x1_0000 + s[2] * 0x100 + s[1],
            i == 0 ==> x == le_u64(s),
        decreases i,
    {
        i = i - 1;
        x = x * 256 + b[i] as u64;
    }
    x
}

/// The signed number in eight little-endian bytes.
pub fn i64_from_le(b: &[u8; 8]) -> (x: i64)
    ensures
        x == le_i64(b@),
{
    let u: u64 = u64_from_le(b);
    if u >= 0x8000_0000_0000_0000 {
        let low: u64 = u - 0x8000_0000_0000_0000;
        (low as i64) + i64::MIN
    } else {
        u as i64
    }
}

/// The eight little-endian bytes of an unsigned number.
pub fn u64_to_le(x: u64) -> (b: [u8; 8])
    ensures
        le_u64(b@) == x,
{
    let q1: u64 = x / 256;
    let q2: u64 = q1 / 256;
    let q3: u64 = q2 / 256;
    let q4: u64 = q3 / 256;
    let q5: u64 = q4 / 256;
    let q6: u64 = q5 / 256;
    let q7: u64 = q6 / 256;
    let b = [
        (x % 256) as u8,
        (q1 % 256) as u8,
        (q2 % 256) as u8,
        (q3 % 256) as u8,
        (q4 % 256) as u8,
        (q5 % 256) as u8,
        (q6 % 256) as u8,
        (q7 % 256) as u8,
    ];
    proof {
        assert(q7 < 256);
        assert(x == b@[0] + 256 * q1);
        assert(q1 == b@[1] + 256 * q2);
        assert(q2 == b@[2] + 256 * q3);
        assert(q3 == b@[3] + 256 * q4);
        assert(q4 == b@[4] + 256 * q5);
        assert(q5 == b@[5] + 256 * q6);
        assert(q6 == b@[6] + 256 * q7);
        assert(q7 == b@[7]);
    }
    b
}

/// The eight little-endian bytes of a signed number, in two's complement.
pub fn i64_to_le(x: i64) -> (b: [u8; 8])
    ensures
        le_i64(b@) == x,
{
    if x >= 0 {
        u64_to_le(x as u64)
    } else {
        let low: u64 = (x - i64::MIN) as u64;
        u64_to_le(low + 0x8000_0000_0000_0000)
    }
}

/// A number below 256 and a multiple of 256 add up in one way only.
proof fn digit_unique(a: int, ta: int, b: int, tb: int)
    requires
        0 <= a < 256,
        0 <= b < 256,
        a + 256 * ta == b + 256 * tb,
    ensures
        a == b,
        ta == tb,
{
}

/// The number that the bytes of `s` from index `k` on hold.
pub open spec fn le_tail(s: Seq<u8>, k: int) -> int
    decreases 8 - k,
{
    if k >= 8 {
        0
    } else {
        s[k] as int + 256 * le_tail(s, k + 1)
    }
}

proof fn le_u64_is_tail(s: Seq<u8>)
    ensures
        le_u64(s) == le_tail(s, 0),
{
    reveal_with_fuel(le_tail, 10);
}

proof fn le_tail_injective(a: Seq<u8>, b: Seq<u8>, k: int)
    requires
        a.len() == 8,
        b.len() == 8,
        0 <= k <= 8,
        le_tail(a, k) == le_tail(b, k),
    ensures
        forall|j: int| k <= j < 8 ==> a[j] == b[j],
    decreases 8 - k,
{
    if k < 8 {
        digit_unique(a[k] as int, le_tail(a, k + 1), b[k] as int, le_tail(b, k + 1));
        le_tail_injective(a, b, k + 1);
    }
}

/// Eight bytes hold one number: equal numbers come from equal bytes.
pub proof fn le_u64_injective(a: Seq<u8>, b: Seq<u8>)
    requires
        a.len() == 8,
        b.len() == 8,
        le_u64(a) == le_u64(b),
    ensures
        a == b,
{
    le_u64_is_tail(a);
    le_u64_is_tail(b);
    le_tail_injective(a, b, 0);
    assert(a =~= b);
}

} // verus!
