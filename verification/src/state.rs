use vstd::prelude::*;
use crate::error::Failure;
use crate::wire::{i64_from_le, i64_to_le, le_i64, le_u64, le_u64_injective, read_bytes, u64_from_le, u64_to_le};

verus! {

/// A 32-byte identity: an account address, a party, a token type.
pub type Address = [u8; 32];

/// The schema version that new records carry.
pub const V1: u8 = 1;

/// The number of bytes of a persisted record.
pub const RECORD_LEN: usize = 179;

/// Where an escrow stands in its life.
#[derive(Clone, Copy, Debug, PartialEq, Eq, Structural)]
pub enum Status {
    Active,
    Claimed,
    Refunded,
}

/// The persisted record of one escrow.
#[derive(Clone, Copy, Debug, PartialEq, Eq)]
pub struct EscrowState {
    pub v: u8,
    pub status: Status,
    pub payment_hash: [u8; 32],
    pub recipient: Address,
    pub refund: Address,
    pub refund_after: i64,
    pub mint: Address,
    pub amount: u64,
    pub vault: Address,
    pub bump: u8,
}

/// The byte that stands for a status in a record.
pub open spec fn status_byte(s: Status) -> u8 {
    match s {
        Status::Active => 0,
        Status::Claimed => 1,
        Status::Refunded => 2,
    }
}

/// `s` is the persisted form of `r`: the fields in declared order, fixed
/// widths, numbers least significant byte first, no padding.
pub open spec fn record_at(s: Seq<u8>, r: EscrowState) -> bool {
    &&& s.len() == RECORD_LEN
    &&& s[0] == r.v
    &&& s[1] == status_byte(r.status)
    &&& s.subrange(2, 34) == r.payment_hash@
    &&& s.subrange(34, 66) == r.recipient@
    &&& s.subrange(66, 98) == r.refund@
    &&& le_i64(s.subrange(98, 106)) == r.refund_after
    &&& s.subrange(106, 138) == r.mint@
    &&& le_u64(s.subrange(138, 146)) == r.amount
    &&& s.subrange(146, 178) == r.vault@
    &&& s[178] == r.bump
}

/// Whether `s` is the persisted form of some record: the right length and a
/// known status byte.
pub open spec fn is_record(s: Seq<u8>) -> bool {
    s.len() == RECORD_LEN && s[1] <= 2
}

/// The record that `s` holds, if it holds one.
pub open spec fn decode_record(s: Seq<u8>) -> Option<EscrowState> {
    if is_record(s) {
        Some(choose|r: EscrowState| record_at(s, r))
    } else {
        None
    }
}

/// Bytes hold at most one record.
pub proof fn record_unique(s: Seq<u8>, a: EscrowState, b: EscrowState)
    requires
        record_at(s, a),
        record_at(s, b),
    ensures
        a == b,
{
    assert(a.payment_hash =~= b.payment_hash);
    assert(a.recipient =~= b.recipient);
    assert(a.refund =~= b.refund);
    assert(a.mint =~= b.mint);
    assert(a.vault =~= b.vault);
}

/// A record has one persisted form.
pub proof fn encoding_unique(r: EscrowState, s: Seq<u8>, t: Seq<u8>)
    requires
        record_at(s, r),
        record_at(t, r),
    ensures
        s == t,
{
    le_u64_injective(s.subrange(138, 146), t.subrange(138, 146));
    le_u64_injective(s.subrange(98, 106), t.subrange(98, 106));
    assert forall|i: int| 0 <= i < 179 implies s[i] == t[i] by {
        if 2 <= i < 34 {
            assert(s[i] == s.subrange(2, 34)[i - 2]);
            assert(t[i] == t.subrange(2, 34)[i - 2]);
        } else if 34 <= i < 66 {
            assert(s[i] == s.subrange(34, 66)[i - 34]);
            assert(t[i] == t.subrange(34, 66)[i - 34]);
        } else if 66 <= i < 98 {
            assert(s[i] == s.subrange(66, 98)[i - 66]);
            assert(t[i] == t.subrange(66, 98)[i - 66]);
        } else if 98 <= i < 106 {
            assert(s[i] == s.subrange(98, 106)[i - 98]);
            assert(t[i] == t.subrange(98, 106)[i - 98]);
        } else if 106 <= i < 138 {
            assert(s[i] == s.subrange(106, 138)[i - 106]);
            assert(t[i] == t.subrange(106, 138)[i - 106]);
        } else if 138 <= i < 146 {
            assert(s[i] == s.subrange(138, 146)[i - 138]);
            assert(t[i] == t.subrange(138, 146)[i - 138]);
        } else if 146 <= i < 178 {
            assert(s[i] == s.subrange(146, 178)[i - 146]);
            assert(t[i] == t.subrange(146, 178)[i - 146]);
        }
    }
    assert(s =~= t);
}

/// What was written is what is read back: the persisted form of a record
/// decodes to that record.
pub proof fn record_round_trip(r: EscrowState, s: Seq<u8>)
    requires
        record_at(s, r),
    ensures
        decode_record(s) == Some(r),
{
    let c = choose|c: EscrowState| record_at(s, c);
    record_unique(s, c, r);
}

impl Status {
    /// The byte under which this status is persisted.
    pub fn to_byte(&self) -> (b: u8)
        ensures
            b == status_byte(*self),
    {
        match self {
            Status::Active => 0,
            Status::Claimed => 1,
            Status::Refunded => 2,
        }
    }

    /// The status that a persisted byte stands for.
    pub fn from_byte(b: u8) -> (r: Option<Status>)
        ensures
            r is Some <==> b <= 2,
            r matches Some(s) ==> status_byte(s) == b,
    {
        match b {
            0 => Some(Status::Active),
            1 => Some(Status::Claimed),
            2 => Some(Status::Refunded),
            _ => None,
        }
    }
}

/// Copies `src` into `dst` from index `at` on and leaves the rest as it was.
fn put(dst: &mut Vec<u8>, at: usize, src: &[u8])
    requires
        at + src.len() <= old(dst).len(),
    ensures
        final(dst).len() == old(dst).len(),
        forall|i: int| 0 <= i < at ==> final(dst)[i] == old(dst)[i],
        forall|i: int| at <= i < at + src.len() ==> final(dst)[i] == src[i - at],
        forall|i: int| at + src.len() <= i < old(dst).len() ==> final(dst)[i] == old(dst)[i],
{
    let mut i: usize = 0;
    while i < src.len()
        invariant
            i <= src.len(),
            at + src.len() <= dst.len(),
            dst.len() == old(dst).len(),
            forall|j: int| 0 <= j < at ==> dst[j] == old(dst)[j],
            forall|j: int| at <= j < at + i ==> dst[j] == src[j - at],
            forall|j: int| at + i <= j < dst.len() ==> dst[j] == old(dst)[j],
        decreases src.len() - i,
    {
        dst.set(at + i, src[i]);
        i = i + 1;
    }
}

impl EscrowState {
    /// The persisted form of this record.
    pub fn encode(&self) -> (out: Vec<u8>)
        ensures
            record_at(out@, *self),
    {
        let mut out: Vec<u8> = Vec::new();
        let mut i: usize = 0;
        while i < RECORD_LEN
            invariant
                i <= RECORD_LEN,
                out.len() == i,
            decreases RECORD_LEN - i,
        {
            out.push(0u8);
            i = i + 1;
        }
        let _ = self.store(&mut out);
        assert(out@.subrange(0, RECORD_LEN as int) =~= out@);
        out
    }

    /// Writes this record over the first bytes of an account's data, in
    /// place. Data too short to hold a record is left as it was.
    pub fn store(&self, data: &mut Vec<u8>) -> (r: Result<(), Failure>)
        ensures
            r is Ok <==> old(data).len() >= RECORD_LEN,
            r is Ok ==> record_at(final(data)@.subrange(0, RECORD_LEN as int), *self)
                && final(data).len() == old(data).len() && final(data)@.subrange(
                RECORD_LEN as int,
                old(data).len() as int,
            ) == old(data)@.subrange(RECORD_LEN as int, old(data).len() as int),
            r matches Err(e) ==> e == Failure::InvalidAccountData && final(data)@ == old(data)@,
    {
        if data.len() < RECORD_LEN {
            return Err(Failure::InvalidAccountData);
        }
        let after = i64_to_le(self.refund_after);
        let amount = u64_to_le(self.amount);
        data.set(0, self.v);
        data.set(1, self.status.to_byte());
        put(data, 2, self.payment_hash.as_slice());
        put(data, 34, self.recipient.as_slice());
        put(data, 66, self.refund.as_slice());
        put(data, 98, after.as_slice());
        put(data, 106, self.mint.as_slice());
        put(data, 138, amount.as_slice());
        put(data, 146, self.vault.as_slice());
        data.set(178, self.bump);
        proof {
            let s = data@.subrange(0, RECORD_LEN as int);
            assert(s.subrange(2, 34) =~= self.payment_hash@);
            assert(s.subrange(34, 66) =~= self.recipient@);
            assert(s.subrange(66, 98) =~= self.refund@);
            assert(s.subrange(98, 106) =~= after@);
            assert(s.subrange(106, 138) =~= self.mint@);
            assert(s.subrange(138, 146) =~= amount@);
            assert(s.subrange(146, 178) =~= self.vault@);
            assert(data@.subrange(RECORD_LEN as int, old(data).len() as int) =~= old(data)@.subrange(
                RECORD_LEN as int,
                old(data).len() as int,
            ));
        }
        Ok(())
    }

    /// Reads a record from an account's data: exactly a record's length, with
    /// a known status byte.
    pub fn decode(data: &[u8]) -> (r: Option<EscrowState>)
        ensures
            r == decode_record(data@),
            r is Some <==> is_record(data@),
            r matches Some(rec) ==> record_at(data@, rec),
    {
        if data.len() != RECORD_LEN {
            return None;
        }
        let status = match Status::from_byte(data[1]) {
            Some(s) => s,
            None => { return None; },
        };
        let ghost s = data@;
        let (_, tail) = data.split_at(2);
        let mut rest: &[u8] = tail;
        let payment_hash = match read_bytes::<32>(&mut rest) { Ok(b) => b, Err(_) => { return None; } };
        assert(payment_hash@ =~= s.subrange(2, 34));
        assert(rest@ =~= s.subrange(34, 179));
        let recipient = match read_bytes::<32>(&mut rest) { Ok(b) => b, Err(_) => { return None; } };
        assert(recipient@ =~= s.subrange(34, 66));
        assert(rest@ =~= s.subrange(66, 179));
        let refund = match read_bytes::<32>(&mut rest) { Ok(b) => b, Err(_) => { return None; } };
        assert(refund@ =~= s.subrange(66, 98));
        assert(rest@ =~= s.subrange(98, 179));
        let after = match read_bytes::<8>(&mut rest) { Ok(b) => b, Err(_) => { return None; } };
        assert(after@ =~= s.subrange(98, 106));
        assert(rest@ =~= s.subrange(106, 179));
        let mint = match read_bytes::<32>(&mut rest) { Ok(b) => b, Err(_) => { return None; } };
        assert(mint@ =~= s.subrange(106, 138));
        assert(rest@ =~= s.subrange(138, 179));
        let amount = match read_bytes::<8>(&mut rest) { Ok(b) => b, Err(_) => { return None; } };
        assert(amount@ =~= s.subrange(138, 146));
        assert(rest@ =~= s.subrange(146, 179));
        let vault = match read_bytes::<32>(&mut rest) { Ok(b) => b, Err(_) => { return None; } };
        assert(vault@ =~= s.subrange(146, 178));
        let rec = EscrowState {
            v: data[0],
            status,
            payment_hash,
            recipient,
            refund,
            refund_after: i64_from_le(&after),
            mint,
            amount: u64_from_le(&amount),
            vault,
            bump: data[178],
        };
        proof {
            record_round_trip(rec, data@);
        }
        Some(rec)
    }
}

} // verus!
