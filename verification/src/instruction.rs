use vstd::prelude::*;
use crate::error::EscrowError;
use crate::state::Address;
use crate::wire::{le_i64, le_u64, read_bytes, read_i64_le, read_u64_le};

verus! {

/// The tag byte of each instruction.
pub const TAG_INIT: u8 = 0;

pub const TAG_CLAIM: u8 = 1;

pub const TAG_REFUND: u8 = 2;

/// The length of an `Init` instruction: the tag and its fixed-width fields.
pub const INIT_LEN: usize = 113;

/// The length of a `Claim` instruction: the tag and the preimage.
pub const CLAIM_LEN: usize = 33;

/// A decoded instruction.
#[derive(Clone, Copy, Debug, PartialEq, Eq)]
pub enum EscrowIx {
    /// Lock `amount` under `payment_hash`.
    Init { payment_hash: [u8; 32], recipient: Address, refund: Address, refund_after: i64, amount: u64 },
    /// Withdraw by revealing the preimage.
    Claim { preimage: [u8; 32] },
    /// Reclaim after the deadline.
    Refund,
}

/// Whether `s` holds an instruction: a known tag and at least the bytes that
/// the tag's fields take. What follows them is not looked at.
pub open spec fn is_instruction(s: Seq<u8>) -> bool {
    s.len() >= 1 && ((s[0] == TAG_INIT && s.len() >= INIT_LEN) || (s[0] == TAG_CLAIM && s.len()
        >= CLAIM_LEN) || s[0] == TAG_REFUND)
}

/// `s` is the wire form of `ix`, possibly followed by bytes that are ignored.
pub open spec fn instruction_at(s: Seq<u8>, ix: EscrowIx) -> bool {
    match ix {
        EscrowIx::Init { payment_hash, recipient, refund, refund_after, amount } => {
            &&& s.len() >= INIT_LEN
            &&& s[0] == TAG_INIT
            &&& s.subrange(1, 33) == payment_hash@
            &&& s.subrange(33, 65) == recipient@
            &&& s.subrange(65, 97) == refund@
            &&& le_i64(s.subrange(97, 105)) == refund_after
            &&& le_u64(s.subrange(105, 113)) == amount
        },
        EscrowIx::Claim { preimage } => {
            &&& s.len() >= CLAIM_LEN
            &&& s[0] == TAG_CLAIM
            &&& s.subrange(1, 33) == preimage@
        },
        EscrowIx::Refund => s.len() >= 1 && s[0] == TAG_REFUND,
    }
}

/// The instruction that `s` holds, if it holds one.
pub open spec fn decode_instruction(s: Seq<u8>) -> Result<EscrowIx, EscrowError> {
    if is_instruction(s) {
        Ok(choose|ix: EscrowIx| instruction_at(s, ix))
    } else {
        Err(EscrowError::InvalidInstruction)
    }
}

/// Bytes hold at most one instruction.
pub proof fn instruction_unique(s: Seq<u8>, a: EscrowIx, b: EscrowIx)
    requires
        instruction_at(s, a),
        instruction_at(s, b),
    ensures
        a == b,
{
    match (a, b) {
        (
            EscrowIx::Init { payment_hash: h1, recipient: r1, refund: f1, .. },
            EscrowIx::Init { payment_hash: h2, recipient: r2, refund: f2, .. },
        ) => {
            assert(h1 =~= h2);
            assert(r1 =~= r2);
            assert(f1 =~= f2);
        },
        (EscrowIx::Claim { preimage: p1 }, EscrowIx::Claim { preimage: p2 }) => {
            assert(p1 =~= p2);
        },
        _ => {},
    }
}

/// Bytes after an instruction's fields do not change what it decodes to.
pub proof fn trailing_bytes_ignored(s: Seq<u8>, extra: Seq<u8>, ix: EscrowIx)
    requires
        instruction_at(s, ix),
    ensures
        instruction_at(s + extra, ix),
        decode_instruction(s + extra) == Ok::<EscrowIx, EscrowError>(ix),
{
    let t = s + extra;
    assert(t[0] == s[0]);
    if s[0] == TAG_INIT {
        assert(t.subrange(1, 33) =~= s.subrange(1, 33));
        assert(t.subrange(33, 65) =~= s.subrange(33, 65));
        assert(t.subrange(65, 97) =~= s.subrange(65, 97));
        assert(t.subrange(97, 105) =~= s.subrange(97, 105));
        assert(t.subrange(105, 113) =~= s.subrange(105, 113));
    } else if s[0] == TAG_CLAIM {
        assert(t.subrange(1, 33) =~= s.subrange(1, 33));
    }
    assert(instruction_at(t, ix));
    let jx = choose|jx: EscrowIx| instruction_at(t, jx);
    instruction_unique(t, ix, jx);
}

/// Decodes an instruction: one tag byte, then the tag's fields at fixed
/// widths, numbers least significant byte first. Never panics: an empty
/// buffer, an unknown tag or too few bytes give `InvalidInstruction`.
pub fn parse_ix(input: &[u8]) -> (r: Result<EscrowIx, EscrowError>)
    ensures
        r == decode_instruction(input@),
        r is Ok <==> is_instruction(input@),
        r matches Ok(ix) ==> instruction_at(input@, ix),
        r matches Err(e) ==> e == EscrowError::InvalidInstruction,
{
    let mut data: &[u8] = input;
    let tag: u8 = match read_bytes::<1>(&mut data) {
        Ok(t) => t[0],
        Err(e) => { return Err(e); },
    };
    let ghost s = input@;
    let ghost n = input@.len() as int;
    assert(data@ =~= s.subrange(1, n));
    let ix = if tag == TAG_INIT {
        let payment_hash = match read_bytes::<32>(&mut data) { Ok(b) => b, Err(e) => { return Err(e); } };
        assert(payment_hash@ =~= s.subrange(1, 33));
        assert(data@ =~= s.subrange(33, n));
        let recipient = match read_bytes::<32>(&mut data) { Ok(b) => b, Err(e) => { return Err(e); } };
        assert(recipient@ =~= s.subrange(33, 65));
        assert(data@ =~= s.subrange(65, n));
        let refund = match read_bytes::<32>(&mut data) { Ok(b) => b, Err(e) => { return Err(e); } };
        assert(refund@ =~= s.subrange(65, 97));
        assert(data@ =~= s.subrange(97, n));
        assert(n >= 105 ==> data@.subrange(0, 8) =~= s.subrange(97, 105));
        let refund_after = match read_i64_le(&mut data) { Ok(x) => x, Err(e) => { return Err(e); } };
        assert(data@ =~= s.subrange(105, n));
        assert(n >= 113 ==> data@.subrange(0, 8) =~= s.subrange(105, 113));
        let amount = match read_u64_le(&mut data) { Ok(x) => x, Err(e) => { return Err(e); } };
        EscrowIx::Init { payment_hash, recipient, refund, refund_after, amount }
    } else if tag == TAG_CLAIM {
        let preimage = match read_bytes::<32>(&mut data) { Ok(b) => b, Err(e) => { return Err(e); } };
        assert(preimage@ =~= s.subrange(1, 33));
        EscrowIx::Claim { preimage }
    } else if tag == TAG_REFUND {
        EscrowIx::Refund
    } else {
        return Err(EscrowError::InvalidInstruction);
    };
    proof {
        assert(instruction_at(input@, ix));
        let c = choose|c: EscrowIx| instruction_at(input@, c);
        instruction_unique(input@, c, ix);
    }
    Ok(ix)
}

} // verus!
