//! The persistent sale ledger record and its fixed storage layout.
//!
//! The record is persisted as 48 bytes: the 32-byte admin identity, then
//! `total_tokens` and `tokens_sold` as little-endian eight-byte integers.
//! Storage reserved on the ledger exceeds this minimum, so decoding reads
//! exactly this prefix layout.

use vstd::prelude::*;

verus! {

/// The number of bytes of the persisted record layout.
pub const RECORD_BYTES: usize = 48;

/// The state persisted for one sale instance: who administers it, how many
/// whole tokens were ever deposited, and how many were ever sold.
#[derive(Clone, Copy)]
pub struct SaleLedgerRecord {
    /// Identity of the account authorized to fund and top up the sale.
    /// Set once at creation, immutable thereafter.
    pub admin: [u8; 32],
    /// Cumulative whole tokens ever deposited (monotonically non-decreasing).
    pub total_tokens: u64,
    /// Cumulative whole tokens ever sold (monotonically non-decreasing).
    pub tokens_sold: u64,
}

impl SaleLedgerRecord {
    /// The record's lifetime invariant: the sale never sells more than was
    /// deposited.
    pub open spec fn wf(&self) -> bool {
        self.tokens_sold <= self.total_tokens
    }

    /// Whole tokens still available for purchase.
    pub open spec fn available(&self) -> int {
        self.total_tokens - self.tokens_sold
    }

    /// The persisted form of the record.
    pub open spec fn spec_encode(&self) -> Seq<u8> {
        self.admin@ + spec_u64_le(self.total_tokens) + spec_u64_le(self.tokens_sold)
    }

    /// Serializes the record into its fixed 48-byte layout.
    pub fn encode(&self) -> (v: Vec<u8>)
        ensures
            v@ == self.spec_encode(),
            v@.len() == RECORD_BYTES,
    {
        let mut v: Vec<u8> = Vec::new();
        let mut i: usize = 0;
        while i < 32
            invariant
                i <= 32,
                v@.len() == i,
                forall|j: int| 0 <= j < i ==> v@[j] == self.admin@[j],
            decreases 32 - i,
        {
            v.push(self.admin[i]);
            i = i + 1;
        }
        proof {
            assert(v@ =~= self.admin@);
        }
        push_u64_le(&mut v, self.total_tokens);
        push_u64_le(&mut v, self.tokens_sold);
        v
    }

    /// Deserializes a record from its fixed 48-byte layout. Returns `None`
    /// exactly where the input is not 48 bytes long; a decoded record
    /// re-encodes to the same bytes.
    pub fn decode(v: &Vec<u8>) -> (r: Option<SaleLedgerRecord>)
        ensures
            r is Some <==> v@.len() == RECORD_BYTES,
            r matches Some(rec) ==> rec.spec_encode() == v@,
    {
        if v.len() != RECORD_BYTES {
            return None;
        }
        let mut admin: [u8; 32] = [0u8; 32];
        let mut i: usize = 0;
        while i < 32
            invariant
                i <= 32,
                v@.len() == RECORD_BYTES,
                forall|j: int| 0 <= j < i ==> admin@[j] == v@[j],
            decreases 32 - i,
        {
            admin[i] = v[i];
            i = i + 1;
        }
        let total_tokens = read_u64_le(v, 32);
        let tokens_sold = read_u64_le(v, 40);
        let rec = SaleLedgerRecord { admin, total_tokens, tokens_sold };
        proof {
            assert(rec.spec_encode() =~= v@);
        }
        Some(rec)
    }
}

/// The little-endian eight-byte form of a `u64`.
pub open spec fn spec_u64_le(x: u64) -> Seq<u8> {
    seq![
        (x & 0xff) as u8,
        ((x >> 8) & 0xff) as u8,
        ((x >> 16) & 0xff) as u8,
        ((x >> 24) & 0xff) as u8,
        ((x >> 32) & 0xff) as u8,
        ((x >> 40) & 0xff) as u8,
        ((x >> 48) & 0xff) as u8,
        ((x >> 56) & 0xff) as u8,
    ]
}

/// Appends the little-endian bytes of `x`.
fn push_u64_le(out: &mut Vec<u8>, x: u64)
    ensures
        final(out)@ == old(out)@ + spec_u64_le(x),
{
    out.push((x & 0xff) as u8);
    out.push(((x >> 8) & 0xff) as u8);
    out.push(((x >> 16) & 0xff) as u8);
    out.push(((x >> 24) & 0xff) as u8);
    out.push(((x >> 32) & 0xff) as u8);
    out.push(((x >> 40) & 0xff) as u8);
    out.push(((x >> 48) & 0xff) as u8);
    out.push(((x >> 56) & 0xff) as u8);
    proof {
        assert(out@ =~= old(out)@ + spec_u64_le(x));
    }
}

/// Reads the little-endian `u64` stored at `off`.
fn read_u64_le(v: &Vec<u8>, off: usize) -> (x: u64)
    requires
        off + 8 <= v@.len(),
        v@.len() <= usize::MAX,
    ensures
        spec_u64_le(x) == v@.subrange(off as int, off as int + 8),
{
    let b0 = v[off] as u64;
    let b1 = v[off + 1] as u64;
    let b2 = v[off + 2] as u64;
    let b3 = v[off + 3] as u64;
    let b4 = v[off + 4] as u64;
    let b5 = v[off + 5] as u64;
    let b6 = v[off + 6] as u64;
    let b7 = v[off + 7] as u64;
    let x = b0 | (b1 << 8) | (b2 << 16) | (b3 << 24) | (b4 << 32) | (b5 << 40) | (b6 << 48)
        | (b7 << 56);
    proof {
        assert({
            &&& x & 0xff == b0
            &&& (x >> 8) & 0xff == b1
            &&& (x >> 16) & 0xff == b2
            &&& (x >> 24) & 0xff == b3
            &&& (x >> 32) & 0xff == b4
            &&& (x >> 40) & 0xff == b5
            &&& (x >> 48) & 0xff == b6
            &&& (x >> 56) & 0xff == b7
        }) by (bit_vector)
            requires
                x == b0 | (b1 << 8) | (b2 << 16) | (b3 << 24) | (b4 << 32) | (b5 << 40) | (
                b6 << 48) | (b7 << 56),
                b0 < 256,
                b1 < 256,
                b2 < 256,
                b3 < 256,
                b4 < 256,
                b5 < 256,
                b6 < 256,
                b7 < 256,
        ;
        assert(spec_u64_le(x) =~= v@.subrange(off as int, off as int + 8));
    }
    x
}

/// No two distinct `u64` values share a little-endian encoding.
pub proof fn lemma_u64_le_injective(x: u64, y: u64)
    requires
        spec_u64_le(x) == spec_u64_le(y),
    ensures
        x == y,
{
    assert(x == y) by (bit_vector)
        requires
            (x & 0xff) as u8 == (y & 0xff) as u8,
            ((x >> 8) & 0xff) as u8 == ((y >> 8) & 0xff) as u8,
            ((x >> 16) & 0xff) as u8 == ((y >> 16) & 0xff) as u8,
            ((x >> 24) & 0xff) as u8 == ((y >> 24) & 0xff) as u8,
            ((x >> 32) & 0xff) as u8 == ((y >> 32) & 0xff) as u8,
            ((x >> 40) & 0xff) as u8 == ((y >> 40) & 0xff) as u8,
            ((x >> 48) & 0xff) as u8 == ((y >> 48) & 0xff) as u8,
            ((x >> 56) & 0xff) as u8 == ((y >> 56) & 0xff) as u8,
    ;
}

/// The persisted layout is injective: records that encode to the same bytes
/// are the same record, so decoding is a full round trip — `decode` of
/// `encode(r)` can only return `r`.
pub proof fn lemma_record_encode_injective(a: SaleLedgerRecord, b: SaleLedgerRecord)
    requires
        a.spec_encode() == b.spec_encode(),
    ensures
        a == b,
{
    assert forall|i: int| 0 <= i < 32 implies a.admin@[i] == b.admin@[i] by {
        assert(a.spec_encode()[i] == a.admin@[i]);
        assert(b.spec_encode()[i] == b.admin@[i]);
    }
    assert(a.admin =~= b.admin);
    assert forall|i: int|
        0 <= i < 8 implies spec_u64_le(a.total_tokens)[i] == spec_u64_le(b.total_tokens)[i] by {
        assert(a.spec_encode()[32 + i] == spec_u64_le(a.total_tokens)[i]);
        assert(b.spec_encode()[32 + i] == spec_u64_le(b.total_tokens)[i]);
    }
    assert(spec_u64_le(a.total_tokens) =~= spec_u64_le(b.total_tokens));
    lemma_u64_le_injective(a.total_tokens, b.total_tokens);
    assert forall|i: int|
        0 <= i < 8 implies spec_u64_le(a.tokens_sold)[i] == spec_u64_le(b.tokens_sold)[i] by {
        assert(a.spec_encode()[40 + i] == spec_u64_le(a.tokens_sold)[i]);
        assert(b.spec_encode()[40 + i] == spec_u64_le(b.tokens_sold)[i]);
    }
    assert(spec_u64_le(a.tokens_sold) =~= spec_u64_le(b.tokens_sold));
    lemma_u64_le_injective(a.tokens_sold, b.tokens_sold);
}

} // verus!
