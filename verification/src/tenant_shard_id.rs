//! The composite identifier naming a unit of work: which tenant, which
//! shard, how many shards in total.
//!
//! The textual form is backward and forward compatible with the pre-sharding
//! era: a legacy identifier (shard count zero) renders as the bare 32-digit
//! tenant id, and a bare tenant id parses as a legacy identifier.  The
//! binary form carries no such special case: it is always 18 bytes.

use vstd::prelude::*;
use core::ops::RangeInclusive;
use crate::hexcode::{
    all_hex, bytes_of_hex, decode_hex_chars, hex_of, hex_string, lemma_hex_round_trip,
    push_byte_hex, ParseError,
};
use crate::shard::{index_text, ShardCount, ShardIndex, ShardNumber};
use crate::tenant_id::{tenant_id_decode, TenantId};

verus! {

/// A tenant identifier together with one shard's number and the tenant's
/// shard count.  Count zero is the legacy sentinel: a tenant from before
/// sharding, distinct from a single-shard tenant of count one.
#[derive(Eq, PartialEq, PartialOrd, Ord, Hash, Debug)]
pub struct TenantShardId {
    pub tenant_id: TenantId,
    pub shard_number: ShardNumber,
    pub shard_count: ShardCount,
}

/// The textual form: the tenant's 32 hex digits, and for sharded
/// identifiers a `-` and the 4-digit number/count slug; a legacy identifier
/// renders as the bare tenant id.
pub open spec fn text_of(t: TenantShardId) -> Seq<char> {
    if t.shard_count.0 == 0 {
        hex_of(t.tenant_id@)
    } else {
        hex_of(t.tenant_id@) + seq!['-'] + index_text(t.shard_number.0, t.shard_count.0)
    }
}

/// What a textual identifier denotes: tenant bytes, shard number and shard
/// count, or the reason the string is not one.  A 32-character string is the
/// legacy form; a 37-character string carries a shard slug after position
/// 32, whose separator is fixed by position rather than checked.
pub open spec fn text_decode(s: Seq<char>) -> Result<(Seq<u8>, u8, u8), ParseError> {
    if s.len() == 32 {
        if !all_hex(s) {
            Err(ParseError::InvalidHexCharacter)
        } else {
            Ok((bytes_of_hex(s), 0u8, 0u8))
        }
    } else if s.len() == 37 {
        if !all_hex(s.subrange(0, 32)) {
            Err(ParseError::InvalidHexCharacter)
        } else if !all_hex(s.subrange(33, 37)) {
            Err(ParseError::InvalidHexCharacter)
        } else {
            Ok(
                (
                    bytes_of_hex(s.subrange(0, 32)),
                    bytes_of_hex(s.subrange(33, 37))[0],
                    bytes_of_hex(s.subrange(33, 37))[1],
                ),
            )
        }
    } else {
        Err(ParseError::InvalidStringLength)
    }
}

/// The 18-byte binary form: the 16 tenant bytes, the shard number, the
/// shard count — for every identifier, legacy ones included.
pub open spec fn binary_of(t: TenantShardId) -> Seq<u8> {
    t.tenant_id@ + seq![t.shard_number.0, t.shard_count.0]
}

/// What an 18-byte buffer denotes; any byte values are accepted, any other
/// length is refused.
pub open spec fn binary_decode(b: Seq<u8>) -> Option<(Seq<u8>, u8, u8)> {
    if b.len() == 18 {
        Some((b.subrange(0, 16), b[16], b[17]))
    } else {
        None
    }
}

/// Lexicographic order on byte strings; a proper prefix comes first.
pub open spec fn seq_u8_le(a: Seq<u8>, b: Seq<u8>) -> bool
    decreases a.len(),
{
    if a.len() == 0 {
        true
    } else if b.len() == 0 {
        false
    } else if a[0] < b[0] {
        true
    } else if a[0] > b[0] {
        false
    } else {
        seq_u8_le(a.skip(1), b.skip(1))
    }
}

/// Byte strings that agree on a prefix compare as their tails do.
proof fn lemma_seq_u8_le_skip(a: Seq<u8>, b: Seq<u8>, k: int)
    requires
        0 <= k <= a.len(),
        k <= b.len(),
        forall|j: int| 0 <= j < k ==> a[j] == b[j],
    ensures
        seq_u8_le(a, b) == seq_u8_le(a.skip(k), b.skip(k)),
    decreases k,
{
    if k > 0 {
        assert(a[0] == b[0]);
        lemma_seq_u8_le_skip(a.skip(1), b.skip(1), k - 1);
        assert(a.skip(1).skip(k - 1) =~= a.skip(k));
        assert(b.skip(1).skip(k - 1) =~= b.skip(k));
    } else {
        assert(a.skip(0) =~= a);
        assert(b.skip(0) =~= b);
    }
}

/// Byte strings of one length that compare at or below each other are equal.
proof fn lemma_seq_u8_le_antisymmetric(a: Seq<u8>, b: Seq<u8>)
    requires
        a.len() == b.len(),
        seq_u8_le(a, b),
        seq_u8_le(b, a),
    ensures
        a == b,
    decreases a.len(),
{
    if a.len() > 0 {
        assert(a[0] == b[0]);
        lemma_seq_u8_le_antisymmetric(a.skip(1), b.skip(1));
        assert forall|i: int| 0 <= i < a.len() implies a[i] == b[i] by {
            if i > 0 {
                assert(a.skip(1)[i - 1] == b.skip(1)[i - 1]);
            }
        }
        assert(a =~= b);
    } else {
        assert(a =~= b);
    }
}

/// The first position where two equally long byte strings differ, if any.
fn first_diff(a: &Vec<u8>, b: &Vec<u8>) -> (r: Option<usize>)
    requires
        a@.len() == b@.len(),
    ensures
        r matches Some(i) ==> i < a@.len() && a@[i as int] != b@[i as int] && (forall|j: int|
            0 <= j < i ==> a@[j] == b@[j]),
        r is None ==> a@ == b@,
{
    let mut i: usize = 0;
    while i < a.len()
        invariant
            a@.len() == b@.len(),
            i <= a@.len(),
            forall|j: int| 0 <= j < i ==> a@[j] == b@[j],
        decreases a@.len() - i,
    {
        if a[i] != b[i] {
            return Some(i);
        }
        i = i + 1;
    }
    proof {
        assert(a@ =~= b@);
    }
    None
}

impl TenantShardId {
    /// A well-formed identifier names its tenant by sixteen bytes.
    pub open spec fn wf(&self) -> bool {
        self.tenant_id.wf()
    }

    /// The defined order of identifiers: lexicographic on the tenant bytes,
    /// then the shard number, then the shard count.  Under this order all
    /// shards of one tenant stand contiguously.
    pub open spec fn spec_le(self, other: TenantShardId) -> bool {
        if self.tenant_id@ != other.tenant_id@ {
            seq_u8_le(self.tenant_id@, other.tenant_id@)
        } else if self.shard_number.0 != other.shard_number.0 {
            self.shard_number.0 < other.shard_number.0
        } else {
            self.shard_count.0 <= other.shard_count.0
        }
    }

    /// Whether this identifier comes at or before the other in the defined
    /// order.
    pub fn le(&self, other: &TenantShardId) -> (r: bool)
        requires
            self.wf(),
            other.wf(),
        ensures
            r == self.spec_le(*other),
    {
        let a = self.tenant_id.as_bytes();
        let b = other.tenant_id.as_bytes();
        match first_diff(a, b) {
            Some(i) => {
                proof {
                    lemma_seq_u8_le_skip(a@, b@, i as int);
                    assert(a@.skip(i as int)[0] == a@[i as int]);
                    assert(b@.skip(i as int)[0] == b@[i as int]);
                }
                a[i] < b[i]
            },
            None => {
                if self.shard_number.0 != other.shard_number.0 {
                    self.shard_number.0 < other.shard_number.0
                } else {
                    self.shard_count.0 <= other.shard_count.0
                }
            },
        }
    }

    /// The legacy identifier of a tenant: shard number and count both zero.
    pub fn unsharded(tenant_id: TenantId) -> (r: Self)
        ensures
            r.tenant_id == tenant_id,
            r.shard_number.0 == 0,
            r.shard_count.0 == 0,
    {
        TenantShardId { tenant_id, shard_number: ShardNumber(0), shard_count: ShardCount(0) }
    }

    /// The inclusive range holding every identifier of one tenant, for
    /// querying an ordered map keyed by identifiers: from number and count
    /// zero up to number and count 255.
    pub fn tenant_range(tenant_id: TenantId) -> (r: RangeInclusive<TenantShardId>)
        ensures
            r@.start.tenant_id@ == tenant_id@,
            r@.start.shard_number.0 == 0,
            r@.start.shard_count.0 == 0,
            r@.end.tenant_id@ == tenant_id@,
            r@.end.shard_number.0 == 255,
            r@.end.shard_count.0 == 255,
            r@.exhausted == false,
    {
        let start_tenant = tenant_id.clone();
        RangeInclusive::new(
            TenantShardId {
                tenant_id: start_tenant,
                shard_number: ShardNumber(0),
                shard_count: ShardCount(0),
            },
            TenantShardId {
                tenant_id,
                shard_number: ShardNumber(255),
                shard_count: ShardCount(255),
            },
        )
    }

    /// The 4-digit number/count slug, independent of legacy status.
    pub fn shard_slug(&self) -> (s: String)
        ensures
            s@ == index_text(self.shard_number.0, self.shard_count.0),
    {
        let mut s = String::new();
        push_byte_hex(&mut s, self.shard_number.0);
        push_byte_hex(&mut s, self.shard_count.0);
        proof {
            assert(s@ =~= index_text(self.shard_number.0, self.shard_count.0));
        }
        s
    }

    /// This identifier's shard, without the tenant.
    pub fn shard_index(&self) -> (r: ShardIndex)
        ensures
            r.shard_number == self.shard_number,
            r.shard_count == self.shard_count,
    {
        ShardIndex { shard_number: self.shard_number, shard_count: self.shard_count }
    }

    /// The textual form: 37 characters for a sharded identifier, the bare
    /// 32-character tenant id for a legacy one.
    pub fn encode_text(&self) -> (s: String)
        ensures
            s@ == text_of(*self),
    {
        let mut s = hex_string(self.tenant_id.as_bytes());
        if self.shard_count.0 != 0 {
            s.append("-");
            push_byte_hex(&mut s, self.shard_number.0);
            push_byte_hex(&mut s, self.shard_count.0);
            proof {
                reveal_strlit("-");
                assert(s@ =~= text_of(*self));
            }
        }
        s
    }

    /// Parses the textual form.  A 32-character input is the legacy form; a
    /// 37-character input is tenant id, separator position, and shard slug;
    /// the tenant digits are checked before the slug digits.  Every other
    /// length is refused.
    pub fn decode_text(s: &str) -> (r: Result<TenantShardId, ParseError>)
        ensures
            text_decode(s@) matches Ok(tr) ==> (r matches Ok(t) && t.tenant_id@ == tr.0
                && t.shard_number.0 == tr.1 && t.shard_count.0 == tr.2 && t.wf()),
            text_decode(s@) matches Err(e) ==> (r matches Err(e2) && e2 == e),
    {
        let len = s.unicode_len();
        if len == 32 {
            match TenantId::from_hex(s) {
                Ok(tenant_id) => Ok(
                    TenantShardId {
                        tenant_id,
                        shard_number: ShardNumber(0),
                        shard_count: ShardCount(0),
                    },
                ),
                Err(e) => Err(e),
            }
        } else if len == 37 {
            let tenant_bytes = match decode_hex_chars(s, 0, 16) {
                Ok(v) => v,
                Err(e) => {
                    return Err(e);
                },
            };
            let shard_bytes = match decode_hex_chars(s, 33, 2) {
                Ok(v) => v,
                Err(e) => {
                    return Err(e);
                },
            };
            Ok(
                TenantShardId {
                    tenant_id: TenantId::new(tenant_bytes),
                    shard_number: ShardNumber(shard_bytes[0]),
                    shard_count: ShardCount(shard_bytes[1]),
                },
            )
        } else {
            Err(ParseError::InvalidStringLength)
        }
    }

    /// The 18-byte binary form, identical in shape for legacy identifiers:
    /// their two shard bytes are simply zero.
    pub fn encode_binary(&self) -> (r: Vec<u8>)
        ensures
            r@ == binary_of(*self),
    {
        let tb = self.tenant_id.as_bytes();
        let mut out: Vec<u8> = Vec::new();
        let mut i: usize = 0;
        while i < tb.len()
            invariant
                i <= tb@.len(),
                tb@ == self.tenant_id@,
                out@ == tb@.subrange(0, i as int),
            decreases tb@.len() - i,
        {
            out.push(tb[i]);
            proof {
                assert(out@ =~= tb@.subrange(0, i + 1));
            }
            i = i + 1;
        }
        out.push(self.shard_number.0);
        out.push(self.shard_count.0);
        proof {
            assert(tb@.subrange(0, tb@.len() as int) =~= tb@);
            assert(out@ =~= binary_of(*self));
        }
        out
    }

    /// Reads an 18-byte buffer back as an identifier, without validation:
    /// any byte values are accepted.  Any other length yields nothing.
    pub fn decode_binary(b: &Vec<u8>) -> (r: Option<TenantShardId>)
        ensures
            binary_decode(b@) matches Some(tr) ==> (r matches Some(t) && t.tenant_id@ == tr.0
                && t.shard_number.0 == tr.1 && t.shard_count.0 == tr.2 && t.wf()),
            binary_decode(b@) is None ==> r is None,
    {
        if b.len() != 18 {
            return None;
        }
        let mut tb: Vec<u8> = Vec::new();
        let mut i: usize = 0;
        while i < 16
            invariant
                i <= 16,
                b@.len() == 18,
                tb@ == b@.subrange(0, i as int),
            decreases 16 - i,
        {
            tb.push(b[i]);
            proof {
                assert(tb@ =~= b@.subrange(0, i + 1));
            }
            i = i + 1;
        }
        Some(
            TenantShardId {
                tenant_id: TenantId::new(tb),
                shard_number: ShardNumber(b[16]),
                shard_count: ShardCount(b[17]),
            },
        )
    }
}

impl Clone for TenantShardId {
    /// Clones the identifier; the copy names the same tenant and shard.
    fn clone(&self) -> (r: Self)
        ensures
            r.tenant_id@ == self.tenant_id@,
            r.shard_number == self.shard_number,
            r.shard_count == self.shard_count,
    {
        TenantShardId {
            tenant_id: self.tenant_id.clone(),
            shard_number: self.shard_number,
            shard_count: self.shard_count,
        }
    }
}

/// Textual round trip: every sharded identifier, and every legacy
/// identifier with shard number zero, is recovered exactly by decoding its
/// own textual form.
pub proof fn lemma_text_round_trip(t: TenantShardId)
    requires
        t.wf(),
        t.shard_count.0 != 0 || t.shard_number.0 == 0,
    ensures
        text_decode(text_of(t)) == Ok::<(Seq<u8>, u8, u8), ParseError>(
            (t.tenant_id@, t.shard_number.0, t.shard_count.0),
        ),
{
    lemma_hex_round_trip(t.tenant_id@);
    let s = text_of(t);
    if t.shard_count.0 != 0 {
        let pair = seq![t.shard_number.0, t.shard_count.0];
        lemma_hex_round_trip(pair);
        assert(s.len() == 37);
        assert(s.subrange(0, 32) =~= hex_of(t.tenant_id@));
        assert(s.subrange(33, 37) =~= hex_of(pair));
        assert(bytes_of_hex(hex_of(pair))[0] == t.shard_number.0);
        assert(bytes_of_hex(hex_of(pair))[1] == t.shard_count.0);
    } else {
        assert(s.len() == 32);
    }
}

/// Binary round trip: every identifier is recovered exactly by decoding its
/// own 18-byte form.
pub proof fn lemma_binary_round_trip(t: TenantShardId)
    requires
        t.wf(),
    ensures
        binary_decode(binary_of(t)) == Some::<(Seq<u8>, u8, u8)>(
            (t.tenant_id@, t.shard_number.0, t.shard_count.0),
        ),
{
    let b = binary_of(t);
    assert(b.subrange(0, 16) =~= t.tenant_id@);
    assert(b[16] == t.shard_number.0);
    assert(b[17] == t.shard_count.0);
}

/// Legacy compatibility, both ways: an unsharded identifier's textual form
/// is exactly the tenant's own hex form, and that bare form decodes — as a
/// composite identifier or as a tenant id — to the tenant with shard number
/// and count zero.
pub proof fn lemma_legacy_text_compat(tid: TenantId)
    requires
        tid.wf(),
    ensures
        text_of(
            (TenantShardId {
                tenant_id: tid,
                shard_number: ShardNumber(0),
                shard_count: ShardCount(0),
            }),
        ) == hex_of(tid@),
        text_decode(hex_of(tid@)) == Ok::<(Seq<u8>, u8, u8), ParseError>((tid@, 0u8, 0u8)),
        tenant_id_decode(hex_of(tid@)) == Ok::<Seq<u8>, ParseError>(tid@),
{
    lemma_hex_round_trip(tid@);
}

/// The tenant range is exact: an identifier lies between a tenant's lowest
/// bound (number and count zero) and highest bound (number and count 255)
/// in the defined order exactly when it names that tenant.
pub proof fn lemma_tenant_range_covers(lo: TenantShardId, hi: TenantShardId, id: TenantShardId)
    requires
        lo.wf(),
        hi.wf(),
        id.wf(),
        hi.tenant_id@ == lo.tenant_id@,
        lo.shard_number.0 == 0,
        lo.shard_count.0 == 0,
        hi.shard_number.0 == 255,
        hi.shard_count.0 == 255,
    ensures
        (lo.spec_le(id) && id.spec_le(hi)) <==> id.tenant_id@ == lo.tenant_id@,
{
    if id.tenant_id@ != lo.tenant_id@ {
        if lo.spec_le(id) && id.spec_le(hi) {
            lemma_seq_u8_le_antisymmetric(lo.tenant_id@, id.tenant_id@);
        }
    }
}

} // verus!
