//! Shard-local types: the scalar shard fields, the tenant-free shard index
//! with its dual codec, and the validated shard identity.
//!
//! A shard count of zero is the legacy sentinel: it marks a tenant from
//! before sharding existed and is distinct from a modern single-shard tenant
//! (number 0 of count 1).  `ShardIndex` admits the sentinel silently, while
//! `ShardIdentity::new` rejects count zero and reserves the sentinel for its
//! separate `unsharded` constructor.

use vstd::prelude::*;
use crate::hexcode::{
    all_hex, byte_hex, bytes_of_hex, decode_hex_chars, push_byte_hex, ParseError,
};

verus! {

/// Zero-based index of a shard within its tenant.
#[derive(Ord, PartialOrd, Eq, PartialEq, Clone, Copy, Debug, Hash, Structural)]
pub struct ShardNumber(pub u8);

/// Total number of shards a tenant is split into; zero is the legacy sentinel.
#[derive(Ord, PartialOrd, Eq, PartialEq, Clone, Copy, Debug, Hash, Structural)]
pub struct ShardCount(pub u8);

/// Stripe size in pages: the granularity at which contiguous key ranges are
/// assigned round-robin to shards.
#[derive(Clone, Copy, Eq, PartialEq, Debug, Structural)]
pub struct ShardStripeSize(pub u32);

/// Layout version, for future changes to the key-to-shard mapping.
#[derive(Clone, Copy, Eq, PartialEq, Debug, Structural)]
pub struct ShardLayout(pub u8);

/// The current layout version.
pub const LAYOUT_V1: u8 = 1;

/// Default stripe size: 256 MiB of 8 KiB pages.
pub const DEFAULT_STRIPE_SIZE_PAGES: u32 = 256 * 1024 / 8;

/// Why a shard identity could not be built from the given parameters.
#[derive(Clone, Copy, Debug, PartialEq, Eq, Structural)]
pub enum ShardConfigError {
    /// The shard count was zero.
    InvalidCount,
    /// The shard number was not below the shard count.
    InvalidNumber,
    /// The stripe size was zero.
    InvalidStripeSize,
}

/// A shard number and count without the tenant, for contexts where the
/// tenant is already known: storage-path suffixes, per-tenant tables.
#[derive(Eq, PartialEq, PartialOrd, Ord, Clone, Copy, Debug, Hash, Structural)]
pub struct ShardIndex {
    pub shard_number: ShardNumber,
    pub shard_count: ShardCount,
}

/// The 4-character textual form of a number/count pair: each field as two
/// lowercase hex digits, number first.
pub open spec fn index_text(number: u8, count: u8) -> Seq<char> {
    byte_hex(number) + byte_hex(count)
}

/// What a 4-character textual form denotes: a number/count pair, or the
/// reason the string is not one.
pub open spec fn index_decode(s: Seq<char>) -> Result<(u8, u8), ParseError> {
    if s.len() != 4 {
        Err(ParseError::InvalidStringLength)
    } else if !all_hex(s) {
        Err(ParseError::InvalidHexCharacter)
    } else {
        Ok((bytes_of_hex(s)[0], bytes_of_hex(s)[1]))
    }
}

impl ShardIndex {
    /// Pairs a shard number with a shard count; validation belongs to
    /// `ShardIdentity`, not here.
    pub fn new(number: ShardNumber, count: ShardCount) -> (r: Self)
        ensures
            r.shard_number == number,
            r.shard_count == count,
    {
        ShardIndex { shard_number: number, shard_count: count }
    }

    /// The legacy sentinel: number and count both zero.
    pub fn unsharded() -> (r: Self)
        ensures
            r.shard_number.0 == 0,
            r.shard_count.0 == 0,
    {
        ShardIndex { shard_number: ShardNumber(0), shard_count: ShardCount(0) }
    }

    /// Whether this is the legacy sentinel.
    pub open spec fn spec_is_unsharded(&self) -> bool {
        self.shard_number.0 == 0 && self.shard_count.0 == 0
    }

    /// Whether this is the legacy sentinel.
    pub fn is_unsharded(&self) -> (r: bool)
        ensures
            r == self.spec_is_unsharded(),
    {
        self.shard_number.0 == 0 && self.shard_count.0 == 0
    }

    /// The storage-path suffix for this shard: empty for the legacy sentinel,
    /// preserving pre-sharding path layouts, else a `-` and the 4-digit form.
    pub fn get_suffix(&self) -> (s: String)
        ensures
            self.spec_is_unsharded() ==> s@ == Seq::<char>::empty(),
            !self.spec_is_unsharded() ==> s@ == seq!['-'] + index_text(
                self.shard_number.0,
                self.shard_count.0,
            ),
    {
        let mut s = String::new();
        if self.is_unsharded() {
            return s;
        }
        s.append("-");
        push_byte_hex(&mut s, self.shard_number.0);
        push_byte_hex(&mut s, self.shard_count.0);
        proof {
            reveal_strlit("-");
            assert(s@ =~= seq!['-'] + index_text(self.shard_number.0, self.shard_count.0));
        }
        s
    }

    /// The 4-character textual form, `NNCC`.
    pub fn encode_text(&self) -> (s: String)
        ensures
            s@ == index_text(self.shard_number.0, self.shard_count.0),
    {
        let mut s = String::new();
        push_byte_hex(&mut s, self.shard_number.0);
        push_byte_hex(&mut s, self.shard_count.0);
        proof {
            assert(s@ =~= index_text(self.shard_number.0, self.shard_count.0));
        }
        s
    }

    /// Parses the 4-character textual form.  Fails on any other length and
    /// on any character that is not a hex digit.
    pub fn decode_text(s: &str) -> (r: Result<Self, ParseError>)
        ensures
            index_decode(s@) matches Ok(pair) ==> (r matches Ok(idx) && idx.shard_number.0
                == pair.0 && idx.shard_count.0 == pair.1),
            index_decode(s@) matches Err(e) ==> (r matches Err(e2) && e2 == e),
    {
        let len = s.unicode_len();
        if len != 4 {
            return Err(ParseError::InvalidStringLength);
        }
        match decode_hex_chars(s, 0, 2) {
            Ok(bytes) => {
                proof {
                    assert(s@.subrange(0, 4) =~= s@);
                }
                Ok(ShardIndex { shard_number: ShardNumber(bytes[0]), shard_count: ShardCount(bytes[1]) })
            },
            Err(e) => {
                proof {
                    assert(s@.subrange(0, 4) =~= s@);
                }
                Err(e)
            },
        }
    }

    /// The 2-byte binary form: shard number, then shard count.
    pub fn encode_binary(&self) -> (r: Vec<u8>)
        ensures
            r@ == seq![self.shard_number.0, self.shard_count.0],
    {
        let mut out: Vec<u8> = Vec::new();
        out.push(self.shard_number.0);
        out.push(self.shard_count.0);
        proof {
            assert(out@ =~= seq![self.shard_number.0, self.shard_count.0]);
        }
        out
    }

    /// Reads the 2-byte binary form back, accepting any byte values;
    /// yields nothing for any other length.
    pub fn decode_binary(b: &Vec<u8>) -> (r: Option<Self>)
        ensures
            b@.len() == 2 ==> (r matches Some(idx) && idx.shard_number.0 == b@[0]
                && idx.shard_count.0 == b@[1]),
            b@.len() != 2 ==> r is None,
    {
        if b.len() != 2 {
            return None;
        }
        Some(ShardIndex { shard_number: ShardNumber(b[0]), shard_count: ShardCount(b[1]) })
    }
}

/// Validated membership of one shard in a tenant's shard layout: what the
/// key-routing logic consumes.
#[derive(Clone, Copy, Eq, PartialEq, Debug, Structural)]
pub struct ShardIdentity {
    pub layout: ShardLayout,
    pub number: ShardNumber,
    pub count: ShardCount,
    pub stripe_size: ShardStripeSize,
}

impl ShardIdentity {
    /// The legacy sentinel identity (number and count both zero), with the
    /// current layout and the default stripe size.  Modern single-shard
    /// tenants use number 0 of count 1 instead.
    pub fn unsharded() -> (r: Self)
        ensures
            r == (ShardIdentity {
                layout: ShardLayout(LAYOUT_V1),
                number: ShardNumber(0),
                count: ShardCount(0),
                stripe_size: ShardStripeSize(DEFAULT_STRIPE_SIZE_PAGES),
            }),
    {
        ShardIdentity {
            number: ShardNumber(0),
            count: ShardCount(0),
            layout: ShardLayout(LAYOUT_V1),
            stripe_size: ShardStripeSize(DEFAULT_STRIPE_SIZE_PAGES),
        }
    }

    /// Whether this is the legacy sentinel identity.
    pub open spec fn spec_is_unsharded(&self) -> bool {
        self.number.0 == 0 && self.count.0 == 0
    }

    /// Whether this is the legacy sentinel identity.
    pub fn is_unsharded(&self) -> (r: bool)
        ensures
            r == self.spec_is_unsharded(),
    {
        self.number.0 == 0 && self.count.0 == 0
    }

    /// Builds a validated identity.  The checks run in order and the first
    /// failure wins: a zero count, then a number not below the count, then a
    /// zero stripe size.  On success the identity carries the current layout
    /// version.  The legacy sentinel is deliberately not constructible here:
    /// use `unsharded` for it.
    pub fn new(number: ShardNumber, count: ShardCount, stripe_size: ShardStripeSize) -> (r: Result<
        Self,
        ShardConfigError,
    >)
        ensures
            count.0 == 0 ==> r == Err::<Self, ShardConfigError>(ShardConfigError::InvalidCount),
            count.0 != 0 && number.0 >= count.0 ==> r == Err::<Self, ShardConfigError>(
                ShardConfigError::InvalidNumber,
            ),
            count.0 != 0 && number.0 < count.0 && stripe_size.0 == 0 ==> r == Err::<
                Self,
                ShardConfigError,
            >(ShardConfigError::InvalidStripeSize),
            count.0 != 0 && number.0 < count.0 && stripe_size.0 != 0 ==> r == Ok::<
                Self,
                ShardConfigError,
            >(ShardIdentity {
                layout: ShardLayout(LAYOUT_V1),
                number,
                count,
                stripe_size,
            }),
    {
        if count.0 == 0 {
            Err(ShardConfigError::InvalidCount)
        } else if number.0 > count.0 - 1 {
            Err(ShardConfigError::InvalidNumber)
        } else if stripe_size.0 == 0 {
            Err(ShardConfigError::InvalidStripeSize)
        } else {
            Ok(ShardIdentity { number, count, layout: ShardLayout(LAYOUT_V1), stripe_size })
        }
    }
}

} // verus!
