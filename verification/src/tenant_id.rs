//! The opaque tenant identifier: sixteen raw bytes, rendered as 32 lowercase
//! hex characters.
//!
//! The wider system treats this id as a random fixed-size token.  This module
//! models exactly the interface the shard layer reads: construction from raw
//! bytes, a raw byte view, and the hex parse/format pair.

use vstd::prelude::*;
use crate::hexcode::{
    all_hex, bytes_of_hex, hex_of, hex_string, decode_hex_chars, ParseError,
};

verus! {

/// A tenant identifier: sixteen raw bytes.
#[derive(PartialEq, Eq, PartialOrd, Ord, Hash, Debug)]
pub struct TenantId {
    pub bytes: Vec<u8>,
}

impl View for TenantId {
    type V = Seq<u8>;

    open spec fn view(&self) -> Seq<u8> {
        self.bytes@
    }
}

/// What a 32-character hex string denotes: a tenant id's bytes, or the reason
/// the string is not one.
pub open spec fn tenant_id_decode(s: Seq<char>) -> Result<Seq<u8>, ParseError> {
    if s.len() != 32 {
        Err(ParseError::InvalidStringLength)
    } else if !all_hex(s) {
        Err(ParseError::InvalidHexCharacter)
    } else {
        Ok(bytes_of_hex(s))
    }
}

impl TenantId {
    /// A well-formed tenant id holds exactly sixteen bytes.
    pub open spec fn wf(&self) -> bool {
        self@.len() == 16
    }

    /// Wraps sixteen raw bytes as a tenant id, accepting any byte values.
    pub fn new(bytes: Vec<u8>) -> (r: TenantId)
        requires
            bytes@.len() == 16,
        ensures
            r@ == bytes@,
            r.wf(),
    {
        TenantId { bytes }
    }

    /// The raw sixteen-byte view of this id.
    pub fn as_bytes(&self) -> (r: &Vec<u8>)
        ensures
            r@ == self@,
    {
        &self.bytes
    }

    /// The canonical textual form: 32 lowercase hex characters.
    pub fn to_hex(&self) -> (s: String)
        ensures
            s@ == hex_of(self@),
    {
        hex_string(&self.bytes)
    }

    /// Parses the canonical textual form.  Fails on any length other than 32
    /// and on any character that is not a hex digit; accepts both digit cases.
    pub fn from_hex(s: &str) -> (r: Result<TenantId, ParseError>)
        ensures
            tenant_id_decode(s@) matches Ok(b) ==> (r matches Ok(t) && t@ == b && t.wf()),
            tenant_id_decode(s@) matches Err(e) ==> (r matches Err(e2) && e2 == e),
    {
        let len = s.unicode_len();
        if len != 32 {
            return Err(ParseError::InvalidStringLength);
        }
        match decode_hex_chars(s, 0, 16) {
            Ok(bytes) => {
                proof {
                    assert(s@.subrange(0, 32) =~= s@);
                }
                Ok(TenantId { bytes })
            },
            Err(e) => {
                proof {
                    assert(s@.subrange(0, 32) =~= s@);
                }
                Err(e)
            },
        }
    }
}

impl Clone for TenantId {
    /// Clones the identifier; the copy holds the same bytes.
    fn clone(&self) -> (r: Self)
        ensures
            r@ == self@,
    {
        let bytes = self.bytes.clone();
        proof {
            assert(bytes@ =~= self.bytes@);
        }
        TenantId { bytes }
    }
}

} // verus!
