//! Extraction and validation of the fixed 12-byte header.
//!
//! The header holds, in order, a 16-bit transaction id, the 16-bit flags
//! field, and four 16-bit counts: questions, answer records, authority
//! records, additional records. All fields are big-endian.

pub mod dns_flags;
pub mod errors;

use vstd::prelude::*;

use crate::dns_header::dns_flags::spec_flags_valid;
use crate::dns_header::dns_flags::spec_verify_dns_flags;
use crate::dns_header::dns_flags::verify_dns_flags;
use crate::dns_header::errors::DnsHeaderError;
use crate::utils::read_be16;
use crate::utils::spec_be16;

verus! {

/// The decoded fixed header of a DNS message. A value of this type
/// exists only as the product of a successful 12-byte decode, so its
/// flags always satisfy every legality rule.
#[derive(Clone, Copy, Debug)]
pub struct DnsHeader {
    /// Opaque 16-bit correlation id; any value is legal.
    pub transaction_id: u16,
    /// The validated 16-bit flags field.
    pub flags: u16,
    /// Question, answer, authority and additional record counts, in order.
    pub counts: [u16; 4],
}

/// Why a buffer holds no well-formed header, or `None` when it does.
/// The checks happen in order: the length first, then the flags rules,
/// then the count consistency rule.
pub open spec fn spec_header_error(bytes: Seq<u8>) -> Option<DnsHeaderError> {
    if bytes.len() < 12 {
        Some(DnsHeaderError::PacketTooShort)
    } else if spec_verify_dns_flags(spec_be16(bytes, 2)) is Err {
        Some(DnsHeaderError::FlagsError(spec_verify_dns_flags(spec_be16(bytes, 2))->Err_0))
    } else if spec_be16(bytes, 4) == 0 && (spec_be16(bytes, 6) != 0 || spec_be16(bytes, 8) != 0
        || spec_be16(bytes, 10) != 0) {
        Some(DnsHeaderError::InvalidCounts)
    } else {
        None
    }
}

/// True when `h` holds exactly the fields stored in the first 12 bytes
/// of `bytes`.
pub open spec fn spec_header_matches(bytes: Seq<u8>, h: DnsHeader) -> bool {
    &&& h.transaction_id == spec_be16(bytes, 0)
    &&& h.flags == spec_be16(bytes, 2)
    &&& h.counts@ == seq![
        spec_be16(bytes, 4),
        spec_be16(bytes, 6),
        spec_be16(bytes, 8),
        spec_be16(bytes, 10),
    ]
}

impl DnsHeader {
    /// Decodes the fixed header from the front of `bytes`. Fails on a
    /// buffer shorter than 12 bytes, on a flags field that violates a
    /// legality rule, and on non-zero resource-record counts beside a
    /// zero question count; no partial header is ever produced.
    pub fn try_from(bytes: &[u8]) -> (r: Result<DnsHeader, DnsHeaderError>)
        ensures
            r is Ok <==> spec_header_error(bytes@) is None,
            r matches Ok(h) ==> spec_header_matches(bytes@, h),
            r matches Ok(h) ==> spec_flags_valid(h.flags),
            r matches Err(e) ==> spec_header_error(bytes@) == Some(e),
            bytes@.len() < 12 ==> r == Err::<DnsHeader, DnsHeaderError>(
                DnsHeaderError::PacketTooShort,
            ),
    {
        if bytes.len() < 12 {
            return Err(DnsHeaderError::PacketTooShort);
        }
        let transaction_id = read_be16(bytes, 0);
        let flags = match verify_dns_flags(read_be16(bytes, 2)) {
            Ok(f) => f,
            Err(e) => {
                return Err(DnsHeaderError::FlagsError(e));
            },
        };
        let counts = [
            read_be16(bytes, 4),
            read_be16(bytes, 6),
            read_be16(bytes, 8),
            read_be16(bytes, 10),
        ];
        if counts[0] == 0 && (counts[1] != 0 || counts[2] != 0 || counts[3] != 0) {
            return Err(DnsHeaderError::InvalidCounts);
        }
        proof {
            assert(counts@ =~= seq![
                spec_be16(bytes@, 4),
                spec_be16(bytes@, 6),
                spec_be16(bytes@, 8),
                spec_be16(bytes@, 10),
            ]);
        }
        Ok(DnsHeader { transaction_id, flags, counts })
    }
}

} // verus!
