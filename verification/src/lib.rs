//! Decoder for DNS messages in RFC 1035 wire format.
//!
//! The decoder walks an untrusted byte buffer and produces a typed,
//! fully validated representation of the message, or a structured error
//! that names the first rule the buffer violates. Every read into the
//! buffer is bounds-checked; the decoder never panics on malformed input.
//!
//! Decoding runs strictly top-down: the fixed 12-byte header first
//! (validating the flags field), then one query per question count.
//! Resource-record decoding (answers, authorities, additionals) is not
//! implemented; those slots of a decoded packet are always empty.

pub mod dns_header;
pub mod dns_queries;
pub mod errors;
pub mod utils;

use vstd::prelude::*;
use vstd::slice::slice_subrange;

use crate::dns_header::errors::DnsHeaderError;
use crate::dns_header::spec_header_error;
use crate::dns_header::spec_header_matches;
use crate::dns_header::DnsHeader;
use crate::dns_queries::spec_parse_queries;
use crate::dns_queries::spec_query_matches;
use crate::dns_queries::DnsQueries;
use crate::errors::DnsPacketError;
use crate::utils::dns_class::DnsClass;
use crate::utils::dns_types::DnsType;
use crate::utils::spec_be16;

verus! {

/// A fully decoded DNS message: its header, its queries, and three
/// record slots that stay empty because resource-record decoding is not
/// implemented.
#[derive(Debug)]
pub struct DnsPacket {
    pub header: DnsHeader,
    pub queries: DnsQueries,
    pub answers: Option<Vec<Answer>>,
    pub authorities: Option<Vec<AuthoritativeNameServer>>,
    pub additionals: Option<Vec<AdditionalRecord>>,
}

impl DnsPacket {
    /// Decodes one whole DNS message: the 12-byte header, then exactly
    /// question-count queries from the bytes that follow it. Either
    /// stage's error is returned unchanged in kind, wrapped with the
    /// stage it came from; on success the number of decoded queries
    /// equals the header's question count exactly.
    pub fn try_from(bytes: &[u8]) -> (r: Result<DnsPacket, DnsPacketError>)
        ensures
            (match spec_header_error(bytes@) {
                Some(e) => r == Err::<DnsPacket, DnsPacketError>(DnsPacketError::HeaderError(e)),
                None => (match spec_parse_queries(bytes@.skip(12), 0, spec_be16(bytes@, 4) as nat) {
                    Ok(p) => {
                        &&& r matches Ok(pk)
                        &&& spec_header_matches(bytes@, pk.header)
                        &&& pk.queries.queries@.len() == spec_be16(bytes@, 4)
                        &&& forall|i: int|
                            0 <= i < p.0.len() ==> #[trigger] spec_query_matches(
                                pk.queries.queries@[i],
                                p.0[i],
                            )
                        &&& pk.answers is None
                        &&& pk.authorities is None
                        &&& pk.additionals is None
                    },
                    Err(e) => r == Err::<DnsPacket, DnsPacketError>(DnsPacketError::QueryError(e)),
                }),
            }),
            r matches Ok(pk) ==> pk.queries.queries@.len() == pk.header.counts@[0],
            bytes@.len() < 12 ==> r == Err::<DnsPacket, DnsPacketError>(
                DnsPacketError::HeaderError(DnsHeaderError::PacketTooShort),
            ),
    {
        let header = match DnsHeader::try_from(bytes) {
            Ok(h) => h,
            Err(e) => {
                return Err(DnsPacketError::HeaderError(e));
            },
        };
        let rest = slice_subrange(bytes, 12, bytes.len());
        proof {
            assert(rest@ =~= bytes@.skip(12));
        }
        let queries = match DnsQueries::from_bytes(rest, header.counts[0]) {
            Ok(q) => q,
            Err(e) => {
                return Err(DnsPacketError::QueryError(e));
            },
        };
        proof {
            if spec_parse_queries(bytes@.skip(12), 0, spec_be16(bytes@, 4) as nat) is Ok {
                dns_queries::lemma_parse_queries_len(
                    bytes@.skip(12),
                    0,
                    spec_be16(bytes@, 4) as nat,
                );
            }
        }
        Ok(DnsPacket { header, queries, answers: None, authorities: None, additionals: None })
    }
}

/// An answer record slot. Resource-record decoding is not implemented,
/// so values of this type are never produced by the decoder; the type
/// only fixes the shape a future decoder would fill.
#[derive(Debug)]
pub struct Answer {
    name: String,
    answer_type: DnsType,
    answer_class: DnsClass,
    ttl: u32,
    data_length: u16,
    address: Vec<u8>,
}

/// An authority record slot; never produced, see `Answer`.
#[derive(Debug)]
pub struct AuthoritativeNameServer {
    name: String,
    answer_type: DnsType,
    answer_class: DnsClass,
    ttl: u32,
    data_length: u16,
    address: Vec<u8>,
}

/// An additional record slot; never produced, see `Answer`.
#[derive(Debug)]
pub struct AdditionalRecord {
    name: String,
    answer_type: DnsType,
    answer_class: DnsClass,
    ttl: u32,
    data_length: u16,
    address: Vec<u8>,
}

} // verus!
