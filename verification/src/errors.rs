//! The top-level error of a whole-packet decode: each stage's error is
//! passed through unchanged in kind, wrapped with the stage it came from.

use vstd::prelude::*;
use vstd::string::StringExecFns;

use crate::dns_header::errors::spec_header_error_message;
use crate::dns_header::errors::DnsHeaderError;
use crate::dns_queries::errors::spec_query_error_message;
use crate::dns_queries::errors::DnsQueryParseError;
use crate::utils::decimal_string;
use crate::utils::spec_decimal;

verus! {

/// Why a buffer holds no well-formed packet.
#[derive(Clone, Copy, Debug, PartialEq, Eq, Structural)]
pub enum DnsPacketError {
    /// The buffer is shorter than a decoding stage requires.
    InsufficientData { expected: usize, actual: usize },
    /// The fixed header failed to decode.
    HeaderError(DnsHeaderError),
    /// The question section failed to decode.
    QueryError(DnsQueryParseError),
}

/// The diagnostic text for each packet error.
pub open spec fn spec_packet_error_message(e: DnsPacketError) -> Seq<char> {
    match e {
        DnsPacketError::InsufficientData { expected, actual } => "Insufficient data: expected at least "@
            + spec_decimal(expected as nat) + " bytes, but got "@ + spec_decimal(actual as nat),
        DnsPacketError::HeaderError(inner) => "DNS header parsing error: "@
            + spec_header_error_message(inner),
        DnsPacketError::QueryError(inner) => "DNS Query parsing error: "@
            + spec_query_error_message(inner),
    }
}

impl DnsPacketError {
    /// The diagnostic text for this error.
    pub fn message(&self) -> (s: String)
        ensures
            s@ == spec_packet_error_message(*self),
    {
        match self {
            DnsPacketError::InsufficientData { expected, actual } => {
                let mut s = String::from_str("Insufficient data: expected at least ");
                s.append(decimal_string(*expected as u64).as_str());
                s.append(" bytes, but got ");
                s.append(decimal_string(*actual as u64).as_str());
                s
            },
            DnsPacketError::HeaderError(inner) => {
                let mut s = String::from_str("DNS header parsing error: ");
                s.append(inner.message().as_str());
                s
            },
            DnsPacketError::QueryError(inner) => {
                let mut s = String::from_str("DNS Query parsing error: ");
                s.append(inner.message().as_str());
                s
            },
        }
    }
}

} // verus!
