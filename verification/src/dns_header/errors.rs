//! The ways a fixed 12-byte header can fail to decode.

use vstd::prelude::*;
use vstd::string::StringExecFns;

use crate::dns_header::dns_flags::errors::spec_flags_error_message;
use crate::dns_header::dns_flags::errors::DnsFlagsError;

verus! {

/// Why a buffer holds no well-formed header.
#[derive(Clone, Copy, Debug, PartialEq, Eq, Structural)]
pub enum DnsHeaderError {
    /// Fewer than the 12 bytes a header occupies were supplied.
    PacketTooShort,
    /// A resource-record count is non-zero while the question count is zero.
    InvalidCounts,
    /// The flags field violates a legality rule.
    FlagsError(DnsFlagsError),
}

/// The diagnostic text for each header error.
pub open spec fn spec_header_error_message(e: DnsHeaderError) -> Seq<char> {
    match e {
        DnsHeaderError::PacketTooShort => "Packet too short to be a DNS packet"@,
        DnsHeaderError::InvalidCounts => "Invalid DNS packet: non-zero resource record counts with zero questions"@,
        DnsHeaderError::FlagsError(inner) => "DNS Flags parsing error: "@ + spec_flags_error_message(
            inner,
        ),
    }
}

impl DnsHeaderError {
    /// The diagnostic text for this error.
    pub fn message(&self) -> (s: String)
        ensures
            s@ == spec_header_error_message(*self),
    {
        match self {
            DnsHeaderError::PacketTooShort => String::from_str(
                "Packet too short to be a DNS packet",
            ),
            DnsHeaderError::InvalidCounts => String::from_str(
                "Invalid DNS packet: non-zero resource record counts with zero questions",
            ),
            DnsHeaderError::FlagsError(inner) => {
                let mut s = String::from_str("DNS Flags parsing error: ");
                s.append(inner.message().as_str());
                s
            },
        }
    }
}

} // verus!
