//! The ways the question section can fail to decode.

use vstd::prelude::*;
use vstd::string::StringExecFns;

use crate::utils::decimal_string;
use crate::utils::spec_decimal;

verus! {

/// Why a query could not be decoded, with the numeric context a caller
/// needs to diagnose the failure.
#[derive(Clone, Copy, Debug, PartialEq, Eq, Structural)]
pub enum DnsQueryParseError {
    /// Fewer bytes remain than the fixed fields after a name require.
    InsufficientData { required: usize, offset: usize, available: usize },
    /// A read would run past the end of the buffer.
    OutOfBoundParse,
    /// A label's bytes are not valid UTF-8; `offset` and `length` locate
    /// the offending label's content in the buffer.
    Utf8Error { offset: usize, length: usize },
}

/// The diagnostic text for each query error.
pub open spec fn spec_query_error_message(e: DnsQueryParseError) -> Seq<char> {
    match e {
        DnsQueryParseError::InsufficientData { required, offset, available } => "Insufficient data: required "@
            + spec_decimal(required as nat) + " more bytes at offset "@ + spec_decimal(offset as nat)
            + ", but only "@ + spec_decimal(available as nat) + " bytes available"@,
        DnsQueryParseError::OutOfBoundParse => "Out of bound parse"@,
        DnsQueryParseError::Utf8Error { offset, length } => "UTF-8 parsing error: invalid byte sequence at offset "@
            + spec_decimal(offset as nat) + ", length "@ + spec_decimal(length as nat),
    }
}

impl DnsQueryParseError {
    /// The diagnostic text for this error.
    pub fn message(&self) -> (s: String)
        ensures
            s@ == spec_query_error_message(*self),
    {
        match self {
            DnsQueryParseError::InsufficientData { required, offset, available } => {
                let mut s = String::from_str("Insufficient data: required ");
                s.append(decimal_string(*required as u64).as_str());
                s.append(" more bytes at offset ");
                s.append(decimal_string(*offset as u64).as_str());
                s.append(", but only ");
                s.append(decimal_string(*available as u64).as_str());
                s.append(" bytes available");
                s
            },
            DnsQueryParseError::OutOfBoundParse => String::from_str("Out of bound parse"),
            DnsQueryParseError::Utf8Error { offset, length } => {
                let mut s = String::from_str(
                    "UTF-8 parsing error: invalid byte sequence at offset ",
                );
                s.append(decimal_string(*offset as u64).as_str());
                s.append(", length ");
                s.append(decimal_string(*length as u64).as_str());
                s
            },
        }
    }
}

} // verus!
