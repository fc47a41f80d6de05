//! The ways a 16-bit flags field can violate the legality rules.

use vstd::prelude::*;
use vstd::string::StringExecFns;

use crate::utils::decimal_string;
use crate::utils::spec_decimal;

verus! {

/// The first rule violated by a flags field, with the offending
/// sub-field value(s), so that callers can diagnose programmatically.
#[derive(Clone, Copy, Debug, PartialEq, Eq, Structural)]
pub enum DnsFlagsError {
    /// The reserved Z field is not zero.
    InvalidZField(u16),
    /// The opcode is outside the assigned range 0 to 5.
    InvalidOpcode(u16),
    /// The response code is outside the assigned range 0 to 5.
    InvalidRCode(u16),
    /// The recursion-available bit is set in a query.
    RaInQuery(u16),
    /// A STATUS response carries an authoritative-answer or truncation bit.
    AaTcInStatusResponse(u16, u16),
    /// A server-failure response claims to be authoritative.
    AaInServerFailure(u16),
    /// A name-error response does not claim to be authoritative.
    AaInNameError(u16),
    /// A refused response claims to be authoritative.
    AaInRefused(u16),
}

/// The diagnostic text for each flags error.
pub open spec fn spec_flags_error_message(e: DnsFlagsError) -> Seq<char> {
    match e {
        DnsFlagsError::InvalidZField(z) => "Invalid Z field, must be 0. Here it's: "@ + spec_decimal(
            z as nat,
        ),
        DnsFlagsError::InvalidOpcode(op) => "Invalid Opcode, must be between 0 and 5. Here it's: "@
            + spec_decimal(op as nat),
        DnsFlagsError::InvalidRCode(rc) => "Invalid RCode, must be between 0 and 5. Here it's: "@
            + spec_decimal(rc as nat),
        DnsFlagsError::RaInQuery(ra) => "RA must be 0 in queries. Here it's: "@ + spec_decimal(
            ra as nat,
        ),
        DnsFlagsError::AaTcInStatusResponse(aa, tc) => "AA and TC must be 0 in STATUS responses. Here AA is: "@
            + spec_decimal(aa as nat) + ", TC is: "@ + spec_decimal(tc as nat),
        DnsFlagsError::AaInServerFailure(aa) => "Rcode = 2 so AA must be 0 in Server failure responses. Here it's: "@
            + spec_decimal(aa as nat),
        DnsFlagsError::AaInNameError(aa) => "Rcode = 3 AA must be 1 in Name Error responses. Here it's: "@
            + spec_decimal(aa as nat),
        DnsFlagsError::AaInRefused(aa) => "Rcode = 5 AA must be 0 in Refused responses. Here it's: "@
            + spec_decimal(aa as nat),
    }
}

impl DnsFlagsError {
    /// The diagnostic text for this error.
    pub fn message(&self) -> (s: String)
        ensures
            s@ == spec_flags_error_message(*self),
    {
        match self {
            DnsFlagsError::InvalidZField(z) => {
                let mut s = String::from_str("Invalid Z field, must be 0. Here it's: ");
                s.append(decimal_string(*z as u64).as_str());
                s
            },
            DnsFlagsError::InvalidOpcode(op) => {
                let mut s = String::from_str("Invalid Opcode, must be between 0 and 5. Here it's: ");
                s.append(decimal_string(*op as u64).as_str());
                s
            },
            DnsFlagsError::InvalidRCode(rc) => {
                let mut s = String::from_str("Invalid RCode, must be between 0 and 5. Here it's: ");
                s.append(decimal_string(*rc as u64).as_str());
                s
            },
            DnsFlagsError::RaInQuery(ra) => {
                let mut s = String::from_str("RA must be 0 in queries. Here it's: ");
                s.append(decimal_string(*ra as u64).as_str());
                s
            },
            DnsFlagsError::AaTcInStatusResponse(aa, tc) => {
                let mut s = String::from_str("AA and TC must be 0 in STATUS responses. Here AA is: ");
                s.append(decimal_string(*aa as u64).as_str());
                s.append(", TC is: ");
                s.append(decimal_string(*tc as u64).as_str());
                s
            },
            DnsFlagsError::AaInServerFailure(aa) => {
                let mut s = String::from_str(
                    "Rcode = 2 so AA must be 0 in Server failure responses. Here it's: ",
                );
                s.append(decimal_string(*aa as u64).as_str());
                s
            },
            DnsFlagsError::AaInNameError(aa) => {
                let mut s = String::from_str(
                    "Rcode = 3 AA must be 1 in Name Error responses. Here it's: ",
                );
                s.append(decimal_string(*aa as u64).as_str());
                s
            },
            DnsFlagsError::AaInRefused(aa) => {
                let mut s = String::from_str(
                    "Rcode = 5 AA must be 0 in Refused responses. Here it's: ",
                );
                s.append(decimal_string(*aa as u64).as_str());
                s
            },
        }
    }
}

} // verus!
