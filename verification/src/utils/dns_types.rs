//! The record-type code of a query.

use vstd::prelude::*;

verus! {

/// A raw 16-bit DNS record-type code. Equality is by code; the code is
/// not checked against any registry of assigned types.
#[derive(Clone, Copy, Debug, PartialEq, Eq, Structural)]
pub struct DnsType(pub u16);

impl DnsType {
    /// Wraps a raw type code.
    pub fn new(code: u16) -> (t: DnsType)
        ensures
            t.0 == code,
    {
        DnsType(code)
    }
}

} // verus!
