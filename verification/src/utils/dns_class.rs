//! The record-class code of a query.

use vstd::prelude::*;

verus! {

/// A raw 16-bit DNS record-class code. Equality is by code; the code is
/// not checked against any registry of assigned classes.
#[derive(Clone, Copy, Debug, PartialEq, Eq, Structural)]
pub struct DnsClass(pub u16);

impl DnsClass {
    /// Wraps a raw class code.
    pub fn new(code: u16) -> (c: DnsClass)
        ensures
            c.0 == code,
    {
        DnsClass(code)
    }
}

} // verus!
