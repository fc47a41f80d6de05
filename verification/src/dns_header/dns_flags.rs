//! Decomposition and validation of the 16-bit flags field of a DNS header.
//!
//! The field packs eight sub-fields, most significant bit first:
//! QR (1 bit), Opcode (4), AA (1), TC (1), RD (1), RA (1), Z (3), RCode (4).
//! Validation applies the legality rules in a fixed order and fails fast
//! on the first violation:
//! 1. the reserved Z field must be zero;
//! 2. the opcode must be one of the assigned values 0 to 5;
//! 3. the response code must be one of the assigned values 0 to 5;
//! 4. a query (QR = 0) must not set RA, which is response-only;
//! 5. in a response (QR = 1): a STATUS response (opcode 2) must not set
//!    AA or TC; a server-failure response (rcode 2) must not set AA; a
//!    name-error response (rcode 3) must set AA; a refused response
//!    (rcode 5) must not set AA.

pub mod errors;

use vstd::prelude::*;

use crate::dns_header::dns_flags::errors::DnsFlagsError;

verus! {

/// The QR bit: 0 for a query, 1 for a response.
pub open spec fn spec_qr(flags: u16) -> u16 {
    (flags >> 15) & 0b1
}

/// The 4-bit opcode, the type of the message.
pub open spec fn spec_opcode(flags: u16) -> u16 {
    (flags >> 11) & 0b1111
}

/// The authoritative-answer bit.
pub open spec fn spec_aa(flags: u16) -> u16 {
    (flags >> 10) & 0b1
}

/// The truncation bit.
pub open spec fn spec_tc(flags: u16) -> u16 {
    (flags >> 9) & 0b1
}

/// The recursion-desired bit.
pub open spec fn spec_rd(flags: u16) -> u16 {
    (flags >> 8) & 0b1
}

/// The recursion-available bit.
pub open spec fn spec_ra(flags: u16) -> u16 {
    (flags >> 7) & 0b1
}

/// The 3-bit reserved Z field.
pub open spec fn spec_z(flags: u16) -> u16 {
    (flags >> 4) & 0b111
}

/// The 4-bit response code.
pub open spec fn spec_rcode(flags: u16) -> u16 {
    flags & 0b1111
}

/// The outcome of the response-only rules, checked in order: STATUS
/// responses carry neither AA nor TC; AA must be clear on server failure,
/// set on name error, and clear on refusal.
pub open spec fn spec_verify_response_flags(opcode: u16, aa: u16, tc: u16, rcode: u16) -> Result<
    (),
    DnsFlagsError,
> {
    if opcode == 2 && (aa != 0 || tc != 0) {
        Err(DnsFlagsError::AaTcInStatusResponse(aa, tc))
    } else if rcode == 2 && aa != 0 {
        Err(DnsFlagsError::AaInServerFailure(aa))
    } else if rcode == 3 && aa != 1 {
        Err(DnsFlagsError::AaInNameError(aa))
    } else if rcode == 5 && aa != 0 {
        Err(DnsFlagsError::AaInRefused(aa))
    } else {
        Ok(())
    }
}

/// The outcome of validating a flags field: the value itself when every
/// rule holds, otherwise the first rule violated, in checking order.
pub open spec fn spec_verify_dns_flags(flags: u16) -> Result<u16, DnsFlagsError> {
    if spec_z(flags) != 0 {
        Err(DnsFlagsError::InvalidZField(spec_z(flags)))
    } else if spec_opcode(flags) > 5 {
        Err(DnsFlagsError::InvalidOpcode(spec_opcode(flags)))
    } else if spec_rcode(flags) > 5 {
        Err(DnsFlagsError::InvalidRCode(spec_rcode(flags)))
    } else if spec_qr(flags) == 0 && spec_ra(flags) != 0 {
        Err(DnsFlagsError::RaInQuery(spec_ra(flags)))
    } else if spec_qr(flags) == 1 {
        match spec_verify_response_flags(
            spec_opcode(flags),
            spec_aa(flags),
            spec_tc(flags),
            spec_rcode(flags),
        ) {
            Ok(()) => Ok(flags),
            Err(e) => Err(e),
        }
    } else {
        Ok(flags)
    }
}

/// True when the flags field satisfies every legality rule.
pub open spec fn spec_flags_valid(flags: u16) -> bool {
    &&& spec_z(flags) == 0
    &&& spec_opcode(flags) <= 5
    &&& spec_rcode(flags) <= 5
    &&& (spec_qr(flags) == 0 ==> spec_ra(flags) == 0)
    &&& (spec_qr(flags) == 1 ==> {
        &&& (spec_opcode(flags) == 2 ==> spec_aa(flags) == 0 && spec_tc(flags) == 0)
        &&& (spec_rcode(flags) == 2 ==> spec_aa(flags) == 0)
        &&& (spec_rcode(flags) == 3 ==> spec_aa(flags) == 1)
        &&& (spec_rcode(flags) == 5 ==> spec_aa(flags) == 0)
    })
}

/// A flags field satisfies every legality rule exactly when validation
/// accepts it — and then it is returned unchanged, never normalized.
pub proof fn lemma_valid_flags_accepted(flags: u16)
    ensures
        spec_flags_valid(flags) <==> spec_verify_dns_flags(flags) == Ok::<u16, DnsFlagsError>(
            flags,
        ),
{
}

/// A flags field whose reserved Z field is not zero is rejected with
/// exactly that Z value, whatever the other sub-fields hold.
pub proof fn lemma_nonzero_z_rejected(flags: u16)
    requires
        spec_z(flags) != 0,
    ensures
        spec_verify_dns_flags(flags) == Err::<u16, DnsFlagsError>(
            DnsFlagsError::InvalidZField(spec_z(flags)),
        ),
{
}

/// Splits a flags field into its eight sub-fields, most significant first:
/// QR, Opcode, AA, TC, RD, RA, Z, RCode.
pub fn extract_dns_flags(flags: u16) -> (r: (u16, u16, u16, u16, u16, u16, u16, u16))
    ensures
        r.0 == spec_qr(flags),
        r.1 == spec_opcode(flags),
        r.2 == spec_aa(flags),
        r.3 == spec_tc(flags),
        r.4 == spec_rd(flags),
        r.5 == spec_ra(flags),
        r.6 == spec_z(flags),
        r.7 == spec_rcode(flags),
{
    let qr = (flags >> 15) & 0b1;
    let opcode = (flags >> 11) & 0b1111;
    let aa = (flags >> 10) & 0b1;
    let tc = (flags >> 9) & 0b1;
    let rd = (flags >> 8) & 0b1;
    let ra = (flags >> 7) & 0b1;
    let z = (flags >> 4) & 0b111;
    let rcode = flags & 0b1111;
    (qr, opcode, aa, tc, rd, ra, z, rcode)
}

/// Rejects a non-zero reserved Z field.
pub fn verify_z_field(z: u16) -> (r: Result<(), DnsFlagsError>)
    ensures
        r == (if z != 0 {
            Err::<(), DnsFlagsError>(DnsFlagsError::InvalidZField(z))
        } else {
            Ok::<(), DnsFlagsError>(())
        }),
{
    if z != 0 {
        return Err(DnsFlagsError::InvalidZField(z));
    }
    Ok(())
}

/// Rejects an opcode outside the assigned range 0 to 5.
pub fn verify_opcode(opcode: u16) -> (r: Result<(), DnsFlagsError>)
    ensures
        r == (if opcode > 5 {
            Err::<(), DnsFlagsError>(DnsFlagsError::InvalidOpcode(opcode))
        } else {
            Ok::<(), DnsFlagsError>(())
        }),
{
    if opcode > 5 {
        return Err(DnsFlagsError::InvalidOpcode(opcode));
    }
    Ok(())
}

/// Rejects a response code outside the assigned range 0 to 5.
pub fn verify_rcode(rcode: u16) -> (r: Result<(), DnsFlagsError>)
    ensures
        r == (if rcode > 5 {
            Err::<(), DnsFlagsError>(DnsFlagsError::InvalidRCode(rcode))
        } else {
            Ok::<(), DnsFlagsError>(())
        }),
{
    if rcode > 5 {
        return Err(DnsFlagsError::InvalidRCode(rcode));
    }
    Ok(())
}

/// Rejects a query that sets the response-only RA bit.
pub fn verify_ra_in_query(qr: u16, ra: u16) -> (r: Result<(), DnsFlagsError>)
    ensures
        r == (if qr == 0 && ra != 0 {
            Err::<(), DnsFlagsError>(DnsFlagsError::RaInQuery(ra))
        } else {
            Ok::<(), DnsFlagsError>(())
        }),
{
    if qr == 0 && ra != 0 {
        return Err(DnsFlagsError::RaInQuery(ra));
    }
    Ok(())
}

/// Applies the rules that hold only of responses.
pub fn verify_response_flags(opcode: u16, aa: u16, tc: u16, rcode: u16) -> (r: Result<
    (),
    DnsFlagsError,
>)
    ensures
        r == spec_verify_response_flags(opcode, aa, tc, rcode),
{
    if opcode == 2 && (aa != 0 || tc != 0) {
        return Err(DnsFlagsError::AaTcInStatusResponse(aa, tc));
    }
    if rcode == 2 && aa != 0 {
        return Err(DnsFlagsError::AaInServerFailure(aa));
    }
    if rcode == 3 && aa != 1 {
        return Err(DnsFlagsError::AaInNameError(aa));
    }
    if rcode == 5 && aa != 0 {
        return Err(DnsFlagsError::AaInRefused(aa));
    }
    Ok(())
}

/// Validates a flags field against every legality rule, in order, and
/// returns the value unchanged when all of them hold.
pub fn verify_dns_flags(flags: u16) -> (r: Result<u16, DnsFlagsError>)
    ensures
        r == spec_verify_dns_flags(flags),
        spec_flags_valid(flags) ==> r == Ok::<u16, DnsFlagsError>(flags),
{
    let (qr, opcode, aa, tc, _rd, ra, z, rcode) = extract_dns_flags(flags);

    if let Err(e) = verify_z_field(z) {
        return Err(e);
    }
    if let Err(e) = verify_opcode(opcode) {
        return Err(e);
    }
    if let Err(e) = verify_rcode(rcode) {
        return Err(e);
    }
    if let Err(e) = verify_ra_in_query(qr, ra) {
        return Err(e);
    }
    if qr == 1 {
        if let Err(e) = verify_response_flags(opcode, aa, tc, rcode) {
            return Err(e);
        }
    }
    Ok(flags)
}

} // verus!
