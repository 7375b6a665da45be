//! Fault taxonomy of the emulator core.
//!
//! Every failure of decode or bus dispatch is explicit: a fault propagates to
//! the caller of the single-step operation as a typed result, never as an
//! uncontrolled abort.
use vstd::prelude::*;

verus! {

use vstd::string::StringExecFns;

use crate::render::dec_string;
use crate::render::hex_padded8_string;
use crate::render::hex_string;
use crate::render::spec_dec_digits;
use crate::render::spec_hex;
use crate::render::spec_hex_padded8;

/// A fault raised by instruction decode or by a bus access.
///
/// Each variant carries the value that provoked it, so a front-end can report
/// the exact address or instruction word at fault.
#[derive(Clone, Copy, Debug, PartialEq, Eq, Structural)]
pub enum PsemuCoreError {
    /// A load or store address that is not a multiple of 4.
    UnalignedAddress(u32),
    /// An address that no device mapping claims.
    UnmappedAddress(u32),
    /// A write to a validated configuration register whose value does not
    /// match the register's single hardcoded legal value; carries the
    /// offending address and value.
    InvalidConfigurationWrite(u32, u32),
    /// An instruction word whose primary opcode has no table entry.
    UnknownInstruction(u32),
    /// An instruction word under the extended primary opcode whose secondary
    /// opcode has no table entry.
    UnknownSecondaryOpInstruction(u32),
}

/// The description of a fault, character for character.
pub open spec fn spec_message(e: PsemuCoreError) -> Seq<char> {
    match e {
        PsemuCoreError::UnalignedAddress(a) => "Addr "@ + spec_dec_digits(a) + " is not aligned"@,
        PsemuCoreError::UnmappedAddress(a) => "Addr "@ + spec_dec_digits(a)
            + " not in range for any peripheral"@,
        PsemuCoreError::InvalidConfigurationWrite(a, _v) => if a
            == crate::bus::MEM_CONTROL_START {
            "Attempted to set bad expansion 1 base address "@ + spec_hex(a)
        } else {
            "Attempted to set bad expansion 2 base address "@ + spec_hex(a)
        },
        PsemuCoreError::UnknownInstruction(w) => "Unknown instruction "@ + spec_hex_padded8(w),
        PsemuCoreError::UnknownSecondaryOpInstruction(w) => "Unknown secondary-op instruction "@
            + spec_hex_padded8(w),
    }
}

impl PsemuCoreError {
    /// A human-readable description of the fault, for a front-end to report.
    pub fn message(&self) -> (s: String)
        ensures
            s@ == spec_message(*self),
    {
        match *self {
            PsemuCoreError::UnalignedAddress(a) => {
                let mut s = String::from_str("Addr ");
                s.append(dec_string(a).as_str());
                s.append(" is not aligned");
                proof {
                    assert(s@ =~= spec_message(*self));
                }
                s
            },
            PsemuCoreError::UnmappedAddress(a) => {
                let mut s = String::from_str("Addr ");
                s.append(dec_string(a).as_str());
                s.append(" not in range for any peripheral");
                proof {
                    assert(s@ =~= spec_message(*self));
                }
                s
            },
            PsemuCoreError::InvalidConfigurationWrite(a, _v) => {
                let mut s = if a == crate::bus::MEM_CONTROL_START {
                    String::from_str("Attempted to set bad expansion 1 base address ")
                } else {
                    String::from_str("Attempted to set bad expansion 2 base address ")
                };
                s.append(hex_string(a).as_str());
                proof {
                    assert(s@ =~= spec_message(*self));
                }
                s
            },
            PsemuCoreError::UnknownInstruction(w) => {
                let mut s = String::from_str("Unknown instruction ");
                s.append(hex_padded8_string(w).as_str());
                proof {
                    assert(s@ =~= spec_message(*self));
                }
                s
            },
            PsemuCoreError::UnknownSecondaryOpInstruction(w) => {
                let mut s = String::from_str("Unknown secondary-op instruction ");
                s.append(hex_padded8_string(w).as_str());
                proof {
                    assert(s@ =~= spec_message(*self));
                }
                s
            },
        }
    }
}

} // verus!
