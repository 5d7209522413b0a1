//! Firmware-table-driven discovery of CXL devices.
//!
//! The crate parses the ACPI CEDT and SRAT tables out of raw firmware
//! bytes, enumerates a PCI bus hierarchy through a configuration-space
//! abstraction, and decodes the CXL capability chains and DVSEC register
//! layouts that locate a device's component registers and HDM decoders.

use vstd::prelude::*;

pub mod arbmux;
mod bits;
pub mod bytes;
pub mod cedt;
pub mod component;
pub mod cxl;
pub mod dsdt;
pub mod dvsec;
pub mod pci;
pub mod srat;
pub mod ssdt;
pub mod tables;

verus! {

/// Platform page size: every physical window handed to the memory mapper
/// is measured in 4 KiB frames.
pub const PAGE_SIZE: u64 = 4096;

/// Failures surfaced by the parsers and decoders.
///
/// A configuration-space read of an absent device is *not* an error: it
/// returns the all-ones sentinel and callers test for it.
#[derive(Clone, Copy, Debug, PartialEq, Eq, Structural)]
pub enum CxlError {
    /// The firmware table with the requested signature is absent.
    TableNotFound,
    /// A record's declared length is zero, runs past the table end, or the
    /// record header itself does not fit in the remaining bytes.
    MalformedRecord,
    /// A base address fails the platform's frame-alignment precondition.
    UnalignedAddress,
    /// A capability or DVSEC tag that a caller cannot work with.  The
    /// decoders themselves keep unknown tags as explicit variants, so this
    /// is for callers that must surface one as a failure.
    UnsupportedCapability,
}

/// A physical window measured in whole 4 KiB frames: the addresses from
/// `start` (inclusive) to `end` (exclusive).
#[derive(Clone, Copy, Debug, PartialEq, Eq, Structural)]
pub struct PhysFrameRange {
    pub start: u64,
    pub end: u64,
}

/// Turns a base address and a byte length into a frame range.
///
/// Fails with `UnalignedAddress` when the base does not sit on a frame
/// boundary; the end covers the whole frames that fit in `length` bytes.
pub fn frame_range(base: u64, length: u64) -> (r: Result<PhysFrameRange, CxlError>)
    requires
        base + length <= u64::MAX,
    ensures
        r is Ok <==> base % PAGE_SIZE == 0,
        r matches Ok(pr) ==> pr == (PhysFrameRange {
            start: base,
            end: (base + (length / PAGE_SIZE) * PAGE_SIZE) as u64,
        }),
        r matches Err(e) ==> e == CxlError::UnalignedAddress,
{
    if base % PAGE_SIZE != 0 {
        return Err(CxlError::UnalignedAddress);
    }
    let frames = length / PAGE_SIZE;
    proof {
        assert((length / PAGE_SIZE) * PAGE_SIZE <= length) by (nonlinear_arith)
            requires length >= 0,
        ;
    }
    Ok(PhysFrameRange { start: base, end: base + frames * PAGE_SIZE })
}

} // verus!
