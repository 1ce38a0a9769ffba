//! The register accesses the driver asks its caller to perform.
use vstd::prelude::*;

verus! {

/// One access to the device's registers.
#[derive(Clone, Copy, Debug, PartialEq, Eq, Structural)]
pub enum RegOp {
    /// Write `value` to the memory-mapped register at `offset`.
    MmioWrite { offset: usize, value: u32 },
    /// Read the memory-mapped register at `offset`.
    MmioRead { offset: usize },
    /// Write `value` to the I/O-port window at `port` (address or data port).
    PortWrite { port: usize, value: u32 },
    /// Sleep for `ms` milliseconds.
    Delay { ms: u32 },
}

/// A register access failed because the mapping is not valid.
#[derive(Clone, Copy, Debug, PartialEq, Eq, Structural)]
pub enum HwError {
    Access,
}

} // verus!
