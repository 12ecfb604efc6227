//! Hypercall-driven inter-VM communication layer of a hypervisor.
//!
//! Guest virtual machines request shared-memory channels and byte-stream
//! console links to other VMs, and cross-VM interrupt delivery, through a
//! trap-and-dispatch hypercall interface.  The crate holds the two core
//! pieces: a reference-counted console connection table that keeps its two
//! mirrored directional views consistent, and a hypercall dispatcher that
//! decodes a fixed-width argument vector and runs one of several protocols
//! against the table and the surrounding collaborators.

use vstd::prelude::*;

pub mod console;
pub mod hvc;
pub mod palloc;

verus! {

/// Granularity of the page allocator and of every shared-memory mapping.
pub const PAGE_SIZE: usize = 4096;

/// Failure conditions that a hypercall or a table operation can surface
/// to the guest as its result code.
#[derive(Clone, Copy, PartialEq, Eq, Structural, Debug)]
pub enum HvError {
    /// A malformed request: bad opcode or argument count out of range.
    InvalidInput,
    /// The page allocator or a guest window reservation was exhausted.
    OutOfMemory,
    /// A channel or connection that the operation requires does not exist.
    NotFound,
    /// The opcode decoded but names a protocol this subsystem does not run.
    Unsupported,
    /// An address-space update was refused by the owning VM.
    MappingFailure,
}

} // verus!
