//! A safe control layer over the Hypervisor framework: the error domain, the
//! register identifiers, the guest-memory allocation and mapping trackers of a
//! virtual machine, and the decoding of virtual CPU exits.
//!
//! The native calls themselves are made by the caller; this library decides
//! what each call must be, and what its answer means.
use vstd::prelude::*;

pub mod err;
pub mod page_buffer;
pub mod reg;
pub mod vcpu;
pub mod virtual_machine;

pub use err::{convert_hv_result, convert_hv_return, HypervisorError};
pub use reg::{FeatureRegister, Register, SystemRegister};
pub use vcpu::{
    CacheType, ExitException, InterruptType, VirtualCpu, VirtualCpuExit, VirtualCpuExitReason,
};
pub use virtual_machine::{
    AllocationHandle, MapRequest, MappingHandle, MemoryPermission, VirtualMachine,
    VirtualMachineConfiguration, VirtualMachineMapping, PAGE_SIZE,
};

verus! {

} // verus!
