//! Virtual CPUs: cache and interrupt types, and the decoding of the exit
//! record that the native layer fills when a run returns.
//!
//! Running a virtual CPU and reading or writing its registers are native
//! calls made by the caller, on the thread that owns the virtual CPU; what
//! they answer is handed back here to be checked and decoded.
use vstd::prelude::*;

use crate::err::{convert_hv_return, error_of, HypervisorError, HV_SUCCESS};

verus! {

/// Native cache type: data cache.
pub const HV_CACHE_TYPE_DATA: u32 = 0;

/// Native cache type: instruction cache.
pub const HV_CACHE_TYPE_INSTRUCTION: u32 = 1;

/// Native interrupt type: IRQ.
pub const HV_INTERRUPT_TYPE_IRQ: u32 = 0;

/// Native interrupt type: FIQ.
pub const HV_INTERRUPT_TYPE_FIQ: u32 = 1;

/// Native exit reason: an asynchronous exit was requested.
pub const HV_EXIT_REASON_CANCELED: u32 = 0;

/// Native exit reason: the guest raised an exception.
pub const HV_EXIT_REASON_EXCEPTION: u32 = 1;

/// Native exit reason: the virtual timer entered the pending state.
pub const HV_EXIT_REASON_VTIMER_ACTIVATED: u32 = 2;

/// Native exit reason: unexpected exit.
pub const HV_EXIT_REASON_UNKNOWN: u32 = 3;

/// Cache type.
#[derive(Copy, Clone, Debug, PartialEq, Eq, Structural)]
pub enum CacheType {
    /// Data cache.
    Data,
    /// Instruction cache.
    Instruction,
}

impl CacheType {
    /// The native identifier of this cache type.
    pub fn native_id(self) -> (r: u32)
        ensures
            self == CacheType::Data ==> r == HV_CACHE_TYPE_DATA,
            self == CacheType::Instruction ==> r == HV_CACHE_TYPE_INSTRUCTION,
    {
        match self {
            CacheType::Data => HV_CACHE_TYPE_DATA,
            CacheType::Instruction => HV_CACHE_TYPE_INSTRUCTION,
        }
    }
}

/// ARM interrupt type.
#[derive(Copy, Clone, Debug, PartialEq, Eq, Structural)]
pub enum InterruptType {
    /// ARM IRQ.
    IRQ,
    /// ARM FIQ.
    FIQ,
}

impl InterruptType {
    /// The native identifier of this interrupt type.
    pub fn native_id(self) -> (r: u32)
        ensures
            self == InterruptType::IRQ ==> r == HV_INTERRUPT_TYPE_IRQ,
            self == InterruptType::FIQ ==> r == HV_INTERRUPT_TYPE_FIQ,
    {
        match self {
            InterruptType::IRQ => HV_INTERRUPT_TYPE_IRQ,
            InterruptType::FIQ => HV_INTERRUPT_TYPE_FIQ,
        }
    }
}

/// The information about a guest exception, as the native exit record holds it.
#[derive(Copy, Clone, Debug, PartialEq, Eq, Structural)]
pub struct ExitException {
    /// The exception syndrome (`ESR_EL2`).
    pub syndrome: u64,
    /// The faulting virtual address.
    pub virtual_address: u64,
    /// The faulting intermediate physical address.
    pub physical_address: u64,
}

/// The native exit record of a virtual CPU, filled by each run.
#[derive(Copy, Clone, Debug, PartialEq, Eq, Structural)]
pub struct VirtualCpuExit {
    /// The native exit reason code.
    pub reason: u32,
    /// The exception information, meaningful when the reason is an exception.
    pub exception: ExitException,
}

/// Exit reason of a vCPU.
#[derive(Copy, Clone, Debug, PartialEq, Eq, Structural)]
pub enum VirtualCpuExitReason {
    /// Asynchronous exit.
    Cancelled,
    /// Guest exception.
    Exception {
        /// The information about the guest exception.
        exception: ExitException,
    },
    /// Virtual Timer enters the pending state.
    VTimerActivated,
    /// Unexpected exit.
    Unknown,
}

/// The exit reason that a native exit record stands for: any reason code
/// other than the three known ones is `Unknown`.
pub open spec fn exit_reason_of(exit: VirtualCpuExit) -> VirtualCpuExitReason {
    if exit.reason == HV_EXIT_REASON_CANCELED {
        VirtualCpuExitReason::Cancelled
    } else if exit.reason == HV_EXIT_REASON_EXCEPTION {
        VirtualCpuExitReason::Exception { exception: exit.exception }
    } else if exit.reason == HV_EXIT_REASON_VTIMER_ACTIVATED {
        VirtualCpuExitReason::VTimerActivated
    } else {
        VirtualCpuExitReason::Unknown
    }
}

impl VirtualCpuExitReason {
    /// Decodes a native exit record.
    pub fn from_exit(value: VirtualCpuExit) -> (r: VirtualCpuExitReason)
        ensures
            r == exit_reason_of(value),
    {
        match value.reason {
            HV_EXIT_REASON_CANCELED => VirtualCpuExitReason::Cancelled,
            HV_EXIT_REASON_EXCEPTION => VirtualCpuExitReason::Exception { exception: value.exception },
            HV_EXIT_REASON_VTIMER_ACTIVATED => VirtualCpuExitReason::VTimerActivated,
            HV_EXIT_REASON_UNKNOWN => VirtualCpuExitReason::Unknown,
            // Unexpected unknown
            _ => VirtualCpuExitReason::Unknown,
        }
    }
}

/// vCPU for a Virtual Machine.
///
/// Its native execution context lives on the thread that created it: every
/// operation but an exit request must be made from that thread.
#[derive(Debug)]
pub struct VirtualCpu {
    /// Native handle of the vCPU.
    pub handle: u64,
}

impl VirtualCpu {
    /// Builds a vCPU from the answer of the native creation call: its status,
    /// and the handle it produced.
    pub fn new(create_status: i32, handle: u64) -> (r: Result<VirtualCpu, HypervisorError>)
        ensures
            create_status == HV_SUCCESS <==> r is Ok,
            r matches Ok(cpu) ==> cpu.handle == handle,
            r matches Err(e) ==> e == error_of(create_status),
    {
        match convert_hv_return(create_status) {
            Ok(()) => Ok(VirtualCpu { handle }),
            Err(e) => Err(e),
        }
    }

    /// Gets vCPU handle.
    pub fn get_handle(&self) -> (r: u64)
        ensures
            r == self.handle,
    {
        self.handle
    }

    /// The outcome of a run, from the status that the native run call
    /// answered and the exit record it filled: the decoded exit reason on
    /// success, the native error otherwise.
    pub fn run_result(&self, status: i32, exit: VirtualCpuExit) -> (r: Result<
        VirtualCpuExitReason,
        HypervisorError,
    >)
        ensures
            status == HV_SUCCESS ==> r == Ok::<VirtualCpuExitReason, HypervisorError>(
                exit_reason_of(exit),
            ),
            status != HV_SUCCESS ==> r == Err::<VirtualCpuExitReason, HypervisorError>(
                error_of(status),
            ),
    {
        match convert_hv_return(status) {
            Ok(()) => Ok(VirtualCpuExitReason::from_exit(exit)),
            Err(e) => Err(e),
        }
    }
}

} // verus!
