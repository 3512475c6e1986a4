use hvf::err::{HV_ILLEGAL_GUEST_STATE, HV_NO_RESOURCES, HV_SUCCESS};
use hvf::vcpu::{
    HV_EXIT_REASON_CANCELED, HV_EXIT_REASON_EXCEPTION, HV_EXIT_REASON_UNKNOWN,
    HV_EXIT_REASON_VTIMER_ACTIVATED,
};
use hvf::{
    CacheType, ExitException, HypervisorError, InterruptType, VirtualCpu, VirtualCpuExit,
    VirtualCpuExitReason,
};

fn exception() -> ExitException {
    ExitException { syndrome: 0x5600_0000, virtual_address: 0x1234, physical_address: 0x5678 }
}

fn exit(reason: u32) -> VirtualCpuExit {
    VirtualCpuExit { reason, exception: exception() }
}

#[test]
fn exit_reasons_decode() {
    assert_eq!(VirtualCpuExitReason::from_exit(exit(HV_EXIT_REASON_CANCELED)), VirtualCpuExitReason::Cancelled);
    assert_eq!(
        VirtualCpuExitReason::from_exit(exit(HV_EXIT_REASON_EXCEPTION)),
        VirtualCpuExitReason::Exception { exception: exception() }
    );
    assert_eq!(
        VirtualCpuExitReason::from_exit(exit(HV_EXIT_REASON_VTIMER_ACTIVATED)),
        VirtualCpuExitReason::VTimerActivated
    );
    assert_eq!(VirtualCpuExitReason::from_exit(exit(HV_EXIT_REASON_UNKNOWN)), VirtualCpuExitReason::Unknown);
    assert_eq!(VirtualCpuExitReason::from_exit(exit(77)), VirtualCpuExitReason::Unknown);
}

#[test]
fn cancelled_run_is_no_error_and_vcpu_runs_again() {
    let cpu = VirtualCpu::new(HV_SUCCESS, 3).unwrap();
    assert_eq!(cpu.run_result(HV_SUCCESS, exit(HV_EXIT_REASON_CANCELED)), Ok(VirtualCpuExitReason::Cancelled));
    assert_eq!(
        cpu.run_result(HV_SUCCESS, exit(HV_EXIT_REASON_VTIMER_ACTIVATED)),
        Ok(VirtualCpuExitReason::VTimerActivated)
    );
    assert_eq!(cpu.get_handle(), 3);
}

#[test]
fn failed_run_reports_native_error() {
    let cpu = VirtualCpu::new(HV_SUCCESS, 0).unwrap();
    assert_eq!(
        cpu.run_result(HV_ILLEGAL_GUEST_STATE, exit(HV_EXIT_REASON_EXCEPTION)),
        Err(HypervisorError::IllegalGuestState)
    );
}

#[test]
fn vcpu_creation_status() {
    assert_eq!(VirtualCpu::new(HV_SUCCESS, 9).unwrap().get_handle(), 9);
    assert_eq!(VirtualCpu::new(HV_NO_RESOURCES, 9).unwrap_err(), HypervisorError::NoResources);
}

#[test]
fn cache_and_interrupt_type_ids() {
    assert_eq!(CacheType::Data.native_id(), 0);
    assert_eq!(CacheType::Instruction.native_id(), 1);
    assert_eq!(InterruptType::IRQ.native_id(), 0);
    assert_eq!(InterruptType::FIQ.native_id(), 1);
}
