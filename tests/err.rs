use hvf::err::{
    HV_BAD_ARGUMENT, HV_BUSY, HV_DENIED, HV_ERROR, HV_ILLEGAL_GUEST_STATE, HV_NO_DEVICE,
    HV_NO_RESOURCES, HV_SUCCESS, HV_UNSUPPORTED,
};
use hvf::{convert_hv_result, convert_hv_return, HypervisorError};

#[test]
fn success_converts_to_ok() {
    assert_eq!(convert_hv_return(HV_SUCCESS), Ok(()));
    assert_eq!(convert_hv_result(HV_SUCCESS, 7u64), Ok(7));
}

#[test]
fn native_codes_convert_to_errors() {
    let cases = [
        (HV_ERROR, HypervisorError::Error),
        (HV_BUSY, HypervisorError::Busy),
        (HV_BAD_ARGUMENT, HypervisorError::BadArgument),
        (HV_ILLEGAL_GUEST_STATE, HypervisorError::IllegalGuestState),
        (HV_NO_RESOURCES, HypervisorError::NoResources),
        (HV_NO_DEVICE, HypervisorError::NoDevice),
        (HV_DENIED, HypervisorError::Denied),
        (HV_UNSUPPORTED, HypervisorError::Unsupported),
    ];
    for (code, error) in cases {
        assert_eq!(convert_hv_return(code), Err(error));
        assert_eq!(HypervisorError::from_status(code), error);
        assert_eq!(convert_hv_result(code, true), Err(error));
    }
}

#[test]
fn native_code_values() {
    assert_eq!(HV_ERROR as u32, 0xfae94001);
    assert_eq!(HV_BUSY as u32, 0xfae94002);
    assert_eq!(HV_BAD_ARGUMENT as u32, 0xfae94003);
    assert_eq!(HV_ILLEGAL_GUEST_STATE as u32, 0xfae94004);
    assert_eq!(HV_NO_RESOURCES as u32, 0xfae94005);
    assert_eq!(HV_NO_DEVICE as u32, 0xfae94006);
    assert_eq!(HV_DENIED as u32, 0xfae94007);
    assert_eq!(HV_UNSUPPORTED as u32, 0xfae9400f);
}

#[test]
fn unrecognised_codes_are_unknown() {
    assert_eq!(convert_hv_return(1), Err(HypervisorError::Unknown(1)));
    assert_eq!(convert_hv_return(-1), Err(HypervisorError::Unknown(-1)));
    assert_eq!(
        HypervisorError::from_status(0xfae94008u32 as i32),
        HypervisorError::Unknown(0xfae94008u32 as i32)
    );
}
