use hvf::{FeatureRegister, Register, SystemRegister};

#[test]
fn general_register_ids() {
    assert_eq!(Register::X0.native_id(), 0);
    assert_eq!(Register::X17.native_id(), 17);
    assert_eq!(Register::X30.native_id(), 30);
    assert_eq!(Register::FP.native_id(), Register::X29.native_id());
    assert_eq!(Register::LR.native_id(), Register::X30.native_id());
    assert_eq!(Register::PC.native_id(), 31);
    assert_eq!(Register::FPCR.native_id(), 32);
    assert_eq!(Register::FPSR.native_id(), 33);
    assert_eq!(Register::CPSR.native_id(), 34);
}

#[test]
fn feature_register_ids() {
    assert_eq!(FeatureRegister::ID_AA64DFR0_EL1.native_id(), 0);
    assert_eq!(FeatureRegister::ID_AA64PFR1_EL1.native_id(), 8);
    assert_eq!(FeatureRegister::CTR_EL0.native_id(), 9);
    assert_eq!(FeatureRegister::DCZID_EL0.native_id(), 11);
}

#[test]
fn system_register_ids() {
    assert_eq!(SystemRegister::DBGBVR0_EL1.native_id(), 0x8004);
    assert_eq!(SystemRegister::DBGWCR15_EL1.native_id(), 0x807f);
    assert_eq!(SystemRegister::MDSCR_EL1.native_id(), 0x8012);
    assert_eq!(SystemRegister::MIDR_EL1.native_id(), 0xc000);
    assert_eq!(SystemRegister::SCTLR_EL1.native_id(), 0xc080);
    assert_eq!(SystemRegister::PAR_EL1.native_id(), 0xc3a0);
    assert_eq!(SystemRegister::CSSELR_EL1.native_id(), 0xd000);
    assert_eq!(SystemRegister::TPIDR_EL0.native_id(), 0xde82);
    assert_eq!(SystemRegister::CNTV_CVAL_EL0.native_id(), 0xdf1a);
    assert_eq!(SystemRegister::SP_EL1.native_id(), 0xe208);
}
