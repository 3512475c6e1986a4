//! Register identifiers: the general-purpose, feature and system registers of
//! an ARM64 virtual CPU, and the native identifier of each.
use vstd::prelude::*;

verus! {

/// ARM register.
#[derive(Copy, Clone, Debug, PartialEq, Eq, Structural)]
#[allow(non_camel_case_types)]
pub enum Register {
    /// X0 register.
    X0,
    /// X1 register.
    X1,
    /// X2 register.
    X2,
    /// X3 register.
    X3,
    /// X4 register.
    X4,
    /// X5 register.
    X5,
    /// X6 register.
    X6,
    /// X7 register.
    X7,
    /// X8 register.
    X8,
    /// X9 register.
    X9,
    /// X10 register.
    X10,
    /// X11 register.
    X11,
    /// X12 register.
    X12,
    /// X13 register.
    X13,
    /// X14 register.
    X14,
    /// X15 register.
    X15,
    /// X16 register.
    X16,
    /// X17 register.
    X17,
    /// X18 register.
    X18,
    /// X19 register.
    X19,
    /// X20 register.
    X20,
    /// X21 register.
    X21,
    /// X22 register.
    X22,
    /// X23 register.
    X23,
    /// X24 register.
    X24,
    /// X25 register.
    X25,
    /// X26 register.
    X26,
    /// X27 register.
    X27,
    /// X28 register.
    X28,
    /// X29 register.
    X29,
    /// FP register.
    FP,
    /// X30 register.
    X30,
    /// LR register.
    LR,
    /// PC register.
    PC,
    /// FPCR register.
    FPCR,
    /// FPSR register.
    FPSR,
    /// CPSR register.
    CPSR,
}

/// The native identifier of a general-purpose register: `X0` to `X30` are 0
/// to 30 (`FP` is `X29` and `LR` is `X30`), then `PC`, `FPCR`, `FPSR` and
/// `CPSR`.
pub open spec fn register_id(r: Register) -> u32 {
    match r {
        Register::X0 => 0,
        Register::X1 => 1,
        Register::X2 => 2,
        Register::X3 => 3,
        Register::X4 => 4,
        Register::X5 => 5,
        Register::X6 => 6,
        Register::X7 => 7,
        Register::X8 => 8,
        Register::X9 => 9,
        Register::X10 => 10,
        Register::X11 => 11,
        Register::X12 => 12,
        Register::X13 => 13,
        Register::X14 => 14,
        Register::X15 => 15,
        Register::X16 => 16,
        Register::X17 => 17,
        Register::X18 => 18,
        Register::X19 => 19,
        Register::X20 => 20,
        Register::X21 => 21,
        Register::X22 => 22,
        Register::X23 => 23,
        Register::X24 => 24,
        Register::X25 => 25,
        Register::X26 => 26,
        Register::X27 => 27,
        Register::X28 => 28,
        Register::X29 => 29,
        Register::FP => 29,
        Register::X30 => 30,
        Register::LR => 30,
        Register::PC => 31,
        Register::FPCR => 32,
        Register::FPSR => 33,
        Register::CPSR => 34,
    }
}

impl Register {
    /// The native identifier of this register.
    pub fn native_id(self) -> (r: u32)
        ensures
            r == register_id(self),
    {
        match self {
            Register::X0 => 0,
            Register::X1 => 1,
            Register::X2 => 2,
            Register::X3 => 3,
            Register::X4 => 4,
            Register::X5 => 5,
            Register::X6 => 6,
            Register::X7 => 7,
            Register::X8 => 8,
            Register::X9 => 9,
            Register::X10 => 10,
            Register::X11 => 11,
            Register::X12 => 12,
            Register::X13 => 13,
            Register::X14 => 14,
            Register::X15 => 15,
            Register::X16 => 16,
            Register::X17 => 17,
            Register::X18 => 18,
            Register::X19 => 19,
            Register::X20 => 20,
            Register::X21 => 21,
            Register::X22 => 22,
            Register::X23 => 23,
            Register::X24 => 24,
            Register::X25 => 25,
            Register::X26 => 26,
            Register::X27 => 27,
            Register::X28 => 28,
            Register::X29 => 29,
            Register::FP => 29,
            Register::X30 => 30,
            Register::LR => 30,
            Register::PC => 31,
            Register::FPCR => 32,
            Register::FPSR => 33,
            Register::CPSR => 34,
        }
    }
}

/// Feature register.
#[derive(Copy, Clone, Debug, PartialEq, Eq, Structural)]
#[allow(non_camel_case_types)]
pub enum FeatureRegister {
    /// ID_AA64DFR0_EL1 register.
    ID_AA64DFR0_EL1,
    /// ID_AA64DFR1_EL1 register.
    ID_AA64DFR1_EL1,
    /// ID_AA64ISAR0_EL1 register.
    ID_AA64ISAR0_EL1,
    /// ID_AA64ISAR1_EL1 register.
    ID_AA64ISAR1_EL1,
    /// ID_AA64MMFR0_EL1 register.
    ID_AA64MMFR0_EL1,
    /// ID_AA64MMFR1_EL1 register.
    ID_AA64MMFR1_EL1,
    /// ID_AA64MMFR2_EL1 register.
    ID_AA64MMFR2_EL1,
    /// ID_AA64PFR0_EL1 register.
    ID_AA64PFR0_EL1,
    /// ID_AA64PFR1_EL1 register.
    ID_AA64PFR1_EL1,
    /// CTR_EL0 register.
    CTR_EL0,
    /// CLIDR_EL1 register.
    CLIDR_EL1,
    /// DCZID_EL0 register.
    DCZID_EL0,
}

/// The native identifier of a feature register: its position in the list
/// `ID_AA64DFR0_EL1`, `ID_AA64DFR1_EL1`, `ID_AA64ISAR0_EL1`, `ID_AA64ISAR1_EL1`,
/// `ID_AA64MMFR0_EL1`, `ID_AA64MMFR1_EL1`, `ID_AA64MMFR2_EL1`, `ID_AA64PFR0_EL1`,
/// `ID_AA64PFR1_EL1`, `CTR_EL0`, `CLIDR_EL1`, `DCZID_EL0`.
pub open spec fn feature_register_id(r: FeatureRegister) -> u32 {
    match r {
        FeatureRegister::ID_AA64DFR0_EL1 => 0,
        FeatureRegister::ID_AA64DFR1_EL1 => 1,
        FeatureRegister::ID_AA64ISAR0_EL1 => 2,
        FeatureRegister::ID_AA64ISAR1_EL1 => 3,
        FeatureRegister::ID_AA64MMFR0_EL1 => 4,
        FeatureRegister::ID_AA64MMFR1_EL1 => 5,
        FeatureRegister::ID_AA64MMFR2_EL1 => 6,
        FeatureRegister::ID_AA64PFR0_EL1 => 7,
        FeatureRegister::ID_AA64PFR1_EL1 => 8,
        FeatureRegister::CTR_EL0 => 9,
        FeatureRegister::CLIDR_EL1 => 10,
        FeatureRegister::DCZID_EL0 => 11,
    }
}

impl FeatureRegister {
    /// The native identifier of this feature register.
    pub fn native_id(self) -> (r: u32)
        ensures
            r == feature_register_id(self),
    {
        match self {
            FeatureRegister::ID_AA64DFR0_EL1 => 0,
            FeatureRegister::ID_AA64DFR1_EL1 => 1,
            FeatureRegister::ID_AA64ISAR0_EL1 => 2,
            FeatureRegister::ID_AA64ISAR1_EL1 => 3,
            FeatureRegister::ID_AA64MMFR0_EL1 => 4,
            FeatureRegister::ID_AA64MMFR1_EL1 => 5,
            FeatureRegister::ID_AA64MMFR2_EL1 => 6,
            FeatureRegister::ID_AA64PFR0_EL1 => 7,
            FeatureRegister::ID_AA64PFR1_EL1 => 8,
            FeatureRegister::CTR_EL0 => 9,
            FeatureRegister::CLIDR_EL1 => 10,
            FeatureRegister::DCZID_EL0 => 11,
        }
    }
}

/// ARM system register.
#[derive(Copy, Clone, Debug, PartialEq, Eq, Structural)]
#[allow(non_camel_case_types)]
pub enum SystemRegister {
    /// DBGBVR0_EL1 register.
    DBGBVR0_EL1,
    /// DBGBCR0_EL1 register.
    DBGBCR0_EL1,
    /// DBGWVR0_EL1 register.
    DBGWVR0_EL1,
    /// DBGWCR0_EL1 register.
    DBGWCR0_EL1,
    /// DBGBVR1_EL1 register.
    DBGBVR1_EL1,
    /// DBGBCR1_EL1 register.
    DBGBCR1_EL1,
    /// DBGWVR1_EL1 register.
    DBGWVR1_EL1,
    /// DBGWCR1_EL1 register.
    DBGWCR1_EL1,
    /// MDCCINT_EL1 register.
    MDCCINT_EL1,
    /// MDSCR_EL1 register.
    MDSCR_EL1,
    /// DBGBVR2_EL1 register.
    DBGBVR2_EL1,
    /// DBGBCR2_EL1 register.
    DBGBCR2_EL1,
    /// DBGWVR2_EL1 register.
    DBGWVR2_EL1,
    /// DBGWCR2_EL1 register.
    DBGWCR2_EL1,
    /// DBGBVR3_EL1 register.
    DBGBVR3_EL1,
    /// DBGBCR3_EL1 register.
    DBGBCR3_EL1,
    /// DBGWVR3_EL1 register.
    DBGWVR3_EL1,
    /// DBGWCR3_EL1 register.
    DBGWCR3_EL1,
    /// DBGBVR4_EL1 register.
    DBGBVR4_EL1,
    /// DBGBCR4_EL1 register.
    DBGBCR4_EL1,
    /// DBGWVR4_EL1 register.
    DBGWVR4_EL1,
    /// DBGWCR4_EL1 register.
    DBGWCR4_EL1,
    /// DBGBVR5_EL1 register.
    DBGBVR5_EL1,
    /// DBGBCR5_EL1 register.
    DBGBCR5_EL1,
    /// DBGWVR5_EL1 register.
    DBGWVR5_EL1,
    /// DBGWCR5_EL1 register.
    DBGWCR5_EL1,
    /// DBGBVR6_EL1 register.
    DBGBVR6_EL1,
    /// DBGBCR6_EL1 register.
    DBGBCR6_EL1,
    /// DBGWVR6_EL1 register.
    DBGWVR6_EL1,
    /// DBGWCR6_EL1 register.
    DBGWCR6_EL1,
    /// DBGBVR7_EL1 register.
    DBGBVR7_EL1,
    /// DBGBCR7_EL1 register.
    DBGBCR7_EL1,
    /// DBGWVR7_EL1 register.
    DBGWVR7_EL1,
    /// DBGWCR7_EL1 register.
    DBGWCR7_EL1,
    /// DBGBVR8_EL1 register.
    DBGBVR8_EL1,
    /// DBGBCR8_EL1 register.
    DBGBCR8_EL1,
    /// DBGWVR8_EL1 register.
    DBGWVR8_EL1,
    /// DBGWCR8_EL1 register.
    DBGWCR8_EL1,
    /// DBGBVR9_EL1 register.
    DBGBVR9_EL1,
    /// DBGBCR9_EL1 register.
    DBGBCR9_EL1,
    /// DBGWVR9_EL1 register.
    DBGWVR9_EL1,
    /// DBGWCR9_EL1 register.
    DBGWCR9_EL1,
    /// DBGBVR10_EL1 register.
    DBGBVR10_EL1,
    /// DBGBCR10_EL1 register.
    DBGBCR10_EL1,
    /// DBGWVR10_EL1 register.
    DBGWVR10_EL1,
    /// DBGWCR10_EL1 register.
    DBGWCR10_EL1,
    /// DBGBVR11_EL1 register.
    DBGBVR11_EL1,
    /// DBGBCR11_EL1 register.
    DBGBCR11_EL1,
    /// DBGWVR11_EL1 register.
    DBGWVR11_EL1,
    /// DBGWCR11_EL1 register.
    DBGWCR11_EL1,
    /// DBGBVR12_EL1 register.
    DBGBVR12_EL1,
    /// DBGBCR12_EL1 register.
    DBGBCR12_EL1,
    /// DBGWVR12_EL1 register.
    DBGWVR12_EL1,
    /// DBGWCR12_EL1 register.
    DBGWCR12_EL1,
    /// DBGBVR13_EL1 register.
    DBGBVR13_EL1,
    /// DBGBCR13_EL1 register.
    DBGBCR13_EL1,
    /// DBGWVR13_EL1 register.
    DBGWVR13_EL1,
    /// DBGWCR13_EL1 register.
    DBGWCR13_EL1,
    /// DBGBVR14_EL1 register.
    DBGBVR14_EL1,
    /// DBGBCR14_EL1 register.
    DBGBCR14_EL1,
    /// DBGWVR14_EL1 register.
    DBGWVR14_EL1,
    /// DBGWCR14_EL1 register.
    DBGWCR14_EL1,
    /// DBGBVR15_EL1 register.
    DBGBVR15_EL1,
    /// DBGBCR15_EL1 register.
    DBGBCR15_EL1,
    /// DBGWVR15_EL1 register.
    DBGWVR15_EL1,
    /// DBGWCR15_EL1 register.
    DBGWCR15_EL1,
    /// MIDR_EL1 register.
    MIDR_EL1,
    /// MPIDR_EL1 register.
    MPIDR_EL1,
    /// ID_AA64PFR0_EL1 register.
    ID_AA64PFR0_EL1,
    /// ID_AA64PFR1_EL1 register.
    ID_AA64PFR1_EL1,
    /// ID_AA64DFR0_EL1 register.
    ID_AA64DFR0_EL1,
    /// ID_AA64DFR1_EL1 register.
    ID_AA64DFR1_EL1,
    /// ID_AA64ISAR0_EL1 register.
    ID_AA64ISAR0_EL1,
    /// ID_AA64ISAR1_EL1 register.
    ID_AA64ISAR1_EL1,
    /// ID_AA64MMFR0_EL1 register.
    ID_AA64MMFR0_EL1,
    /// ID_AA64MMFR1_EL1 register.
    ID_AA64MMFR1_EL1,
    /// ID_AA64MMFR2_EL1 register.
    ID_AA64MMFR2_EL1,
    /// SCTLR_EL1 register.
    SCTLR_EL1,
    /// CPACR_EL1 register.
    CPACR_EL1,
    /// TTBR0_EL1 register.
    TTBR0_EL1,
    /// TTBR1_EL1 register.
    TTBR1_EL1,
    /// TCR_EL1 register.
    TCR_EL1,
    /// APIAKEYLO_EL1 register.
    APIAKEYLO_EL1,
    /// APIAKEYHI_EL1 register.
    APIAKEYHI_EL1,
    /// APIBKEYLO_EL1 register.
    APIBKEYLO_EL1,
    /// APIBKEYHI_EL1 register.
    APIBKEYHI_EL1,
    /// APDAKEYLO_EL1 register.
    APDAKEYLO_EL1,
    /// APDAKEYHI_EL1 register.
    APDAKEYHI_EL1,
    /// APDBKEYLO_EL1 register.
    APDBKEYLO_EL1,
    /// APDBKEYHI_EL1 register.
    APDBKEYHI_EL1,
    /// APGAKEYLO_EL1 register.
    APGAKEYLO_EL1,
    /// APGAKEYHI_EL1 register.
    APGAKEYHI_EL1,
    /// SPSR_EL1 register.
    SPSR_EL1,
    /// ELR_EL1 register.
    ELR_EL1,
    /// SP_EL0 register.
    SP_EL0,
    /// AFSR0_EL1 register.
    AFSR0_EL1,
    /// AFSR1_EL1 register.
    AFSR1_EL1,
    /// ESR_EL1 register.
    ESR_EL1,
    /// FAR_EL1 register.
    FAR_EL1,
    /// PAR_EL1 register.
    PAR_EL1,
    /// MAIR_EL1 register.
    MAIR_EL1,
    /// AMAIR_EL1 register.
    AMAIR_EL1,
    /// VBAR_EL1 register.
    VBAR_EL1,
    /// CONTEXTIDR_EL1 register.
    CONTEXTIDR_EL1,
    /// TPIDR_EL1 register.
    TPIDR_EL1,
    /// CNTKCTL_EL1 register.
    CNTKCTL_EL1,
    /// CSSELR_EL1 register.
    CSSELR_EL1,
    /// TPIDR_EL0 register.
    TPIDR_EL0,
    /// TPIDRRO_EL0 register.
    TPIDRRO_EL0,
    /// CNTV_CTL_EL0 register.
    CNTV_CTL_EL0,
    /// CNTV_CVAL_EL0 register.
    CNTV_CVAL_EL0,
    /// SP_EL1 register.
    SP_EL1,
}

/// The architectural encoding of a system register, as used by `MRS` and
/// `MSR`: `(op0, op1, CRn, CRm, op2)`.
pub open spec fn system_register_encoding(r: SystemRegister) -> (int, int, int, int, int) {
    match r {
        SystemRegister::DBGBVR0_EL1 => (2, 0, 0, 0, 4),
        SystemRegister::DBGBCR0_EL1 => (2, 0, 0, 0, 5),
        SystemRegister::DBGWVR0_EL1 => (2, 0, 0, 0, 6),
        SystemRegister::DBGWCR0_EL1 => (2, 0, 0, 0, 7),
        SystemRegister::DBGBVR1_EL1 => (2, 0, 0, 1, 4),
        SystemRegister::DBGBCR1_EL1 => (2, 0, 0, 1, 5),
        SystemRegister::DBGWVR1_EL1 => (2, 0, 0, 1, 6),
        SystemRegister::DBGWCR1_EL1 => (2, 0, 0, 1, 7),
        SystemRegister::MDCCINT_EL1 => (2, 0, 0, 2, 0),
        SystemRegister::MDSCR_EL1 => (2, 0, 0, 2, 2),
        SystemRegister::DBGBVR2_EL1 => (2, 0, 0, 2, 4),
        SystemRegister::DBGBCR2_EL1 => (2, 0, 0, 2, 5),
        SystemRegister::DBGWVR2_EL1 => (2, 0, 0, 2, 6),
        SystemRegister::DBGWCR2_EL1 => (2, 0, 0, 2, 7),
        SystemRegister::DBGBVR3_EL1 => (2, 0, 0, 3, 4),
        SystemRegister::DBGBCR3_EL1 => (2, 0, 0, 3, 5),
        SystemRegister::DBGWVR3_EL1 => (2, 0, 0, 3, 6),
        SystemRegister::DBGWCR3_EL1 => (2, 0, 0, 3, 7),
        SystemRegister::DBGBVR4_EL1 => (2, 0, 0, 4, 4),
        SystemRegister::DBGBCR4_EL1 => (2, 0, 0, 4, 5),
        SystemRegister::DBGWVR4_EL1 => (2, 0, 0, 4, 6),
        SystemRegister::DBGWCR4_EL1 => (2, 0, 0, 4, 7),
        SystemRegister::DBGBVR5_EL1 => (2, 0, 0, 5, 4),
        SystemRegister::DBGBCR5_EL1 => (2, 0, 0, 5, 5),
        SystemRegister::DBGWVR5_EL1 => (2, 0, 0, 5, 6),
        SystemRegister::DBGWCR5_EL1 => (2, 0, 0, 5, 7),
        SystemRegister::DBGBVR6_EL1 => (2, 0, 0, 6, 4),
        SystemRegister::DBGBCR6_EL1 => (2, 0, 0, 6, 5),
        SystemRegister::DBGWVR6_EL1 => (2, 0, 0, 6, 6),
        SystemRegister::DBGWCR6_EL1 => (2, 0, 0, 6, 7),
        SystemRegister::DBGBVR7_EL1 => (2, 0, 0, 7, 4),
        SystemRegister::DBGBCR7_EL1 => (2, 0, 0, 7, 5),
        SystemRegister::DBGWVR7_EL1 => (2, 0, 0, 7, 6),
        SystemRegister::DBGWCR7_EL1 => (2, 0, 0, 7, 7),
        SystemRegister::DBGBVR8_EL1 => (2, 0, 0, 8, 4),
        SystemRegister::DBGBCR8_EL1 => (2, 0, 0, 8, 5),
        SystemRegister::DBGWVR8_EL1 => (2, 0, 0, 8, 6),
        SystemRegister::DBGWCR8_EL1 => (2, 0, 0, 8, 7),
        SystemRegister::DBGBVR9_EL1 => (2, 0, 0, 9, 4),
        SystemRegister::DBGBCR9_EL1 => (2, 0, 0, 9, 5),
        SystemRegister::DBGWVR9_EL1 => (2, 0, 0, 9, 6),
        SystemRegister::DBGWCR9_EL1 => (2, 0, 0, 9, 7),
        SystemRegister::DBGBVR10_EL1 => (2, 0, 0, 10, 4),
        SystemRegister::DBGBCR10_EL1 => (2, 0, 0, 10, 5),
        SystemRegister::DBGWVR10_EL1 => (2, 0, 0, 10, 6),
        SystemRegister::DBGWCR10_EL1 => (2, 0, 0, 10, 7),
        SystemRegister::DBGBVR11_EL1 => (2, 0, 0, 11, 4),
        SystemRegister::DBGBCR11_EL1 => (2, 0, 0, 11, 5),
        SystemRegister::DBGWVR11_EL1 => (2, 0, 0, 11, 6),
        SystemRegister::DBGWCR11_EL1 => (2, 0, 0, 11, 7),
        SystemRegister::DBGBVR12_EL1 => (2, 0, 0, 12, 4),
        SystemRegister::DBGBCR12_EL1 => (2, 0, 0, 12, 5),
        SystemRegister::DBGWVR12_EL1 => (2, 0, 0, 12, 6),
        SystemRegister::DBGWCR12_EL1 => (2, 0, 0, 12, 7),
        SystemRegister::DBGBVR13_EL1 => (2, 0, 0, 13, 4),
        SystemRegister::DBGBCR13_EL1 => (2, 0, 0, 13, 5),
        SystemRegister::DBGWVR13_EL1 => (2, 0, 0, 13, 6),
        SystemRegister::DBGWCR13_EL1 => (2, 0, 0, 13, 7),
        SystemRegister::DBGBVR14_EL1 => (2, 0, 0, 14, 4),
        SystemRegister::DBGBCR14_EL1 => (2, 0, 0, 14, 5),
        SystemRegister::DBGWVR14_EL1 => (2, 0, 0, 14, 6),
        SystemRegister::DBGWCR14_EL1 => (2, 0, 0, 14, 7),
        SystemRegister::DBGBVR15_EL1 => (2, 0, 0, 15, 4),
        SystemRegister::DBGBCR15_EL1 => (2, 0, 0, 15, 5),
        SystemRegister::DBGWVR15_EL1 => (2, 0, 0, 15, 6),
        SystemRegister::DBGWCR15_EL1 => (2, 0, 0, 15, 7),
        SystemRegister::MIDR_EL1 => (3, 0, 0, 0, 0),
        SystemRegister::MPIDR_EL1 => (3, 0, 0, 0, 5),
        SystemRegister::ID_AA64PFR0_EL1 => (3, 0, 0, 4, 0),
        SystemRegister::ID_AA64PFR1_EL1 => (3, 0, 0, 4, 1),
        SystemRegister::ID_AA64DFR0_EL1 => (3, 0, 0, 5, 0),
        SystemRegister::ID_AA64DFR1_EL1 => (3, 0, 0, 5, 1),
        SystemRegister::ID_AA64ISAR0_EL1 => (3, 0, 0, 6, 0),
        SystemRegister::ID_AA64ISAR1_EL1 => (3, 0, 0, 6, 1),
        SystemRegister::ID_AA64MMFR0_EL1 => (3, 0, 0, 7, 0),
        SystemRegister::ID_AA64MMFR1_EL1 => (3, 0, 0, 7, 1),
        SystemRegister::ID_AA64MMFR2_EL1 => (3, 0, 0, 7, 2),
        SystemRegister::SCTLR_EL1 => (3, 0, 1, 0, 0),
        SystemRegister::CPACR_EL1 => (3, 0, 1, 0, 2),
        SystemRegister::TTBR0_EL1 => (3, 0, 2, 0, 0),
        SystemRegister::TTBR1_EL1 => (3, 0, 2, 0, 1),
        SystemRegister::TCR_EL1 => (3, 0, 2, 0, 2),
        SystemRegister::APIAKEYLO_EL1 => (3, 0, 2, 1, 0),
        SystemRegister::APIAKEYHI_EL1 => (3, 0, 2, 1, 1),
        SystemRegister::APIBKEYLO_EL1 => (3, 0, 2, 1, 2),
        SystemRegister::APIBKEYHI_EL1 => (3, 0, 2, 1, 3),
        SystemRegister::APDAKEYLO_EL1 => (3, 0, 2, 2, 0),
        SystemRegister::APDAKEYHI_EL1 => (3, 0, 2, 2, 1),
        SystemRegister::APDBKEYLO_EL1 => (3, 0, 2, 2, 2),
        SystemRegister::APDBKEYHI_EL1 => (3, 0, 2, 2, 3),
        SystemRegister::APGAKEYLO_EL1 => (3, 0, 2, 3, 0),
        SystemRegister::APGAKEYHI_EL1 => (3, 0, 2, 3, 1),
        SystemRegister::SPSR_EL1 => (3, 0, 4, 0, 0),
        SystemRegister::ELR_EL1 => (3, 0, 4, 0, 1),
        SystemRegister::SP_EL0 => (3, 0, 4, 1, 0),
        SystemRegister::AFSR0_EL1 => (3, 0, 5, 1, 0),
        SystemRegister::AFSR1_EL1 => (3, 0, 5, 1, 1),
        SystemRegister::ESR_EL1 => (3, 0, 5, 2, 0),
        SystemRegister::FAR_EL1 => (3, 0, 6, 0, 0),
        SystemRegister::PAR_EL1 => (3, 0, 7, 4, 0),
        SystemRegister::MAIR_EL1 => (3, 0, 10, 2, 0),
        SystemRegister::AMAIR_EL1 => (3, 0, 10, 3, 0),
        SystemRegister::VBAR_EL1 => (3, 0, 12, 0, 0),
        SystemRegister::CONTEXTIDR_EL1 => (3, 0, 13, 0, 1),
        SystemRegister::TPIDR_EL1 => (3, 0, 13, 0, 4),
        SystemRegister::CNTKCTL_EL1 => (3, 0, 14, 1, 0),
        SystemRegister::CSSELR_EL1 => (3, 2, 0, 0, 0),
        SystemRegister::TPIDR_EL0 => (3, 3, 13, 0, 2),
        SystemRegister::TPIDRRO_EL0 => (3, 3, 13, 0, 3),
        SystemRegister::CNTV_CTL_EL0 => (3, 3, 14, 3, 1),
        SystemRegister::CNTV_CVAL_EL0 => (3, 3, 14, 3, 2),
        SystemRegister::SP_EL1 => (3, 4, 4, 1, 0),
    }
}

/// The native identifier of a system register packs its encoding into 16 bits:
/// `op0` in bits 14-15, `op1` in bits 11-13, `CRn` in bits 7-10, `CRm` in bits
/// 3-6 and `op2` in bits 0-2.
pub open spec fn system_register_id(r: SystemRegister) -> u16 {
    let (op0, op1, crn, crm, op2) = system_register_encoding(r);
    (op0 * 16384 + op1 * 2048 + crn * 128 + crm * 8 + op2) as u16
}

impl SystemRegister {
    /// The native identifier of this system register.
    pub fn native_id(self) -> (r: u16)
        ensures
            r == system_register_id(self),
    {
        match self {
            SystemRegister::DBGBVR0_EL1 => 0x8004,
            SystemRegister::DBGBCR0_EL1 => 0x8005,
            SystemRegister::DBGWVR0_EL1 => 0x8006,
            SystemRegister::DBGWCR0_EL1 => 0x8007,
            SystemRegister::DBGBVR1_EL1 => 0x800c,
            SystemRegister::DBGBCR1_EL1 => 0x800d,
            SystemRegister::DBGWVR1_EL1 => 0x800e,
            SystemRegister::DBGWCR1_EL1 => 0x800f,
            SystemRegister::MDCCINT_EL1 => 0x8010,
            SystemRegister::MDSCR_EL1 => 0x8012,
            SystemRegister::DBGBVR2_EL1 => 0x8014,
            SystemRegister::DBGBCR2_EL1 => 0x8015,
            SystemRegister::DBGWVR2_EL1 => 0x8016,
            SystemRegister::DBGWCR2_EL1 => 0x8017,
            SystemRegister::DBGBVR3_EL1 => 0x801c,
            SystemRegister::DBGBCR3_EL1 => 0x801d,
            SystemRegister::DBGWVR3_EL1 => 0x801e,
            SystemRegister::DBGWCR3_EL1 => 0x801f,
            SystemRegister::DBGBVR4_EL1 => 0x8024,
            SystemRegister::DBGBCR4_EL1 => 0x8025,
            SystemRegister::DBGWVR4_EL1 => 0x8026,
            SystemRegister::DBGWCR4_EL1 => 0x8027,
            SystemRegister::DBGBVR5_EL1 => 0x802c,
            SystemRegister::DBGBCR5_EL1 => 0x802d,
            SystemRegister::DBGWVR5_EL1 => 0x802e,
            SystemRegister::DBGWCR5_EL1 => 0x802f,
            SystemRegister::DBGBVR6_EL1 => 0x8034,
            SystemRegister::DBGBCR6_EL1 => 0x8035,
            SystemRegister::DBGWVR6_EL1 => 0x8036,
            SystemRegister::DBGWCR6_EL1 => 0x8037,
            SystemRegister::DBGBVR7_EL1 => 0x803c,
            SystemRegister::DBGBCR7_EL1 => 0x803d,
            SystemRegister::DBGWVR7_EL1 => 0x803e,
            SystemRegister::DBGWCR7_EL1 => 0x803f,
            SystemRegister::DBGBVR8_EL1 => 0x8044,
            SystemRegister::DBGBCR8_EL1 => 0x8045,
            SystemRegister::DBGWVR8_EL1 => 0x8046,
            SystemRegister::DBGWCR8_EL1 => 0x8047,
            SystemRegister::DBGBVR9_EL1 => 0x804c,
            SystemRegister::DBGBCR9_EL1 => 0x804d,
            SystemRegister::DBGWVR9_EL1 => 0x804e,
            SystemRegister::DBGWCR9_EL1 => 0x804f,
            SystemRegister::DBGBVR10_EL1 => 0x8054,
            SystemRegister::DBGBCR10_EL1 => 0x8055,
            SystemRegister::DBGWVR10_EL1 => 0x8056,
            SystemRegister::DBGWCR10_EL1 => 0x8057,
            SystemRegister::DBGBVR11_EL1 => 0x805c,
            SystemRegister::DBGBCR11_EL1 => 0x805d,
            SystemRegister::DBGWVR11_EL1 => 0x805e,
            SystemRegister::DBGWCR11_EL1 => 0x805f,
            SystemRegister::DBGBVR12_EL1 => 0x8064,
            SystemRegister::DBGBCR12_EL1 => 0x8065,
            SystemRegister::DBGWVR12_EL1 => 0x8066,
            SystemRegister::DBGWCR12_EL1 => 0x8067,
            SystemRegister::DBGBVR13_EL1 => 0x806c,
            SystemRegister::DBGBCR13_EL1 => 0x806d,
            SystemRegister::DBGWVR13_EL1 => 0x806e,
            SystemRegister::DBGWCR13_EL1 => 0x806f,
            SystemRegister::DBGBVR14_EL1 => 0x8074,
            SystemRegister::DBGBCR14_EL1 => 0x8075,
            SystemRegister::DBGWVR14_EL1 => 0x8076,
            SystemRegister::DBGWCR14_EL1 => 0x8077,
            SystemRegister::DBGBVR15_EL1 => 0x807c,
            SystemRegister::DBGBCR15_EL1 => 0x807d,
            SystemRegister::DBGWVR15_EL1 => 0x807e,
            SystemRegister::DBGWCR15_EL1 => 0x807f,
            SystemRegister::MIDR_EL1 => 0xc000,
            SystemRegister::MPIDR_EL1 => 0xc005,
            SystemRegister::ID_AA64PFR0_EL1 => 0xc020,
            SystemRegister::ID_AA64PFR1_EL1 => 0xc021,
            SystemRegister::ID_AA64DFR0_EL1 => 0xc028,
            SystemRegister::ID_AA64DFR1_EL1 => 0xc029,
            SystemRegister::ID_AA64ISAR0_EL1 => 0xc030,
            SystemRegister::ID_AA64ISAR1_EL1 => 0xc031,
            SystemRegister::ID_AA64MMFR0_EL1 => 0xc038,
            SystemRegister::ID_AA64MMFR1_EL1 => 0xc039,
            SystemRegister::ID_AA64MMFR2_EL1 => 0xc03a,
            SystemRegister::SCTLR_EL1 => 0xc080,
            SystemRegister::CPACR_EL1 => 0xc082,
            SystemRegister::TTBR0_EL1 => 0xc100,
            SystemRegister::TTBR1_EL1 => 0xc101,
            SystemRegister::TCR_EL1 => 0xc102,
            SystemRegister::APIAKEYLO_EL1 => 0xc108,
            SystemRegister::APIAKEYHI_EL1 => 0xc109,
            SystemRegister::APIBKEYLO_EL1 => 0xc10a,
            SystemRegister::APIBKEYHI_EL1 => 0xc10b,
            SystemRegister::APDAKEYLO_EL1 => 0xc110,
            SystemRegister::APDAKEYHI_EL1 => 0xc111,
            SystemRegister::APDBKEYLO_EL1 => 0xc112,
            SystemRegister::APDBKEYHI_EL1 => 0xc113,
            SystemRegister::APGAKEYLO_EL1 => 0xc118,
            SystemRegister::APGAKEYHI_EL1 => 0xc119,
            SystemRegister::SPSR_EL1 => 0xc200,
            SystemRegister::ELR_EL1 => 0xc201,
            SystemRegister::SP_EL0 => 0xc208,
            SystemRegister::AFSR0_EL1 => 0xc288,
            SystemRegister::AFSR1_EL1 => 0xc289,
            SystemRegister::ESR_EL1 => 0xc290,
            SystemRegister::FAR_EL1 => 0xc300,
            SystemRegister::PAR_EL1 => 0xc3a0,
            SystemRegister::MAIR_EL1 => 0xc510,
            SystemRegister::AMAIR_EL1 => 0xc518,
            SystemRegister::VBAR_EL1 => 0xc600,
            SystemRegister::CONTEXTIDR_EL1 => 0xc681,
            SystemRegister::TPIDR_EL1 => 0xc684,
            SystemRegister::CNTKCTL_EL1 => 0xc708,
            SystemRegister::CSSELR_EL1 => 0xd000,
            SystemRegister::TPIDR_EL0 => 0xde82,
            SystemRegister::TPIDRRO_EL0 => 0xde83,
            SystemRegister::CNTV_CTL_EL0 => 0xdf19,
            SystemRegister::CNTV_CVAL_EL0 => 0xdf1a,
            SystemRegister::SP_EL1 => 0xe208,
        }
    }
}

} // verus!
