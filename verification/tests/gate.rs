//! The revision gate and the hardware probe decisions.

use uefi_test_runner::probe::{
    check_smrr_support, smi_probe_port_ops, smrr_registers_to_read, PortOp, APM_CNT_PORT,
    APM_STS_PORT, IA32_SMRR_PHYSBASE, IA32_SMRR_PHYSMASK,
};
use uefi_test_runner::revision::{check_revision, Revision};

#[test]
fn revision_below_major_minimum_is_rejected() {
    assert!(!check_revision(Revision::new(1, 99)));
    assert!(!check_revision(Revision::new(0, 0)));
}

#[test]
fn revision_two_with_old_minor_is_rejected() {
    assert!(!check_revision(Revision::new(2, 29)));
    assert!(!check_revision(Revision::new(2, 0)));
}

#[test]
fn minimum_supported_revision_is_accepted() {
    assert!(check_revision(Revision::new(2, 30)));
}

#[test]
fn revision_two_point_three_one_is_accepted() {
    assert!(check_revision(Revision::new(2, 31)));
}

#[test]
fn capability_bit_set_reads_both_region_registers() {
    let cap: u64 = 1 << 11;
    assert!(check_smrr_support(cap));
    let regs = smrr_registers_to_read(cap);
    assert_eq!(regs, vec![IA32_SMRR_PHYSBASE, IA32_SMRR_PHYSMASK]);
}

#[test]
fn capability_bit_clear_reads_no_gated_register() {
    // A register-port double would abort on any read of the gated
    // registers; here the read list itself must already be empty.
    for cap in [0u64, 0x7ff, !(1u64 << 11)] {
        assert!(!check_smrr_support(cap));
        let regs = smrr_registers_to_read(cap);
        assert!(regs.is_empty());
        assert!(!regs.contains(&IA32_SMRR_PHYSBASE));
        assert!(!regs.contains(&IA32_SMRR_PHYSMASK));
    }
}

#[test]
fn capability_bit_is_bit_eleven_alone() {
    assert!(check_smrr_support(0x800));
    assert!(!check_smrr_support(0x400));
    assert!(!check_smrr_support(0x1000));
    assert!(check_smrr_support(u64::MAX));
}

#[test]
fn counter_probe_sequence_is_fixed() {
    let ops = smi_probe_port_ops();
    assert_eq!(
        ops,
        vec![
            PortOp::Read { port: APM_CNT_PORT },
            PortOp::Read { port: APM_STS_PORT },
            PortOp::Write { port: APM_CNT_PORT, value: 0x1 },
            PortOp::Write { port: APM_STS_PORT, value: 0x4 },
            PortOp::Read { port: APM_CNT_PORT },
            PortOp::Read { port: APM_STS_PORT },
        ]
    );
}

#[test]
fn register_and_port_identifiers() {
    assert_eq!(uefi_test_runner::probe::MSR_SMI_COUNT, 0x34);
    assert_eq!(uefi_test_runner::probe::MSR_MTRR_CAP, 0xfe);
    assert_eq!(IA32_SMRR_PHYSBASE, 0x1f2);
    assert_eq!(IA32_SMRR_PHYSMASK, 0x1f3);
    assert_eq!(APM_CNT_PORT, 0xb2);
    assert_eq!(APM_STS_PORT, 0xb3);
}
