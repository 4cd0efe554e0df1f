//! Hardware probe decisions: register identifiers, the feature gate for the
//! isolation-region registers, and the fixed port sequence of the interrupt
//! counter probe.
//!
//! Reading a feature-gated register without first confirming its support bit
//! faults the processor, so the support test is the safety decision of the
//! whole probe: the two region-descriptor registers may be read exactly when the
//! capability bit says so. The raw register and port accesses themselves
//! happen outside this crate; it only decides which accesses are allowed.

use vstd::prelude::*;

verus! {

/// Identifier of the monotonically incrementing interrupt counter register.
pub const MSR_SMI_COUNT: u32 = 0x34;
/// Identifier of the capability register holding the isolation-region bit.
pub const MSR_MTRR_CAP: u32 = 0xfe;
/// Identifier of the isolation-region base descriptor register (feature-gated).
pub const IA32_SMRR_PHYSBASE: u32 = 0x1f2;
/// Identifier of the isolation-region mask descriptor register (feature-gated).
pub const IA32_SMRR_PHYSMASK: u32 = 0x1f3;

/// Diagnostic command port of the interrupt counter probe.
pub const APM_CNT_PORT: u16 = 0xb2;
/// Diagnostic status port of the interrupt counter probe.
pub const APM_STS_PORT: u16 = 0xb3;

/// Bit 11 of the capability register reports isolation-region support.
pub open spec fn smrr_supported(mtrr_cap: u64) -> bool {
    (mtrr_cap >> 11) & 1 == 1
}

/// Decides from the capability register value whether the isolation-region
/// descriptor registers may be read.
pub fn check_smrr_support(mtrr_cap: u64) -> (supported: bool)
    ensures
        supported == smrr_supported(mtrr_cap),
{
    (mtrr_cap >> 11) & 1 == 1
}

/// The registers the probe must read after the capability check: the two
/// region descriptors when the support bit is set, none otherwise.
///
/// The region-descriptor registers appear in the result if and only if the
/// capability bit is set, so a caller that reads exactly the returned
/// registers can never fault on a feature-gated read.
pub fn smrr_registers_to_read(mtrr_cap: u64) -> (regs: Vec<u32>)
    ensures
        smrr_supported(mtrr_cap) ==> regs@ == seq![IA32_SMRR_PHYSBASE, IA32_SMRR_PHYSMASK],
        !smrr_supported(mtrr_cap) ==> regs@ == Seq::<u32>::empty(),
{
    let mut regs: Vec<u32> = Vec::new();
    if check_smrr_support(mtrr_cap) {
        regs.push(IA32_SMRR_PHYSBASE);
        regs.push(IA32_SMRR_PHYSMASK);
        proof {
            assert(regs@ =~= seq![IA32_SMRR_PHYSBASE, IA32_SMRR_PHYSMASK]);
        }
    } else {
        proof {
            assert(regs@ =~= Seq::<u32>::empty());
        }
    }
    regs
}

/// One raw access to a diagnostic I/O port.
#[derive(Clone, Copy, Debug, PartialEq, Eq, Structural)]
pub enum PortOp {
    Read { port: u16 },
    Write { port: u16, value: u8 },
}

/// The fixed port sequence of the interrupt counter probe: read both
/// diagnostic ports, write the two acknowledgement values, read both again.
pub open spec fn smi_probe_ops() -> Seq<PortOp> {
    seq![
        PortOp::Read { port: APM_CNT_PORT },
        PortOp::Read { port: APM_STS_PORT },
        PortOp::Write { port: APM_CNT_PORT, value: 0x1 },
        PortOp::Write { port: APM_STS_PORT, value: 0x4 },
        PortOp::Read { port: APM_CNT_PORT },
        PortOp::Read { port: APM_STS_PORT },
    ]
}

/// The port accesses of the interrupt counter probe, in execution order.
///
/// The probe is a best-effort diagnostic: the values read gate nothing, and
/// the counter register is read before and after this sequence only for the
/// log. The sequence itself is fixed, including the two acknowledgement
/// writes.
pub fn smi_probe_port_ops() -> (ops: Vec<PortOp>)
    ensures
        ops@ == smi_probe_ops(),
{
    let mut ops: Vec<PortOp> = Vec::new();
    ops.push(PortOp::Read { port: APM_CNT_PORT });
    ops.push(PortOp::Read { port: APM_STS_PORT });
    ops.push(PortOp::Write { port: APM_CNT_PORT, value: 0x1 });
    ops.push(PortOp::Write { port: APM_STS_PORT, value: 0x4 });
    ops.push(PortOp::Read { port: APM_CNT_PORT });
    ops.push(PortOp::Read { port: APM_STS_PORT });
    proof {
        assert(ops@ =~= smi_probe_ops());
    }
    ops
}

} // verus!
