//! Per-core interrupt enable layout and the raw interrupt-status banks.
use vstd::prelude::*;

use crate::regs::RegisterFile;

verus! {

/// The two execution cores of the chip.
#[derive(Debug, Clone, Copy, PartialEq, Eq, Structural)]
pub enum Cpu {
    /// The protocol core.
    ProCpu,
    /// The application core.
    AppCpu,
}

/// Bit positions of the "interrupt enable" and "NMI enable" flags in a pin's
/// interrupt-enable field, as seen by `cpu`.
pub open spec fn intr_enable_bits(cpu: Cpu) -> (u8, u8) {
    match cpu {
        Cpu::AppCpu => (0, 1),
        Cpu::ProCpu => (2, 3),
    }
}

/// `1 << k` where `flag` holds, else 0.
pub open spec fn flag_bit(flag: bool, k: u8) -> u8 {
    if flag {
        1u8 << k
    } else {
        0
    }
}

/// The value of a pin's interrupt-enable field that routes its interrupt
/// (and, separately, its NMI) to `cpu`.
pub open spec fn intr_enable_value(int_enable: bool, nmi_enable: bool, cpu: Cpu) -> u8 {
    flag_bit(int_enable, intr_enable_bits(cpu).0) | flag_bit(nmi_enable, intr_enable_bits(cpu).1)
}

fn flag_bit_exec(flag: bool, k: u8) -> (r: u8)
    requires
        k < 8,
    ensures
        r == flag_bit(flag, k),
{
    if flag {
        1u8 << k
    } else {
        0
    }
}

/// Encodes the interrupt-enable field for the core `cpu`: the application core
/// uses bits 0 and 1, the protocol core bits 2 and 3.
pub fn gpio_intr_enable(int_enable: bool, nmi_enable: bool, cpu: Cpu) -> (r: u8)
    ensures
        r == intr_enable_value(int_enable, nmi_enable, cpu),
{
    let (int_bit, nmi_bit) = match cpu {
        Cpu::AppCpu => (0u8, 1u8),
        Cpu::ProCpu => (2u8, 3u8),
    };
    flag_bit_exec(int_enable, int_bit) | flag_bit_exec(nmi_enable, nmi_bit)
}

/// The same logical request yields disjoint layouts on the two cores: on the
/// application core only bits 0 and 1 can be set (interrupt, then NMI), on the
/// protocol core only bits 2 and 3.
pub proof fn lemma_intr_enable_layout(int_enable: bool, nmi_enable: bool)
    ensures
        intr_enable_value(int_enable, nmi_enable, Cpu::AppCpu) == (if int_enable { 1u8 } else { 0u8 })
            | (if nmi_enable { 2u8 } else { 0u8 }),
        intr_enable_value(int_enable, nmi_enable, Cpu::ProCpu) == (if int_enable { 4u8 } else { 0u8 })
            | (if nmi_enable { 8u8 } else { 0u8 }),
        intr_enable_value(int_enable, nmi_enable, Cpu::AppCpu) & 0xfc == 0,
        intr_enable_value(int_enable, nmi_enable, Cpu::ProCpu) & 0xf3 == 0,
        (int_enable || nmi_enable) ==> intr_enable_value(int_enable, nmi_enable, Cpu::AppCpu)
            != intr_enable_value(int_enable, nmi_enable, Cpu::ProCpu),
{
    assert(1u8 << 0u8 == 1u8) by (bit_vector);
    assert(1u8 << 1u8 == 2u8) by (bit_vector);
    assert(1u8 << 2u8 == 4u8) by (bit_vector);
    assert(1u8 << 3u8 == 8u8) by (bit_vector);
    assert(forall|a: u8, b: u8| (a == 0 || a == 1) && (b == 0 || b == 2) ==> #[trigger] (a | b) & 0xfc == 0 && (a | b) <= 3 && ((a | b) == 0 <==> a == 0 && b == 0)) by (bit_vector);
    assert(forall|a: u8, b: u8| (a == 0 || a == 4) && (b == 0 || b == 8) ==> #[trigger] (a | b) & 0xf3 == 0 && ((a | b) == 0 || (a | b) >= 4)) by (bit_vector);
}

/// The banks of the GPIO interrupt-status register.
#[derive(Debug, Clone, Copy, PartialEq, Eq, Structural)]
pub enum InterruptStatusRegisterAccess {
    /// Status of pins 0 to 31.
    Bank0,
    /// Status of pins 32 to 39.
    Bank1,
}

impl InterruptStatusRegisterAccess {
    /// The raw pending-interrupt bitmap of this bank in `regs`.
    pub open spec fn spec_status(self, regs: &RegisterFile) -> u32 {
        match self {
            InterruptStatusRegisterAccess::Bank0 => regs.status,
            InterruptStatusRegisterAccess::Bank1 => regs.status1,
        }
    }

    /// Reads the pending-interrupt bitmap of this bank. The read clears nothing.
    pub fn interrupt_status_read(self, regs: &RegisterFile) -> (r: u32)
        ensures
            r == self.spec_status(regs),
    {
        match self {
            InterruptStatusRegisterAccess::Bank0 => regs.status,
            InterruptStatusRegisterAccess::Bank1 => regs.status1,
        }
    }
}

} // verus!
