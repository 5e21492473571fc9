//! Interrupts the CPU serves.
use vstd::prelude::*;

verus! {

#[derive(Clone, Copy, Debug, PartialEq, Eq, Structural)]
pub enum InterruptType {
    NMI,
}

#[derive(Clone, Copy, PartialEq, Eq, Structural)]
pub struct Interrupt {
    pub _type: InterruptType,
    /// Where the handler's address is stored.
    pub vec_addr: u16,
    pub b_flag_mask: u8,
    pub cpu_cycles: u8,
}

/// The non-maskable interrupt: vector at 0xFFFA, two cycles.
pub open spec fn nmi_spec() -> Interrupt {
    Interrupt { _type: InterruptType::NMI, vec_addr: 0xfffA, b_flag_mask: 0b00100000, cpu_cycles: 2 }
}

pub fn nmi() -> (r: Interrupt)
    ensures
        r == nmi_spec(),
{
    Interrupt { _type: InterruptType::NMI, vec_addr: 0xfffA, b_flag_mask: 0b00100000, cpu_cycles: 2 }
}

} // verus!
