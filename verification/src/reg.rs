//! Registers as the register allocator hands them to the unwinder.

use vstd::prelude::*;
use regalloc2::VReg;

verus! {

/// `regalloc2::VReg`, the allocator's virtual register: a register number
/// and a class, packed into one word. Verus sees nothing inside it.
#[verifier::external_type_specification]
#[verifier::external_body]
pub struct ExVReg(VReg);

/// The largest register number that `regalloc2::VReg::new` accepts.
pub const VREG_MAX: usize = 0x1f_ffff;

/// The register classes of the allocator: every register belongs to
/// exactly one of them.
#[derive(Clone, Copy, Debug, PartialEq, Eq, Structural)]
pub enum RegisterClass {
    /// General-purpose integer registers.
    Int,
    /// Floating-point and vector registers.
    Float,
}

/// A register as the unwinder reads it: its number and its class.
#[derive(Clone, Copy, Debug, PartialEq, Eq, Structural)]
pub struct Reg {
    /// The register number within the allocator's index space.
    pub index: usize,
    /// The class the register belongs to.
    pub class: RegisterClass,
}

/// Calls `regalloc2::VReg::vreg`, which gives the register number of a
/// `VReg`. The number is the packed word shifted right by one bit, so it
/// is below 2^31; what number a given `VReg` holds is not stated, since
/// Verus sees nothing inside a `VReg`.
#[verifier::external_body]
fn vreg_number(vreg: VReg) -> (n: usize)
    ensures
        n < 0x8000_0000,
{
    vreg.vreg()
}

/// Calls `regalloc2::VReg::class`, which gives the class of a `VReg`,
/// and names the allocator's class by the same variant of
/// `RegisterClass`. Which class a given `VReg` holds is not stated, since
/// Verus sees nothing inside a `VReg`.
#[verifier::external_body]
fn vreg_class(vreg: VReg) -> (c: RegisterClass) {
    match vreg.class() {
        regalloc2::RegClass::Int => RegisterClass::Int,
        regalloc2::RegClass::Float => RegisterClass::Float,
    }
}

impl Reg {
    /// The register that an allocator `VReg` stands for: its number and
    /// its class, as `regalloc2` reports them.
    pub fn from_vreg(vreg: VReg) -> (r: Reg)
        ensures
            r.index < 0x8000_0000,
    {
        let index = vreg_number(vreg);
        let class = vreg_class(vreg);
        Reg { index, class }
    }

    /// The class of the register.
    pub fn class(&self) -> (c: RegisterClass)
        ensures
            c == self.class,
    {
        self.class
    }
}

} // verus!
