//! The register mapper of the Windows/AArch64 unwinder.
//!
//! It maps a register to its number in the unwind information. No
//! register class has a mapping yet: for an integer register and for a
//! float register alike, the mapper has nothing to give.

use vstd::prelude::*;
use crate::reg::{Reg, RegisterClass};

verus! {

/// A register as the unwind information names it: its hardware number
/// within its class.
#[derive(Clone, Copy, Debug, PartialEq, Eq, Structural)]
pub enum MappedRegister {
    /// A general-purpose register.
    Int(u8),
    /// A floating-point or vector register.
    Float(u8),
}

/// Whether the mapper has a mapping for registers of `class`. It has one
/// for neither integer nor float registers.
pub open spec fn has_mapping(class: RegisterClass) -> bool {
    match class {
        RegisterClass::Int => false,
        RegisterClass::Float => false,
    }
}

/// No register class has a mapping: the mapper can map no register at all.
pub proof fn lemma_no_class_has_mapping(class: RegisterClass)
    ensures
        !has_mapping(class),
{
}

/// Whether `mapped` names a register of `reg`'s class: an integer register
/// is named by `MappedRegister::Int`, a float register by
/// `MappedRegister::Float`.
pub open spec fn keeps_class(reg: Reg, mapped: MappedRegister) -> bool {
    &&& (mapped is Int <==> reg.class == RegisterClass::Int)
    &&& (mapped is Float <==> reg.class == RegisterClass::Float)
}

/// The mapper accepts no register: whatever its number and class, there
/// is no mapping for it, so no call of `RegisterMapper::map` returns.
pub proof fn lemma_map_accepts_no_register(reg: Reg)
    ensures
        !has_mapping(reg.class),
{
}

/// The register mapper of the Windows/AArch64 unwinder.
pub struct RegisterMapper;

impl RegisterMapper {
    /// Maps `reg` to its name in the unwind information. The mapping is
    /// defined only for a class that has one (see `has_mapping`), and no
    /// class has one yet.
    pub fn map(reg: Reg) -> (mapped: MappedRegister)
        requires
            has_mapping(reg.class),
        ensures
            keeps_class(reg, mapped),
    {
        match reg.class() {
            RegisterClass::Int => unreached(),
            RegisterClass::Float => unreached(),
        }
    }
}

} // verus!
