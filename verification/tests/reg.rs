use aarch64_unwind::reg::{Reg, RegisterClass, VREG_MAX};
use regalloc2::{RegClass, VReg};

#[test]
fn from_vreg_reads_int_register() {
    let r = Reg::from_vreg(VReg::new(7, RegClass::Int));
    assert_eq!(r, Reg { index: 7, class: RegisterClass::Int });
    assert_eq!(r.class(), RegisterClass::Int);
}

#[test]
fn from_vreg_reads_float_register() {
    let r = Reg::from_vreg(VReg::new(42, RegClass::Float));
    assert_eq!(r.index, 42);
    assert_eq!(r.class(), RegisterClass::Float);
}

#[test]
fn from_vreg_reads_largest_register_number() {
    let r = Reg::from_vreg(VReg::new(VREG_MAX, RegClass::Float));
    assert_eq!(r.index, VREG_MAX);
    assert_eq!(r.class, RegisterClass::Float);
}

#[test]
fn from_vreg_reads_invalid_register() {
    let r = Reg::from_vreg(VReg::invalid());
    assert_eq!(r.index, VREG_MAX);
    assert_eq!(r.class(), RegisterClass::Int);
}

#[test]
fn class_gives_stored_class() {
    let r = Reg { index: 0, class: RegisterClass::Float };
    assert_eq!(r.class(), RegisterClass::Float);
    let r = Reg { index: 3, class: RegisterClass::Int };
    assert_eq!(r.class(), RegisterClass::Int);
}
