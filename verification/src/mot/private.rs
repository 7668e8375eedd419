//! Keeps users from implementing `MotorController` for types outside this crate.
use vstd::prelude::*;

verus! {

pub trait Sealed {
}

impl Sealed for super::controller::TalonSRX {
}

impl Sealed for super::controller::VictorSPX {
}

} // verus!
