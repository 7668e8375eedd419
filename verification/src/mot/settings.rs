//! Device settings that are chosen among named values.
use vstd::prelude::*;

verus! {

/// The period over which a velocity sample is measured.
#[allow(non_camel_case_types)]
#[derive(Debug, Copy, Clone, PartialEq, Eq, Hash, Structural)]
pub enum VelocityMeasPeriod {
    Period_1Ms,
    Period_2Ms,
    Period_5Ms,
    Period_10Ms,
    Period_20Ms,
    Period_25Ms,
    Period_50Ms,
    Period_100Ms,
}

impl VelocityMeasPeriod {
    /// The number that the device interface uses for this value.
    pub open spec fn spec_value(self) -> i32 {
        match self {
            VelocityMeasPeriod::Period_1Ms => 1i32,
            VelocityMeasPeriod::Period_2Ms => 2i32,
            VelocityMeasPeriod::Period_5Ms => 5i32,
            VelocityMeasPeriod::Period_10Ms => 10i32,
            VelocityMeasPeriod::Period_20Ms => 20i32,
            VelocityMeasPeriod::Period_25Ms => 25i32,
            VelocityMeasPeriod::Period_50Ms => 50i32,
            VelocityMeasPeriod::Period_100Ms => 100i32,
        }
    }

    /// The number that the device interface uses for this value.
    pub fn value(self) -> (r: i32)
        ensures
            r == self.spec_value(),
    {
        match self {
            VelocityMeasPeriod::Period_1Ms => 1i32,
            VelocityMeasPeriod::Period_2Ms => 2i32,
            VelocityMeasPeriod::Period_5Ms => 5i32,
            VelocityMeasPeriod::Period_10Ms => 10i32,
            VelocityMeasPeriod::Period_20Ms => 20i32,
            VelocityMeasPeriod::Period_25Ms => 25i32,
            VelocityMeasPeriod::Period_50Ms => 50i32,
            VelocityMeasPeriod::Period_100Ms => 100i32,
        }
    }
}

impl Default for VelocityMeasPeriod {
    /// `Period_100Ms`.
    fn default() -> (r: Self)
        ensures
            r == VelocityMeasPeriod::Period_100Ms,
    {
        VelocityMeasPeriod::Period_100Ms
    }
}

/// The polarity of the auxiliary PID loop (PID1).
#[allow(non_camel_case_types)]
#[derive(Debug, Copy, Clone, PartialEq, Eq, Hash, Structural)]
pub enum AuxPIDPolarity {
    Standard,
    Inverted,
}

impl AuxPIDPolarity {
    /// The number that the device interface uses for this value.
    pub open spec fn spec_value(self) -> i32 {
        match self {
            AuxPIDPolarity::Standard => 0i32,
            AuxPIDPolarity::Inverted => 1i32,
        }
    }

    /// The number that the device interface uses for this value.
    pub fn value(self) -> (r: i32)
        ensures
            r == self.spec_value(),
    {
        match self {
            AuxPIDPolarity::Standard => 0i32,
            AuxPIDPolarity::Inverted => 1i32,
        }
    }
}

impl Default for AuxPIDPolarity {
    /// `Standard`.
    fn default() -> (r: Self)
        ensures
            r == AuxPIDPolarity::Standard,
    {
        AuxPIDPolarity::Standard
    }
}

/// The source of a limit switch.
#[allow(non_camel_case_types)]
#[derive(Debug, Copy, Clone, PartialEq, Eq, Hash, Structural)]
pub enum LimitSwitchSource {
    FeedbackConnector,
    RemoteTalonSRX,
    RemoteCANifier,
    Deactivated,
}

impl LimitSwitchSource {
    /// The number that the device interface uses for this value.
    pub open spec fn spec_value(self) -> i32 {
        match self {
            LimitSwitchSource::FeedbackConnector => 0i32,
            LimitSwitchSource::RemoteTalonSRX => 1i32,
            LimitSwitchSource::RemoteCANifier => 2i32,
            LimitSwitchSource::Deactivated => 3i32,
        }
    }

    /// The number that the device interface uses for this value.
    pub fn value(self) -> (r: i32)
        ensures
            r == self.spec_value(),
    {
        match self {
            LimitSwitchSource::FeedbackConnector => 0i32,
            LimitSwitchSource::RemoteTalonSRX => 1i32,
            LimitSwitchSource::RemoteCANifier => 2i32,
            LimitSwitchSource::Deactivated => 3i32,
        }
    }
}

/// The remote source of a limit switch.
#[allow(non_camel_case_types)]
#[derive(Debug, Copy, Clone, PartialEq, Eq, Hash, Structural)]
pub enum RemoteLimitSwitchSource {
    RemoteTalonSRX,
    RemoteCANifier,
    Deactivated,
}

impl RemoteLimitSwitchSource {
    /// The number that the device interface uses for this value.
    pub open spec fn spec_value(self) -> i32 {
        match self {
            RemoteLimitSwitchSource::RemoteTalonSRX => 1i32,
            RemoteLimitSwitchSource::RemoteCANifier => 2i32,
            RemoteLimitSwitchSource::Deactivated => 3i32,
        }
    }

    /// The number that the device interface uses for this value.
    pub fn value(self) -> (r: i32)
        ensures
            r == self.spec_value(),
    {
        match self {
            RemoteLimitSwitchSource::RemoteTalonSRX => 1i32,
            RemoteLimitSwitchSource::RemoteCANifier => 2i32,
            RemoteLimitSwitchSource::Deactivated => 3i32,
        }
    }
}

/// The normal state of a limit switch.
#[allow(non_camel_case_types)]
#[derive(Debug, Copy, Clone, PartialEq, Eq, Hash, Structural)]
pub enum LimitSwitchNormal {
    NormallyOpen,
    NormallyClosed,
    Disabled,
}

impl LimitSwitchNormal {
    /// The number that the device interface uses for this value.
    pub open spec fn spec_value(self) -> i32 {
        match self {
            LimitSwitchNormal::NormallyOpen => 0i32,
            LimitSwitchNormal::NormallyClosed => 1i32,
            LimitSwitchNormal::Disabled => 2i32,
        }
    }

    /// The number that the device interface uses for this value.
    pub fn value(self) -> (r: i32)
        ensures
            r == self.spec_value(),
    {
        match self {
            LimitSwitchNormal::NormallyOpen => 0i32,
            LimitSwitchNormal::NormallyClosed => 1i32,
            LimitSwitchNormal::Disabled => 2i32,
        }
    }
}

/// What the motor controller does when its output is neutral.
#[allow(non_camel_case_types)]
#[derive(Debug, Copy, Clone, PartialEq, Eq, Hash, Structural)]
pub enum NeutralMode {
    EEPROMSetting,
    Coast,
    Brake,
}

impl NeutralMode {
    /// The number that the device interface uses for this value.
    pub open spec fn spec_value(self) -> i32 {
        match self {
            NeutralMode::EEPROMSetting => 0i32,
            NeutralMode::Coast => 1i32,
            NeutralMode::Brake => 2i32,
        }
    }

    /// The number that the device interface uses for this value.
    pub fn value(self) -> (r: i32)
        ensures
            r == self.spec_value(),
    {
        match self {
            NeutralMode::EEPROMSetting => 0i32,
            NeutralMode::Coast => 1i32,
            NeutralMode::Brake => 2i32,
        }
    }
}

/// How the output of a motor controller is inverted.
#[allow(non_camel_case_types)]
#[derive(Debug, Copy, Clone, PartialEq, Eq, Hash, Structural)]
pub enum InvertType {
    NoInvert,
    InvertMotorOutput,
    FollowMaster,
    OpposeMaster,
}

impl InvertType {
    /// The number that the device interface uses for this value.
    pub open spec fn spec_value(self) -> i32 {
        match self {
            InvertType::NoInvert => 0i32,
            InvertType::InvertMotorOutput => 1i32,
            InvertType::FollowMaster => 2i32,
            InvertType::OpposeMaster => 3i32,
        }
    }

    /// The number that the device interface uses for this value.
    pub fn value(self) -> (r: i32)
        ensures
            r == self.spec_value(),
    {
        match self {
            InvertType::NoInvert => 0i32,
            InvertType::InvertMotorOutput => 1i32,
            InvertType::FollowMaster => 2i32,
            InvertType::OpposeMaster => 3i32,
        }
    }
}

/// A term of the sensor sum or of the sensor difference.
#[allow(non_camel_case_types)]
#[derive(Debug, Copy, Clone, PartialEq, Eq, Hash, Structural)]
pub enum SensorTerm {
    Sum0,
    Sum1,
    Diff0,
    Diff1,
}

impl SensorTerm {
    /// The number that the device interface uses for this value.
    pub open spec fn spec_value(self) -> i32 {
        match self {
            SensorTerm::Sum0 => 0i32,
            SensorTerm::Sum1 => 1i32,
            SensorTerm::Diff0 => 2i32,
            SensorTerm::Diff1 => 3i32,
        }
    }

    /// The number that the device interface uses for this value.
    pub fn value(self) -> (r: i32)
        ensures
            r == self.spec_value(),
    {
        match self {
            SensorTerm::Sum0 => 0i32,
            SensorTerm::Sum1 => 1i32,
            SensorTerm::Diff0 => 2i32,
            SensorTerm::Diff1 => 3i32,
        }
    }
}

impl From<bool> for InvertType {
    /// `true` inverts the motor output; `false` does not invert it.
    fn from(invert: bool) -> (r: InvertType) {
        if invert {
            InvertType::InvertMotorOutput
        } else {
            InvertType::NoInvert
        }
    }
}

impl vstd::std_specs::convert::FromSpecImpl<bool> for InvertType {
    open spec fn obeys_from_spec() -> bool {
        true
    }

    open spec fn from_spec(invert: bool) -> InvertType {
        if invert {
            InvertType::InvertMotorOutput
        } else {
            InvertType::NoInvert
        }
    }
}

/// Distinct values of each of these settings have distinct device numbers.
pub proof fn lemma_setting_values_distinct()
    ensures
        forall|a: VelocityMeasPeriod, b: VelocityMeasPeriod| a.spec_value() == b.spec_value() ==> a == b,
        forall|a: AuxPIDPolarity, b: AuxPIDPolarity| a.spec_value() == b.spec_value() ==> a == b,
        forall|a: LimitSwitchSource, b: LimitSwitchSource| a.spec_value() == b.spec_value() ==> a == b,
        forall|a: RemoteLimitSwitchSource, b: RemoteLimitSwitchSource| a.spec_value() == b.spec_value() ==> a == b,
        forall|a: LimitSwitchNormal, b: LimitSwitchNormal| a.spec_value() == b.spec_value() ==> a == b,
        forall|a: NeutralMode, b: NeutralMode| a.spec_value() == b.spec_value() ==> a == b,
        forall|a: InvertType, b: InvertType| a.spec_value() == b.spec_value() ==> a == b,
        forall|a: SensorTerm, b: SensorTerm| a.spec_value() == b.spec_value() ==> a == b,
{
}

} // verus!
