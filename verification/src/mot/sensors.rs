//! Feedback devices and sensor sources, and the raw sensor readings.
use vstd::prelude::*;

verus! {

/// The source of a remote sensor.
#[allow(non_camel_case_types)]
#[derive(Debug, Copy, Clone, PartialEq, Eq, Hash, Structural)]
pub enum RemoteSensorSource {
    Off,
    TalonSRX_SelectedSensor,
    Pigeon_Yaw,
    Pigeon_Pitch,
    Pigeon_Roll,
    CANifier_Quadrature,
    CANifier_PWMInput0,
    CANifier_PWMInput1,
    CANifier_PWMInput2,
    CANifier_PWMInput3,
    GadgeteerPigeon_Yaw,
    GadgeteerPigeon_Pitch,
    GadgeteerPigeon_Roll,
}

impl RemoteSensorSource {
    /// The number that the device interface uses for this value.
    pub open spec fn spec_value(self) -> i32 {
        match self {
            RemoteSensorSource::Off => 0i32,
            RemoteSensorSource::TalonSRX_SelectedSensor => 1i32,
            RemoteSensorSource::Pigeon_Yaw => 2i32,
            RemoteSensorSource::Pigeon_Pitch => 3i32,
            RemoteSensorSource::Pigeon_Roll => 4i32,
            RemoteSensorSource::CANifier_Quadrature => 5i32,
            RemoteSensorSource::CANifier_PWMInput0 => 6i32,
            RemoteSensorSource::CANifier_PWMInput1 => 7i32,
            RemoteSensorSource::CANifier_PWMInput2 => 8i32,
            RemoteSensorSource::CANifier_PWMInput3 => 9i32,
            RemoteSensorSource::GadgeteerPigeon_Yaw => 10i32,
            RemoteSensorSource::GadgeteerPigeon_Pitch => 11i32,
            RemoteSensorSource::GadgeteerPigeon_Roll => 12i32,
        }
    }

    /// The value whose number is `v`, if there is one.
    pub open spec fn spec_from_i64(v: i64) -> Option<RemoteSensorSource> {
        if v == 0i64 {
            Some(RemoteSensorSource::Off)
        } else if v == 1i64 {
            Some(RemoteSensorSource::TalonSRX_SelectedSensor)
        } else if v == 2i64 {
            Some(RemoteSensorSource::Pigeon_Yaw)
        } else if v == 3i64 {
            Some(RemoteSensorSource::Pigeon_Pitch)
        } else if v == 4i64 {
            Some(RemoteSensorSource::Pigeon_Roll)
        } else if v == 5i64 {
            Some(RemoteSensorSource::CANifier_Quadrature)
        } else if v == 6i64 {
            Some(RemoteSensorSource::CANifier_PWMInput0)
        } else if v == 7i64 {
            Some(RemoteSensorSource::CANifier_PWMInput1)
        } else if v == 8i64 {
            Some(RemoteSensorSource::CANifier_PWMInput2)
        } else if v == 9i64 {
            Some(RemoteSensorSource::CANifier_PWMInput3)
        } else if v == 10i64 {
            Some(RemoteSensorSource::GadgeteerPigeon_Yaw)
        } else if v == 11i64 {
            Some(RemoteSensorSource::GadgeteerPigeon_Pitch)
        } else if v == 12i64 {
            Some(RemoteSensorSource::GadgeteerPigeon_Roll)
        } else {
            None
        }
    }

    /// The value that a parameter reads back as: the value whose number is
    /// the parameter's whole part, or the default when there is none.
    pub open spec fn spec_decode(whole: Option<i64>) -> RemoteSensorSource {
        match whole {
            Some(v) => match Self::spec_from_i64(v) {
                Some(d) => d,
                None => RemoteSensorSource::Off,
            },
            None => RemoteSensorSource::Off,
        }
    }

    /// The number that the device interface uses for this value.
    pub fn value(self) -> (r: i32)
        ensures
            r == self.spec_value(),
    {
        match self {
            RemoteSensorSource::Off => 0i32,
            RemoteSensorSource::TalonSRX_SelectedSensor => 1i32,
            RemoteSensorSource::Pigeon_Yaw => 2i32,
            RemoteSensorSource::Pigeon_Pitch => 3i32,
            RemoteSensorSource::Pigeon_Roll => 4i32,
            RemoteSensorSource::CANifier_Quadrature => 5i32,
            RemoteSensorSource::CANifier_PWMInput0 => 6i32,
            RemoteSensorSource::CANifier_PWMInput1 => 7i32,
            RemoteSensorSource::CANifier_PWMInput2 => 8i32,
            RemoteSensorSource::CANifier_PWMInput3 => 9i32,
            RemoteSensorSource::GadgeteerPigeon_Yaw => 10i32,
            RemoteSensorSource::GadgeteerPigeon_Pitch => 11i32,
            RemoteSensorSource::GadgeteerPigeon_Roll => 12i32,
        }
    }

    /// The value whose number is `v`, if there is one.
    pub fn from_i64(v: i64) -> (r: Option<RemoteSensorSource>)
        ensures
            r == Self::spec_from_i64(v),
    {
        if v == 0i64 {
            Some(RemoteSensorSource::Off)
        } else if v == 1i64 {
            Some(RemoteSensorSource::TalonSRX_SelectedSensor)
        } else if v == 2i64 {
            Some(RemoteSensorSource::Pigeon_Yaw)
        } else if v == 3i64 {
            Some(RemoteSensorSource::Pigeon_Pitch)
        } else if v == 4i64 {
            Some(RemoteSensorSource::Pigeon_Roll)
        } else if v == 5i64 {
            Some(RemoteSensorSource::CANifier_Quadrature)
        } else if v == 6i64 {
            Some(RemoteSensorSource::CANifier_PWMInput0)
        } else if v == 7i64 {
            Some(RemoteSensorSource::CANifier_PWMInput1)
        } else if v == 8i64 {
            Some(RemoteSensorSource::CANifier_PWMInput2)
        } else if v == 9i64 {
            Some(RemoteSensorSource::CANifier_PWMInput3)
        } else if v == 10i64 {
            Some(RemoteSensorSource::GadgeteerPigeon_Yaw)
        } else if v == 11i64 {
            Some(RemoteSensorSource::GadgeteerPigeon_Pitch)
        } else if v == 12i64 {
            Some(RemoteSensorSource::GadgeteerPigeon_Roll)
        } else {
            None
        }
    }

    /// The value that a parameter reads back as: the value whose number is
    /// the parameter's whole part, or the default (`Off`) when the
    /// parameter is not a whole number that names a value.
    pub fn decode(whole: Option<i64>) -> (r: RemoteSensorSource)
        ensures
            r == Self::spec_decode(whole),
    {
        match whole {
            Some(v) => match Self::from_i64(v) {
                Some(d) => d,
                None => RemoteSensorSource::Off,
            },
            None => RemoteSensorSource::Off,
        }
    }
}

impl Default for RemoteSensorSource {
    /// Returns `RemoteSensorSource::Off`.
    fn default() -> (r: Self)
        ensures
            r == RemoteSensorSource::Off,
    {
        RemoteSensorSource::Off
    }
}

/// A feedback device of a Talon SRX, local or remote.
#[allow(non_camel_case_types)]
#[derive(Debug, Copy, Clone, PartialEq, Eq, Hash, Structural)]
pub enum FeedbackDevice {
    QuadEncoder,
    Analog,
    Tachometer,
    PulseWidthEncodedPosition,
    SensorSum,
    SensorDifference,
    RemoteSensor0,
    RemoteSensor1,
    SoftwareEmulatedSensor,
}

impl FeedbackDevice {
    /// The number that the device interface uses for this value.
    pub open spec fn spec_value(self) -> i32 {
        match self {
            FeedbackDevice::QuadEncoder => 0i32,
            FeedbackDevice::Analog => 2i32,
            FeedbackDevice::Tachometer => 4i32,
            FeedbackDevice::PulseWidthEncodedPosition => 8i32,
            FeedbackDevice::SensorSum => 9i32,
            FeedbackDevice::SensorDifference => 10i32,
            FeedbackDevice::RemoteSensor0 => 11i32,
            FeedbackDevice::RemoteSensor1 => 12i32,
            FeedbackDevice::SoftwareEmulatedSensor => 15i32,
        }
    }

    /// The value whose number is `v`, if there is one.
    pub open spec fn spec_from_i64(v: i64) -> Option<FeedbackDevice> {
        if v == 0i64 {
            Some(FeedbackDevice::QuadEncoder)
        } else if v == 2i64 {
            Some(FeedbackDevice::Analog)
        } else if v == 4i64 {
            Some(FeedbackDevice::Tachometer)
        } else if v == 8i64 {
            Some(FeedbackDevice::PulseWidthEncodedPosition)
        } else if v == 9i64 {
            Some(FeedbackDevice::SensorSum)
        } else if v == 10i64 {
            Some(FeedbackDevice::SensorDifference)
        } else if v == 11i64 {
            Some(FeedbackDevice::RemoteSensor0)
        } else if v == 12i64 {
            Some(FeedbackDevice::RemoteSensor1)
        } else if v == 15i64 {
            Some(FeedbackDevice::SoftwareEmulatedSensor)
        } else {
            None
        }
    }

    /// The value that a parameter reads back as: the value whose number is
    /// the parameter's whole part, or the default when there is none.
    pub open spec fn spec_decode(whole: Option<i64>) -> FeedbackDevice {
        match whole {
            Some(v) => match Self::spec_from_i64(v) {
                Some(d) => d,
                None => FeedbackDevice::QuadEncoder,
            },
            None => FeedbackDevice::QuadEncoder,
        }
    }

    /// The number that the device interface uses for this value.
    pub fn value(self) -> (r: i32)
        ensures
            r == self.spec_value(),
    {
        match self {
            FeedbackDevice::QuadEncoder => 0i32,
            FeedbackDevice::Analog => 2i32,
            FeedbackDevice::Tachometer => 4i32,
            FeedbackDevice::PulseWidthEncodedPosition => 8i32,
            FeedbackDevice::SensorSum => 9i32,
            FeedbackDevice::SensorDifference => 10i32,
            FeedbackDevice::RemoteSensor0 => 11i32,
            FeedbackDevice::RemoteSensor1 => 12i32,
            FeedbackDevice::SoftwareEmulatedSensor => 15i32,
        }
    }

    /// The value whose number is `v`, if there is one.
    pub fn from_i64(v: i64) -> (r: Option<FeedbackDevice>)
        ensures
            r == Self::spec_from_i64(v),
    {
        if v == 0i64 {
            Some(FeedbackDevice::QuadEncoder)
        } else if v == 2i64 {
            Some(FeedbackDevice::Analog)
        } else if v == 4i64 {
            Some(FeedbackDevice::Tachometer)
        } else if v == 8i64 {
            Some(FeedbackDevice::PulseWidthEncodedPosition)
        } else if v == 9i64 {
            Some(FeedbackDevice::SensorSum)
        } else if v == 10i64 {
            Some(FeedbackDevice::SensorDifference)
        } else if v == 11i64 {
            Some(FeedbackDevice::RemoteSensor0)
        } else if v == 12i64 {
            Some(FeedbackDevice::RemoteSensor1)
        } else if v == 15i64 {
            Some(FeedbackDevice::SoftwareEmulatedSensor)
        } else {
            None
        }
    }

    /// The value that a parameter reads back as: the value whose number is
    /// the parameter's whole part, or the default (`QuadEncoder`) when the
    /// parameter is not a whole number that names a value.
    pub fn decode(whole: Option<i64>) -> (r: FeedbackDevice)
        ensures
            r == Self::spec_decode(whole),
    {
        match whole {
            Some(v) => match Self::from_i64(v) {
                Some(d) => d,
                None => FeedbackDevice::QuadEncoder,
            },
            None => FeedbackDevice::QuadEncoder,
        }
    }
}

impl Default for FeedbackDevice {
    /// Returns `FeedbackDevice::QuadEncoder`.
    fn default() -> (r: Self)
        ensures
            r == FeedbackDevice::QuadEncoder,
    {
        FeedbackDevice::QuadEncoder
    }
}

/// A remote feedback device.
#[allow(non_camel_case_types)]
#[derive(Debug, Copy, Clone, PartialEq, Eq, Hash, Structural)]
pub enum RemoteFeedbackDevice {
    FactoryDefaultOff,
    SensorSum,
    SensorDifference,
    RemoteSensor0,
    RemoteSensor1,
    SoftwareEmulatedSensor,
}

impl RemoteFeedbackDevice {
    /// The number that the device interface uses for this value.
    pub open spec fn spec_value(self) -> i32 {
        match self {
            RemoteFeedbackDevice::FactoryDefaultOff => 0i32,
            RemoteFeedbackDevice::SensorSum => 9i32,
            RemoteFeedbackDevice::SensorDifference => 10i32,
            RemoteFeedbackDevice::RemoteSensor0 => 11i32,
            RemoteFeedbackDevice::RemoteSensor1 => 12i32,
            RemoteFeedbackDevice::SoftwareEmulatedSensor => 15i32,
        }
    }

    /// The value whose number is `v`, if there is one.
    pub open spec fn spec_from_i64(v: i64) -> Option<RemoteFeedbackDevice> {
        if v == 0i64 {
            Some(RemoteFeedbackDevice::FactoryDefaultOff)
        } else if v == 9i64 {
            Some(RemoteFeedbackDevice::SensorSum)
        } else if v == 10i64 {
            Some(RemoteFeedbackDevice::SensorDifference)
        } else if v == 11i64 {
            Some(RemoteFeedbackDevice::RemoteSensor0)
        } else if v == 12i64 {
            Some(RemoteFeedbackDevice::RemoteSensor1)
        } else if v == 15i64 {
            Some(RemoteFeedbackDevice::SoftwareEmulatedSensor)
        } else {
            None
        }
    }

    /// The value that a parameter reads back as: the value whose number is
    /// the parameter's whole part, or the default when there is none.
    pub open spec fn spec_decode(whole: Option<i64>) -> RemoteFeedbackDevice {
        match whole {
            Some(v) => match Self::spec_from_i64(v) {
                Some(d) => d,
                None => RemoteFeedbackDevice::FactoryDefaultOff,
            },
            None => RemoteFeedbackDevice::FactoryDefaultOff,
        }
    }

    /// The number that the device interface uses for this value.
    pub fn value(self) -> (r: i32)
        ensures
            r == self.spec_value(),
    {
        match self {
            RemoteFeedbackDevice::FactoryDefaultOff => 0i32,
            RemoteFeedbackDevice::SensorSum => 9i32,
            RemoteFeedbackDevice::SensorDifference => 10i32,
            RemoteFeedbackDevice::RemoteSensor0 => 11i32,
            RemoteFeedbackDevice::RemoteSensor1 => 12i32,
            RemoteFeedbackDevice::SoftwareEmulatedSensor => 15i32,
        }
    }

    /// The value whose number is `v`, if there is one.
    pub fn from_i64(v: i64) -> (r: Option<RemoteFeedbackDevice>)
        ensures
            r == Self::spec_from_i64(v),
    {
        if v == 0i64 {
            Some(RemoteFeedbackDevice::FactoryDefaultOff)
        } else if v == 9i64 {
            Some(RemoteFeedbackDevice::SensorSum)
        } else if v == 10i64 {
            Some(RemoteFeedbackDevice::SensorDifference)
        } else if v == 11i64 {
            Some(RemoteFeedbackDevice::RemoteSensor0)
        } else if v == 12i64 {
            Some(RemoteFeedbackDevice::RemoteSensor1)
        } else if v == 15i64 {
            Some(RemoteFeedbackDevice::SoftwareEmulatedSensor)
        } else {
            None
        }
    }

    /// The value that a parameter reads back as: the value whose number is
    /// the parameter's whole part, or the default (`FactoryDefaultOff`) when the
    /// parameter is not a whole number that names a value.
    pub fn decode(whole: Option<i64>) -> (r: RemoteFeedbackDevice)
        ensures
            r == Self::spec_decode(whole),
    {
        match whole {
            Some(v) => match Self::from_i64(v) {
                Some(d) => d,
                None => RemoteFeedbackDevice::FactoryDefaultOff,
            },
            None => RemoteFeedbackDevice::FactoryDefaultOff,
        }
    }
}

impl Default for RemoteFeedbackDevice {
    /// Returns `RemoteFeedbackDevice::FactoryDefaultOff`.
    fn default() -> (r: Self)
        ensures
            r == RemoteFeedbackDevice::FactoryDefaultOff,
    {
        RemoteFeedbackDevice::FactoryDefaultOff
    }
}

/// Reading a value back from its own number gives the value, and a number
/// decodes to a value with that number or to the default.
pub proof fn lemma_decode_round_trip(s: RemoteSensorSource, f: FeedbackDevice, g: RemoteFeedbackDevice, v: i64)
    ensures
        RemoteSensorSource::spec_decode(Some(s.spec_value() as i64)) == s,
        FeedbackDevice::spec_decode(Some(f.spec_value() as i64)) == f,
        RemoteFeedbackDevice::spec_decode(Some(g.spec_value() as i64)) == g,
        RemoteSensorSource::spec_decode(Some(v)).spec_value() == v || RemoteSensorSource::spec_decode(Some(v)) == RemoteSensorSource::Off,
        FeedbackDevice::spec_decode(Some(v)).spec_value() == v || FeedbackDevice::spec_decode(Some(v)) == FeedbackDevice::QuadEncoder,
        RemoteFeedbackDevice::spec_decode(Some(v)).spec_value() == v
            || RemoteFeedbackDevice::spec_decode(Some(v)) == RemoteFeedbackDevice::FactoryDefaultOff,
{
}

/// The state of a pin or a limit switch as the device reports it: any
/// nonzero number means high (closed).
pub fn pin_state(raw: i32) -> (r: bool)
    ensures
        r == (raw != 0),
{
    raw != 0
}

} // verus!
