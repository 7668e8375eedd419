//! Low-level enums related to the CANifier.
use vstd::prelude::*;

verus! {

/// Opaque device type that a CANifier handle points to.
pub struct Device {
    _private: [u8; 0],
}

/// General IO pins on the CANifier.
#[allow(non_camel_case_types)]
#[derive(Debug, Copy, Clone, PartialEq, Eq, Hash, Structural)]
pub enum GeneralPin {
    QUAD_IDX,
    QUAD_B,
    QUAD_A,
    LIMR,
    LIMF,
    SDA,
    SCL,
    SPI_CS,
    SPI_MISO_PWM2P,
    SPI_MOSI_PWM1P,
    SPI_CLK_PWM0P,
}

impl GeneralPin {
    /// The pin number that the CANifier API uses for this pin.
    pub open spec fn spec_value(self) -> u32 {
        match self {
            GeneralPin::QUAD_IDX => 0,
            GeneralPin::QUAD_B => 1,
            GeneralPin::QUAD_A => 2,
            GeneralPin::LIMR => 3,
            GeneralPin::LIMF => 4,
            GeneralPin::SDA => 5,
            GeneralPin::SCL => 6,
            GeneralPin::SPI_CS => 7,
            GeneralPin::SPI_MISO_PWM2P => 8,
            GeneralPin::SPI_MOSI_PWM1P => 9,
            GeneralPin::SPI_CLK_PWM0P => 10,
        }
    }

    /// The pin number that the CANifier API uses for this pin.
    pub fn value(self) -> (r: u32)
        ensures
            r == self.spec_value(),
    {
        match self {
            GeneralPin::QUAD_IDX => 0,
            GeneralPin::QUAD_B => 1,
            GeneralPin::QUAD_A => 2,
            GeneralPin::LIMR => 3,
            GeneralPin::LIMF => 4,
            GeneralPin::SDA => 5,
            GeneralPin::SCL => 6,
            GeneralPin::SPI_CS => 7,
            GeneralPin::SPI_MISO_PWM2P => 8,
            GeneralPin::SPI_MOSI_PWM1P => 9,
            GeneralPin::SPI_CLK_PWM0P => 10,
        }
    }
}

/// Control frame types of the CANifier.
#[allow(non_camel_case_types)]
#[derive(Debug, Copy, Clone, PartialEq, Eq, Hash, Structural)]
pub enum CANifierControlFrame {
    Control_1_General,
    Control_2_PwmOutput,
}

impl CANifierControlFrame {
    /// The number that the CANifier interface uses for this value.
    pub open spec fn spec_value(self) -> i32 {
        match self {
            CANifierControlFrame::Control_1_General => 0x03040000,
            CANifierControlFrame::Control_2_PwmOutput => 0x03040040,
        }
    }

    /// The number that the CANifier interface uses for this value.
    pub fn value(self) -> (r: i32)
        ensures
            r == self.spec_value(),
    {
        match self {
            CANifierControlFrame::Control_1_General => 0x03040000,
            CANifierControlFrame::Control_2_PwmOutput => 0x03040040,
        }
    }
}

/// Status frame types of the CANifier.
#[allow(non_camel_case_types)]
#[derive(Debug, Copy, Clone, PartialEq, Eq, Hash, Structural)]
pub enum CANifierStatusFrame {
    Status_1_General,
    Status_2_General,
    Status_3_PwmInputs0,
    Status_4_PwmInputs1,
    Status_5_PwmInputs2,
    Status_6_PwmInputs3,
    Status_8_Misc,
}

impl CANifierStatusFrame {
    /// The number that the CANifier interface uses for this value.
    pub open spec fn spec_value(self) -> i32 {
        match self {
            CANifierStatusFrame::Status_1_General => 0x041400,
            CANifierStatusFrame::Status_2_General => 0x041440,
            CANifierStatusFrame::Status_3_PwmInputs0 => 0x041480,
            CANifierStatusFrame::Status_4_PwmInputs1 => 0x0414C0,
            CANifierStatusFrame::Status_5_PwmInputs2 => 0x041500,
            CANifierStatusFrame::Status_6_PwmInputs3 => 0x041540,
            CANifierStatusFrame::Status_8_Misc => 0x0415C0,
        }
    }

    /// The number that the CANifier interface uses for this value.
    pub fn value(self) -> (r: i32)
        ensures
            r == self.spec_value(),
    {
        match self {
            CANifierStatusFrame::Status_1_General => 0x041400,
            CANifierStatusFrame::Status_2_General => 0x041440,
            CANifierStatusFrame::Status_3_PwmInputs0 => 0x041480,
            CANifierStatusFrame::Status_4_PwmInputs1 => 0x0414C0,
            CANifierStatusFrame::Status_5_PwmInputs2 => 0x041500,
            CANifierStatusFrame::Status_6_PwmInputs3 => 0x041540,
            CANifierStatusFrame::Status_8_Misc => 0x0415C0,
        }
    }
}

/// Distinct frames, and distinct pins, have distinct numbers.
pub proof fn lemma_values_distinct()
    ensures
        forall|a: CANifierControlFrame, b: CANifierControlFrame| a.spec_value() == b.spec_value() ==> a == b,
        forall|a: CANifierStatusFrame, b: CANifierStatusFrame| a.spec_value() == b.spec_value() ==> a == b,
        forall|a: GeneralPin, b: GeneralPin| a.spec_value() == b.spec_value() ==> a == b,
        forall|p: GeneralPin| p.spec_value() <= 10,
{
}

} // verus!
