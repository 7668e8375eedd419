use ctre::canifier::{CANifierControlFrame, CANifierStatusFrame, GeneralPin};

#[test]
fn canifier_frame_values() {
    assert_eq!(CANifierControlFrame::Control_1_General.value(), 0x03040000);
    assert_eq!(CANifierControlFrame::Control_2_PwmOutput.value(), 0x03040040);
    assert_eq!(CANifierStatusFrame::Status_1_General.value(), 0x041400);
    assert_eq!(CANifierStatusFrame::Status_4_PwmInputs1.value(), 0x0414C0);
    assert_eq!(CANifierStatusFrame::Status_8_Misc.value(), 0x0415C0);
}

#[test]
fn canifier_pin_values() {
    assert_eq!(GeneralPin::QUAD_IDX.value(), 0);
    assert_eq!(GeneralPin::LIMF.value(), 4);
    assert_eq!(GeneralPin::SPI_CLK_PWM0P.value(), 10);
}
