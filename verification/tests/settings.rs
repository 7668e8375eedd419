use ctre::mot::settings::{
    AuxPIDPolarity, InvertType, LimitSwitchNormal, LimitSwitchSource, NeutralMode,
    RemoteLimitSwitchSource, SensorTerm, VelocityMeasPeriod,
};

#[test]
fn velocity_periods_are_their_milliseconds() {
    let all = [
        (VelocityMeasPeriod::Period_1Ms, 1),
        (VelocityMeasPeriod::Period_2Ms, 2),
        (VelocityMeasPeriod::Period_5Ms, 5),
        (VelocityMeasPeriod::Period_10Ms, 10),
        (VelocityMeasPeriod::Period_20Ms, 20),
        (VelocityMeasPeriod::Period_25Ms, 25),
        (VelocityMeasPeriod::Period_50Ms, 50),
        (VelocityMeasPeriod::Period_100Ms, 100),
    ];
    for (p, ms) in all {
        assert_eq!(p.value(), ms);
    }
    assert_eq!(VelocityMeasPeriod::default(), VelocityMeasPeriod::Period_100Ms);
}

#[test]
fn setting_numbers() {
    assert_eq!(AuxPIDPolarity::Standard.value(), 0);
    assert_eq!(AuxPIDPolarity::Inverted.value(), 1);
    assert_eq!(AuxPIDPolarity::default(), AuxPIDPolarity::Standard);
    assert_eq!(LimitSwitchSource::FeedbackConnector.value(), 0);
    assert_eq!(LimitSwitchSource::RemoteCANifier.value(), 2);
    assert_eq!(RemoteLimitSwitchSource::RemoteTalonSRX.value(), 1);
    assert_eq!(RemoteLimitSwitchSource::Deactivated.value(), 3);
    assert_eq!(LimitSwitchNormal::NormallyClosed.value(), 1);
    assert_eq!(SensorTerm::Sum1.value(), 1);
    assert_eq!(SensorTerm::Diff1.value(), 3);
}

#[test]
fn neutral_and_invert_numbers() {
    assert_eq!(NeutralMode::EEPROMSetting.value(), 0);
    assert_eq!(NeutralMode::Brake.value(), 2);
    assert_eq!(InvertType::NoInvert.value(), 0);
    assert_eq!(InvertType::OpposeMaster.value(), 3);
    assert_eq!(InvertType::from(true), InvertType::InvertMotorOutput);
    assert_eq!(InvertType::from(false), InvertType::NoInvert);
    let i: InvertType = true.into();
    assert_eq!(i.value(), 1);
}
