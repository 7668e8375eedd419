use ctre::mot::sensors::{pin_state, FeedbackDevice, RemoteFeedbackDevice, RemoteSensorSource};

#[test]
fn sensor_values_and_decoding() {
    assert_eq!(RemoteSensorSource::GadgeteerPigeon_Roll.value(), 12);
    assert_eq!(FeedbackDevice::SoftwareEmulatedSensor.value(), 15);
    assert_eq!(RemoteFeedbackDevice::SensorDifference.value(), 10);
    assert_eq!(RemoteSensorSource::from_i64(5), Some(RemoteSensorSource::CANifier_Quadrature));
    assert_eq!(FeedbackDevice::from_i64(1), None);
    assert_eq!(FeedbackDevice::decode(Some(4)), FeedbackDevice::Tachometer);
    assert_eq!(FeedbackDevice::decode(Some(-1)), FeedbackDevice::QuadEncoder);
    assert_eq!(RemoteFeedbackDevice::decode(None), RemoteFeedbackDevice::FactoryDefaultOff);
    assert_eq!(RemoteSensorSource::default(), RemoteSensorSource::Off);
    for s in [RemoteSensorSource::Pigeon_Pitch, RemoteSensorSource::CANifier_PWMInput1] {
        assert_eq!(RemoteSensorSource::decode(Some(s.value() as i64)), s);
    }
}

#[test]
fn pin_state_nonzero() {
    assert!(!pin_state(0));
    assert!(pin_state(1));
    assert!(pin_state(-3));
}
