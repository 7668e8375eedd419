use ctre::mot::control::{
    set_call, ControlMode, CustomParam, Demand, Demand0, DemandType, OutputValue, PIDLoop, PIDSlot,
    RemoteFilter, SetCall,
};

#[test]
fn enum_values() {
    assert_eq!(PIDLoop::Primary.value(), 0);
    assert_eq!(PIDLoop::Auxiliary.value(), 1);
    assert_eq!(PIDLoop::default(), PIDLoop::Primary);
    assert_eq!(RemoteFilter::S1.value(), 1);
    assert_eq!(PIDSlot::S3.value(), 3);
    assert_eq!(CustomParam::B.value(), 1);
    assert_eq!(ControlMode::Follower.value(), 5);
    assert_eq!(ControlMode::MotionProfileArc.value(), 10);
    assert_eq!(ControlMode::Disabled.value(), 15);
    assert_eq!(DemandType::ArbitraryFeedForward.value(), 2);
}

#[test]
fn demand_type_and_value() {
    assert_eq!(Demand::default(), Demand::Neutral);
    assert_eq!(Demand::Neutral.type_(), DemandType::Neutral);
    assert_eq!(Demand::Neutral.value(), 0.0f64.to_bits());
    let v = 0.25f64.to_bits();
    assert_eq!(Demand::AuxPID(v).type_(), DemandType::AuxPID);
    assert_eq!(Demand::AuxPID(v).value(), v);
    assert_eq!(Demand::ArbitraryFeedForward(v).type_(), DemandType::ArbitraryFeedForward);
    assert_eq!(Demand::ArbitraryFeedForward(v).value(), v);
}

#[test]
fn set_call_percent_output() {
    let d0 = 0.5f64.to_bits();
    let ff = (-0.1f64).to_bits();
    let call = set_call(
        0x0204_0001,
        ControlMode::PercentOutput,
        Demand0::Float { bits: d0, device_number: Some(0) },
        Demand::ArbitraryFeedForward(ff),
    );
    assert_eq!(
        call,
        SetCall::Set4 { mode: 0, demand0: OutputValue::Bits(d0), demand1: ff, demand1_type: 2 }
    );
}

#[test]
fn set_call_follower_packs_device_number() {
    let d0 = 3.0f64.to_bits();
    let call = set_call(
        0x0204_0007,
        ControlMode::Follower,
        Demand0::Float { bits: d0, device_number: Some(3) },
        Demand::Neutral,
    );
    assert_eq!(
        call,
        SetCall::Set4 { mode: 5, demand0: OutputValue::Whole(0x020403), demand1: 0, demand1_type: 0 }
    );
    let out_of_range = 100.0f64.to_bits();
    let call = set_call(
        0x0204_0007,
        ControlMode::Follower,
        Demand0::Float { bits: out_of_range, device_number: None },
        Demand::Neutral,
    );
    assert_eq!(
        call,
        SetCall::Set4 { mode: 5, demand0: OutputValue::Bits(out_of_range), demand1: 0, demand1_type: 0 }
    );
    let call = set_call(0x0104_0002, ControlMode::Follower, Demand0::Whole(62), Demand::Neutral);
    assert_eq!(
        call,
        SetCall::Set4 { mode: 5, demand0: OutputValue::Whole(0x01043E), demand1: 0, demand1_type: 0 }
    );
    let call = set_call(0x0104_0002, ControlMode::Follower, Demand0::Whole(63), Demand::Neutral);
    assert_eq!(
        call,
        SetCall::Set4 { mode: 5, demand0: OutputValue::Whole(63), demand1: 0, demand1_type: 0 }
    );
}

#[test]
fn set_call_current_and_disabled() {
    let amps = 1.5f64.to_bits();
    let call = set_call(
        0x0204_0000,
        ControlMode::Current,
        Demand0::Float { bits: amps, device_number: Some(1) },
        Demand::AuxPID(0),
    );
    assert_eq!(call, SetCall::SetCurrent { mode: 3, amps: OutputValue::Bits(amps) });
    let call = set_call(0x0204_0000, ControlMode::Disabled, Demand0::Whole(9), Demand::AuxPID(0));
    assert_eq!(call, SetCall::SetDisabled { mode: 15 });
}
