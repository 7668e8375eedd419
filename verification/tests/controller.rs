use ctre::mot::control::{ControlMode, Demand, Demand0, FollowerType, OutputValue, PIDLoop, SetCall};
use ctre::mot::config::{BasePIDSetConfiguration, ConfigCall, TalonSRXPIDSetConfiguration, VictorSPXPIDSetConfiguration};
use ctre::mot::controller::{follow_call, MotorController, MotorControllerConfig, TalonSRX, VictorSPX};
use ctre::error::ErrorCode;
use ctre::mot::sensors::{FeedbackDevice, RemoteFeedbackDevice};
use ctre::mot::settings::{LimitSwitchNormal, LimitSwitchSource, SensorTerm};
use ctre::param::ParamValue;

#[test]
fn new_arbitration_ids() {
    assert_eq!(TalonSRX::new(0).base_id(), 0x0204_0000);
    assert_eq!(TalonSRX::new(5).base_id(), 0x0204_0005);
    assert_eq!(VictorSPX::new(62).base_id(), 0x0104_003E);
}

#[test]
fn follow_talon_srx() {
    let follower = TalonSRX::new(1);
    let master = TalonSRX::new(7);
    assert_eq!(
        follow_call(&follower, &master, FollowerType::PercentOutput),
        SetCall::Set4 { mode: 5, demand0: OutputValue::Whole(0x020407), demand1: 0, demand1_type: 0 }
    );
    assert_eq!(
        follow_call(&follower, &master, FollowerType::AuxOutput1),
        SetCall::Set4 { mode: 5, demand0: OutputValue::Whole(0x020407), demand1: 0, demand1_type: 1 }
    );
}

#[test]
fn follow_across_kinds() {
    let follower = TalonSRX::new(1);
    let master = VictorSPX::new(7);
    assert_eq!(
        follow_call(&follower, &master, FollowerType::PercentOutput),
        SetCall::Set4 { mode: 5, demand0: OutputValue::Whole(0x010407), demand1: 0, demand1_type: 0 }
    );
}

#[test]
fn set_follower_equals_follow() {
    for n in 0u8..=62 {
        let follower = VictorSPX::new(3);
        let by_set = follower.set_call(ControlMode::Follower, Demand0::Whole(n as i32), Demand::Neutral);
        let by_follow = follow_call(&follower, &VictorSPX::new(n), FollowerType::PercentOutput);
        assert_eq!(by_set, by_follow);
        let talon = TalonSRX::new(9);
        let by_set = talon.set_call(ControlMode::Follower, Demand0::Whole(n as i32), Demand::AuxPID(0));
        let by_follow = follow_call(&talon, &TalonSRX::new(n), FollowerType::AuxOutput1);
        assert_eq!(by_set, by_follow);
    }
}

#[test]
fn neutral_output() {
    assert_eq!(TalonSRX::new(2).neutral_output_call(), SetCall::SetDisabled { mode: 15 });
}

#[test]
fn configure_pid_calls_order() {
    let coef = 0.5f64.to_bits();
    let pid = TalonSRXPIDSetConfiguration {
        _base: BasePIDSetConfiguration { selected_feedback_coefficient: coef },
        selected_feedback_sensor: FeedbackDevice::Analog,
    };
    let calls = TalonSRX::new(0).configure_pid_calls(&pid, PIDLoop::Auxiliary);
    assert_eq!(
        calls,
        vec![
            ConfigCall::SelectedFeedbackCoefficient { value: coef, pid_loop: 1 },
            ConfigCall::SelectedFeedbackSensor { device: 2, pid_loop: 1 },
        ]
    );
    let pid = VictorSPXPIDSetConfiguration {
        _base: BasePIDSetConfiguration { selected_feedback_coefficient: coef },
        selected_feedback_sensor: RemoteFeedbackDevice::RemoteSensor0,
    };
    let calls = VictorSPX::new(0).configure_pid_calls(&pid, PIDLoop::Primary);
    assert_eq!(calls[1], ConfigCall::SelectedFeedbackSensor { device: 11, pid_loop: 0 });
}

#[test]
fn arbitration_id_fields() {
    for d in [0u8, 1, 31, 62, 255] {
        let t = TalonSRX::new(d).base_id();
        let v = VictorSPX::new(d).base_id();
        assert_eq!(t >> 16, 0x0204);
        assert_eq!(t & 0xFF, d as i32);
        assert_eq!(v >> 16, 0x0104);
        assert_eq!(v & 0xFF, d as i32);
    }
}

#[test]
fn talon_srx_specific_calls() {
    let t = TalonSRX::new(4);
    assert_eq!(
        t.config_forward_limit_switch_source(LimitSwitchSource::RemoteTalonSRX, LimitSwitchNormal::Disabled),
        ConfigCall::ForwardLimitSwitchSource { source: 1, normal: 2, device_id: 0 }
    );
    assert_eq!(
        t.config_reverse_limit_switch_source(LimitSwitchSource::Deactivated, LimitSwitchNormal::NormallyOpen),
        ConfigCall::ReverseLimitSwitchSource { source: 3, normal: 0, device_id: 0 }
    );
    assert_eq!(t.config_peak_current_limit(40), ConfigCall::PeakCurrentLimit(40));
    assert_eq!(t.config_peak_current_duration(100), ConfigCall::PeakCurrentDuration(100));
    assert_eq!(t.config_continuous_current_limit(30), ConfigCall::ContinuousCurrentLimit(30));
    assert_eq!(
        t.config_selected_feedback_sensor(FeedbackDevice::PulseWidthEncodedPosition, PIDLoop::Primary),
        ConfigCall::SelectedFeedbackSensor { device: 8, pid_loop: 0 }
    );
    assert_eq!(t.config_sensor_term(SensorTerm::Diff0, FeedbackDevice::RemoteSensor0), ConfigCall::SensorTerm { sensor_term: 2, device: 11 });
    assert_eq!(t.set_status_frame_period(0x1240, 20), ConfigCall::StatusFramePeriod { frame: 0x1240, period_ms: 20 });
}

fn pv(value: f64) -> ParamValue {
    ParamValue { bits: value.to_bits(), truncated: value as i32, whole: Some(value.trunc() as i64) }
}

#[test]
fn pid_configs_from_reads() {
    let t = TalonSRX::new(0);
    let r = t.pid_configs_from_reads(Ok(vec![pv(0.5), pv(2.0)]));
    assert_eq!(
        r,
        Ok(TalonSRXPIDSetConfiguration {
            _base: BasePIDSetConfiguration { selected_feedback_coefficient: 0.5f64.to_bits() },
            selected_feedback_sensor: FeedbackDevice::Analog,
        })
    );
    let unknown = t.pid_configs_from_reads(Ok(vec![pv(1.0), pv(3.0)])).unwrap();
    assert_eq!(unknown.selected_feedback_sensor, FeedbackDevice::QuadEncoder);
    let nan = ParamValue { bits: f64::NAN.to_bits(), truncated: 0, whole: None };
    let r = t.pid_configs_from_reads(Ok(vec![pv(1.0), nan])).unwrap();
    assert_eq!(r.selected_feedback_sensor, FeedbackDevice::QuadEncoder);
    assert_eq!(t.pid_configs_from_reads(Err(ErrorCode::from_raw(-8))), Err(ErrorCode::from_raw(-8)));
    let v = VictorSPX::new(0);
    let r = v.pid_configs_from_reads(Ok(vec![pv(0.25), pv(12.0)])).unwrap();
    assert_eq!(r.selected_feedback_sensor, RemoteFeedbackDevice::RemoteSensor1);
    let r = v.pid_configs_from_reads(Ok(vec![pv(0.25), pv(2.0)])).unwrap();
    assert_eq!(r.selected_feedback_sensor, RemoteFeedbackDevice::FactoryDefaultOff);
}
