use ctre::mot::config::{
    base_config_all_settings_calls, configure_filter_call, configure_slot_calls,
    config_aux_pid_polarity_call, get_filter_configs_reads, get_slot_configs_reads,
    pid_configs_reads, BaseMotorControllerConfiguration, ConfigCall, FilterConfiguration,
    SlotConfiguration, TalonSRXConfiguration,
};
use ctre::mot::control::{OutputValue, PIDLoop, PIDSlot, RemoteFilter};
use ctre::mot::controller::{ConfigAll, TalonSRX};
use ctre::error::ErrorCode;
use ctre::mot::config::TalonSRXPIDSetConfiguration;
use ctre::mot::sensors::{FeedbackDevice, RemoteSensorSource};
use ctre::mot::settings::{AuxPIDPolarity, VelocityMeasPeriod};
use ctre::param::{ParamEnum, ParamRead, ParamValue};

fn slot(seed: i32) -> SlotConfiguration {
    SlotConfiguration {
        kp: (seed as f64).to_bits(),
        ki: (seed as f64 + 0.5).to_bits(),
        kd: 2.0f64.to_bits(),
        kf: 0.0f64.to_bits(),
        integral_zone: seed * 10,
        allowable_closed_loop_error: 4,
        max_integral_accumulator: 100.0f64.to_bits(),
        closed_loop_peak_output: 1.0f64.to_bits(),
        closed_loop_period: 1,
    }
}

fn base() -> BaseMotorControllerConfiguration {
    BaseMotorControllerConfiguration {
        open_loop_ramp: 0.1f64.to_bits(),
        closed_loop_ramp: 0.2f64.to_bits(),
        peak_output_forward: 1.0f64.to_bits(),
        peak_output_reverse: (-1.0f64).to_bits(),
        nominal_output_forward: 0.0f64.to_bits(),
        nominal_output_reverse: 0.0f64.to_bits(),
        neutral_deadband: 0.04f64.to_bits(),
        voltage_comp_saturation: 12.0f64.to_bits(),
        voltage_measurement_filter: 32,
        velocity_measurement_period: VelocityMeasPeriod::Period_100Ms,
        velocity_measurement_window: 64,
        forward_soft_limit_threshold: 1000,
        reverse_soft_limit_threshold: -1000,
        forward_soft_limit_enable: true,
        reverse_soft_limit_enable: false,
        slot_0: slot(0),
        slot_1: slot(1),
        slot_2: slot(2),
        slot_3: slot(3),
        aux_pid_polarity: AuxPIDPolarity::Inverted,
        filter_0: FilterConfiguration { remote_sensor_device_id: 4, remote_sensor_source: RemoteSensorSource::TalonSRX_SelectedSensor },
        filter_1: FilterConfiguration { remote_sensor_device_id: 5, remote_sensor_source: RemoteSensorSource::Pigeon_Yaw },
        motion_cruise_velocity: 300,
        motion_acceleration: 600,
        motion_profile_trajectory_period: 10,
        custom_param: (7, 8),
    }
}

#[test]
fn configure_slot_writes_each_field() {
    let s = slot(3);
    let calls = configure_slot_calls(&s, PIDSlot::S2);
    assert_eq!(calls.len(), 9);
    assert_eq!(calls[0], ConfigCall::Kp { slot: 2, value: s.kp });
    assert_eq!(calls[4], ConfigCall::IntegralZone { slot: 2, izone: 30 });
    assert_eq!(calls[8], ConfigCall::ClosedLoopPeriod { slot: 2, period_ms: 1 });
}

#[test]
fn configure_filter_and_polarity() {
    let f = FilterConfiguration { remote_sensor_device_id: 9, remote_sensor_source: RemoteSensorSource::CANifier_Quadrature };
    assert_eq!(
        configure_filter_call(&f, RemoteFilter::S1),
        ConfigCall::RemoteFeedbackFilter { device_id: 9, source: 5, ordinal: 1 }
    );
    assert_eq!(
        config_aux_pid_polarity_call(AuxPIDPolarity::Inverted),
        ConfigCall::SetParameter {
            param: ParamEnum(337),
            value: OutputValue::Whole(1),
            sub_value: 0,
            ordinal: 1
        }
    );
}

#[test]
fn base_config_all_settings_order() {
    let c = base();
    let calls = base_config_all_settings_calls(&c);
    assert_eq!(calls.len(), 60);
    assert_eq!(calls[0], ConfigCall::FactoryDefault);
    assert_eq!(calls[1], ConfigCall::OpenLoopRamp(0.1f64.to_bits()));
    assert_eq!(calls[10], ConfigCall::VelocityMeasurementPeriod(100));
    assert_eq!(calls[14], ConfigCall::ForwardSoftLimitEnable(true));
    assert_eq!(calls[15], ConfigCall::ReverseSoftLimitEnable(false));
    assert_eq!(calls[16], ConfigCall::Kp { slot: 0, value: 0.0f64.to_bits() });
    assert_eq!(calls[25], ConfigCall::Kp { slot: 1, value: 1.0f64.to_bits() });
    assert_eq!(calls[51], ConfigCall::ClosedLoopPeriod { slot: 3, period_ms: 1 });
    assert_eq!(calls[52], config_aux_pid_polarity_call(AuxPIDPolarity::Inverted));
    assert_eq!(calls[53], ConfigCall::RemoteFeedbackFilter { device_id: 4, source: 1, ordinal: 0 });
    assert_eq!(calls[54], ConfigCall::RemoteFeedbackFilter { device_id: 5, source: 2, ordinal: 1 });
    assert_eq!(calls[55], ConfigCall::MotionCruiseVelocity(300));
    assert_eq!(calls[58], ConfigCall::SetCustomParam { value: 7, index: 0 });
    assert_eq!(calls[59], ConfigCall::SetCustomParam { value: 8, index: 1 });
    let talon = TalonSRX::new(1);
    assert_eq!(talon.config_all_settings_calls(&TalonSRXConfiguration { _base: c }), calls);
}

#[test]
fn read_plans() {
    let reads = get_slot_configs_reads(PIDSlot::S1);
    assert_eq!(reads.len(), 9);
    assert_eq!(reads[0], ParamRead { param: ParamEnum(310), ordinal: 1 });
    assert_eq!(reads[8], ParamRead { param: ParamEnum(338), ordinal: 1 });
    assert_eq!(
        get_filter_configs_reads(RemoteFilter::S0),
        vec![
            ParamRead { param: ParamEnum(334), ordinal: 0 },
            ParamRead { param: ParamEnum(333), ordinal: 0 }
        ]
    );
    assert_eq!(
        pid_configs_reads(PIDLoop::Auxiliary),
        vec![
            ParamRead { param: ParamEnum(339), ordinal: 1 },
            ParamRead { param: ParamEnum(330), ordinal: 1 }
        ]
    );
}

#[test]
fn slot_reads_address_the_written_slot() {
    for idx in [PIDSlot::S0, PIDSlot::S1, PIDSlot::S2, PIDSlot::S3] {
        let calls = configure_slot_calls(&slot(1), idx);
        let reads = get_slot_configs_reads(idx);
        assert_eq!(calls.len(), reads.len());
        let expected_params = [310, 311, 312, 313, 314, 315, 316, 317, 338];
        for (i, read) in reads.iter().enumerate() {
            assert_eq!(read.param, ParamEnum(expected_params[i]));
            assert_eq!(read.ordinal, idx.value());
            let slot_of_call = match calls[i] {
                ConfigCall::Kp { slot, .. }
                | ConfigCall::Ki { slot, .. }
                | ConfigCall::Kd { slot, .. }
                | ConfigCall::Kf { slot, .. }
                | ConfigCall::IntegralZone { slot, .. }
                | ConfigCall::AllowableClosedLoopError { slot, .. }
                | ConfigCall::MaxIntegralAccumulator { slot, .. }
                | ConfigCall::ClosedLoopPeakOutput { slot, .. }
                | ConfigCall::ClosedLoopPeriod { slot, .. } => slot,
                _ => panic!("not a slot call"),
            };
            assert_eq!(slot_of_call, read.ordinal);
        }
    }
}

fn pv(value: f64) -> ParamValue {
    ParamValue { bits: value.to_bits(), truncated: value as i32, whole: Some(value.trunc() as i64) }
}

#[test]
fn slot_configuration_from_reads() {
    let values = vec![pv(1.5), pv(0.25), pv(3.0), pv(0.0), pv(100.9), pv(-7.9), pv(50.0), pv(0.75), pv(2.0)];
    let s = SlotConfiguration::from_reads(Ok(values)).unwrap();
    assert_eq!(s.kp, 1.5f64.to_bits());
    assert_eq!(s.ki, 0.25f64.to_bits());
    assert_eq!(s.kd, 3.0f64.to_bits());
    assert_eq!(s.kf, 0.0f64.to_bits());
    assert_eq!(s.integral_zone, 100);
    assert_eq!(s.allowable_closed_loop_error, -7);
    assert_eq!(s.max_integral_accumulator, 50.0f64.to_bits());
    assert_eq!(s.closed_loop_peak_output, 0.75f64.to_bits());
    assert_eq!(s.closed_loop_period, 2);
    assert_eq!(SlotConfiguration::from_reads(Err(ErrorCode::from_raw(-1))), Err(ErrorCode::from_raw(-1)));
}

#[test]
fn filter_configuration_from_reads() {
    let f = FilterConfiguration::from_reads(Ok(vec![pv(7.0), pv(9.0)])).unwrap();
    assert_eq!(f, FilterConfiguration { remote_sensor_device_id: 7, remote_sensor_source: RemoteSensorSource::CANifier_PWMInput3 });
    let unknown = FilterConfiguration::from_reads(Ok(vec![pv(7.0), pv(99.0)])).unwrap();
    assert_eq!(unknown.remote_sensor_source, RemoteSensorSource::Off);
    let huge = ParamValue { bits: 1e300f64.to_bits(), truncated: i32::MAX, whole: None };
    let f = FilterConfiguration::from_reads(Ok(vec![pv(1.0), huge])).unwrap();
    assert_eq!(f.remote_sensor_source, RemoteSensorSource::Off);
    assert_eq!(FilterConfiguration::from_reads(Err(ErrorCode::from_raw(3))), Err(ErrorCode::from_raw(3)));
}

#[test]
fn configuration_defaults() {
    let s = SlotConfiguration::default();
    assert_eq!(s.kp, 0);
    assert_eq!(s.closed_loop_peak_output, 1.0f64.to_bits());
    assert_eq!(s.closed_loop_period, 1);
    let b = BaseMotorControllerConfiguration::default();
    assert_eq!(b.peak_output_forward, 1.0f64.to_bits());
    assert_eq!(b.peak_output_reverse, (-1.0f64).to_bits());
    assert_eq!(b.neutral_deadband, 0.04f64.to_bits());
    assert_eq!(b.voltage_measurement_filter, 32);
    assert_eq!(b.velocity_measurement_period, VelocityMeasPeriod::Period_100Ms);
    assert_eq!(b.velocity_measurement_period.value(), 100);
    assert_eq!(b.aux_pid_polarity, AuxPIDPolarity::Standard);
    assert_eq!(b.velocity_measurement_window, 64);
    assert_eq!(b.filter_1, FilterConfiguration::default());
    assert_eq!(FilterConfiguration::default().remote_sensor_source, RemoteSensorSource::Off);
    let p = TalonSRXPIDSetConfiguration::default();
    assert_eq!(p._base.selected_feedback_coefficient, 1.0f64.to_bits());
    assert_eq!(p.selected_feedback_sensor, FeedbackDevice::QuadEncoder);
}
