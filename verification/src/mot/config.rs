//! Persistent configuration: which device calls write a configuration, and
//! which parameter reads read it back.
//!
//! Floating-point settings are held by their IEEE-754 bits (`f64::to_bits`),
//! and each call carries a setting that the device takes as an enumeration
//! by the number the device interface uses for it.
use vstd::prelude::*;

use super::control::{CustomParam, OutputValue, PIDLoop, PIDSlot, RemoteFilter};
use super::sensors::{lemma_decode_round_trip, FeedbackDevice, RemoteFeedbackDevice, RemoteSensorSource};
use super::settings::{AuxPIDPolarity, VelocityMeasPeriod};
use crate::error::ErrorCode;
use crate::param::{ParamEnum, ParamRead, ParamValue};

verus! {

/// The persistent settings of one closed-loop gain slot.
#[derive(Debug, Copy, Clone, PartialEq, Eq, Hash, Structural)]
pub struct SlotConfiguration {
    pub kp: u64,
    pub ki: u64,
    pub kd: u64,
    pub kf: u64,
    pub integral_zone: i32,
    pub allowable_closed_loop_error: i32,
    pub max_integral_accumulator: u64,
    pub closed_loop_peak_output: u64,
    pub closed_loop_period: i32,
}

/// The persistent settings of one remote feedback filter.
#[derive(Debug, Copy, Clone, PartialEq, Eq, Hash, Structural)]
pub struct FilterConfiguration {
    pub remote_sensor_device_id: i32,
    pub remote_sensor_source: RemoteSensorSource,
}

/// The PID-loop settings shared by all motor controllers.
#[derive(Debug, Copy, Clone, PartialEq, Eq, Hash, Structural)]
pub struct BasePIDSetConfiguration {
    pub selected_feedback_coefficient: u64,
}

/// The PID-loop settings of a Talon SRX.
#[derive(Debug, Copy, Clone, PartialEq, Eq, Hash, Structural)]
pub struct TalonSRXPIDSetConfiguration {
    pub _base: BasePIDSetConfiguration,
    pub selected_feedback_sensor: FeedbackDevice,
}

/// The PID-loop settings of a Victor SPX.
#[derive(Debug, Copy, Clone, PartialEq, Eq, Hash, Structural)]
pub struct VictorSPXPIDSetConfiguration {
    pub _base: BasePIDSetConfiguration,
    pub selected_feedback_sensor: RemoteFeedbackDevice,
}

/// The persistent settings shared by all motor controllers.
#[derive(Debug, Copy, Clone, PartialEq, Eq, Hash)]
pub struct BaseMotorControllerConfiguration {
    pub open_loop_ramp: u64,
    pub closed_loop_ramp: u64,
    pub peak_output_forward: u64,
    pub peak_output_reverse: u64,
    pub nominal_output_forward: u64,
    pub nominal_output_reverse: u64,
    pub neutral_deadband: u64,
    pub voltage_comp_saturation: u64,
    pub voltage_measurement_filter: i32,
    pub velocity_measurement_period: VelocityMeasPeriod,
    pub velocity_measurement_window: i32,
    pub forward_soft_limit_threshold: i32,
    pub reverse_soft_limit_threshold: i32,
    pub forward_soft_limit_enable: bool,
    pub reverse_soft_limit_enable: bool,
    pub slot_0: SlotConfiguration,
    pub slot_1: SlotConfiguration,
    pub slot_2: SlotConfiguration,
    pub slot_3: SlotConfiguration,
    pub aux_pid_polarity: AuxPIDPolarity,
    pub filter_0: FilterConfiguration,
    pub filter_1: FilterConfiguration,
    pub motion_cruise_velocity: i32,
    pub motion_acceleration: i32,
    pub motion_profile_trajectory_period: i32,
    pub custom_param: (i32, i32),
}

/// All persistent settings of a Talon SRX.
#[derive(Debug, Copy, Clone, PartialEq, Eq, Hash)]
pub struct TalonSRXConfiguration {
    pub _base: BaseMotorControllerConfiguration,
}

/// All persistent settings of a Victor SPX.
#[derive(Debug, Copy, Clone, PartialEq, Eq, Hash)]
pub struct VictorSPXConfiguration {
    pub _base: BaseMotorControllerConfiguration,
}

/// One configuration call to a motor controller. Each is made with the
/// caller's timeout, and each returns an `ErrorCode`.
#[allow(inconsistent_fields)]
#[derive(Debug, Copy, Clone, PartialEq, Eq, Hash, Structural)]
pub enum ConfigCall {
    /// `c_MotController_ConfigFactoryDefault`
    FactoryDefault,
    /// `c_MotController_ConfigOpenLoopRamp`
    OpenLoopRamp(u64),
    /// `c_MotController_ConfigClosedLoopRamp`
    ClosedLoopRamp(u64),
    /// `c_MotController_ConfigPeakOutputForward`
    PeakOutputForward(u64),
    /// `c_MotController_ConfigPeakOutputReverse`
    PeakOutputReverse(u64),
    /// `c_MotController_ConfigNominalOutputForward`
    NominalOutputForward(u64),
    /// `c_MotController_ConfigNominalOutputReverse`
    NominalOutputReverse(u64),
    /// `c_MotController_ConfigNeutralDeadband`
    NeutralDeadband(u64),
    /// `c_MotController_ConfigVoltageCompSaturation`
    VoltageCompSaturation(u64),
    /// `c_MotController_ConfigVoltageMeasurementFilter`
    VoltageMeasurementFilter(i32),
    /// `c_MotController_ConfigVelocityMeasurementPeriod`
    VelocityMeasurementPeriod(i32),
    /// `c_MotController_ConfigVelocityMeasurementWindow`
    VelocityMeasurementWindow(i32),
    /// `c_MotController_ConfigForwardSoftLimitThreshold`
    ForwardSoftLimitThreshold(i32),
    /// `c_MotController_ConfigReverseSoftLimitThreshold`
    ReverseSoftLimitThreshold(i32),
    /// `c_MotController_ConfigForwardSoftLimitEnable`
    ForwardSoftLimitEnable(bool),
    /// `c_MotController_ConfigReverseSoftLimitEnable`
    ReverseSoftLimitEnable(bool),
    /// `c_MotController_Config_kP`
    Kp { slot: i32, value: u64 },
    /// `c_MotController_Config_kI`
    Ki { slot: i32, value: u64 },
    /// `c_MotController_Config_kD`
    Kd { slot: i32, value: u64 },
    /// `c_MotController_Config_kF`
    Kf { slot: i32, value: u64 },
    /// `c_MotController_Config_IntegralZone`, with the zone as an `f64`.
    IntegralZone { slot: i32, izone: i32 },
    /// `c_MotController_ConfigAllowableClosedloopError`
    AllowableClosedLoopError { slot: i32, error: i32 },
    /// `c_MotController_ConfigMaxIntegralAccumulator`
    MaxIntegralAccumulator { slot: i32, value: u64 },
    /// `c_MotController_ConfigClosedLoopPeakOutput`
    ClosedLoopPeakOutput { slot: i32, value: u64 },
    /// `c_MotController_ConfigClosedLoopPeriod`
    ClosedLoopPeriod { slot: i32, period_ms: i32 },
    /// `c_MotController_ConfigSetParameter`
    SetParameter { param: ParamEnum, value: OutputValue, sub_value: u8, ordinal: i32 },
    /// `c_MotController_ConfigRemoteFeedbackFilter`
    RemoteFeedbackFilter { device_id: i32, source: i32, ordinal: i32 },
    /// `c_MotController_ConfigMotionCruiseVelocity`
    MotionCruiseVelocity(i32),
    /// `c_MotController_ConfigMotionAcceleration`
    MotionAcceleration(i32),
    /// `c_MotController_ConfigMotionProfileTrajectoryPeriod`
    MotionProfileTrajectoryPeriod(i32),
    /// `c_MotController_ConfigSetCustomParam`
    SetCustomParam { value: i32, index: i32 },
    /// `c_MotController_ConfigSelectedFeedbackCoefficient`
    SelectedFeedbackCoefficient { value: u64, pid_loop: i32 },
    /// `c_MotController_ConfigSelectedFeedbackSensor`
    SelectedFeedbackSensor { device: i32, pid_loop: i32 },
    /// `c_MotController_ConfigSensorTerm`
    SensorTerm { sensor_term: i32, device: i32 },
    /// `c_MotController_SetStatusFramePeriod`
    StatusFramePeriod { frame: i32, period_ms: u8 },
    /// `c_MotController_ConfigForwardLimitSwitchSource`
    ForwardLimitSwitchSource { source: i32, normal: i32, device_id: i32 },
    /// `c_MotController_ConfigReverseLimitSwitchSource`
    ReverseLimitSwitchSource { source: i32, normal: i32, device_id: i32 },
    /// `c_MotController_ConfigPeakCurrentLimit`
    PeakCurrentLimit(i32),
    /// `c_MotController_ConfigPeakCurrentDuration`
    PeakCurrentDuration(i32),
    /// `c_MotController_ConfigContinuousCurrentLimit`
    ContinuousCurrentLimit(i32),
}

/// The calls that write the settings of one slot.
pub open spec fn spec_slot_calls(slot: SlotConfiguration, slot_idx: PIDSlot) -> Seq<ConfigCall> {
    let s = slot_idx.spec_value();
    seq![
        ConfigCall::Kp { slot: s, value: slot.kp },
        ConfigCall::Ki { slot: s, value: slot.ki },
        ConfigCall::Kd { slot: s, value: slot.kd },
        ConfigCall::Kf { slot: s, value: slot.kf },
        ConfigCall::IntegralZone { slot: s, izone: slot.integral_zone },
        ConfigCall::AllowableClosedLoopError { slot: s, error: slot.allowable_closed_loop_error },
        ConfigCall::MaxIntegralAccumulator { slot: s, value: slot.max_integral_accumulator },
        ConfigCall::ClosedLoopPeakOutput { slot: s, value: slot.closed_loop_peak_output },
        ConfigCall::ClosedLoopPeriod { slot: s, period_ms: slot.closed_loop_period },
    ]
}

/// The call that writes a remote feedback filter.
pub open spec fn spec_filter_call(filter: FilterConfiguration, ordinal: RemoteFilter) -> ConfigCall {
    ConfigCall::RemoteFeedbackFilter {
        device_id: filter.remote_sensor_device_id,
        source: filter.remote_sensor_source.spec_value(),
        ordinal: ordinal.spec_value(),
    }
}

/// The call that writes the auxiliary PID polarity: parameter 337, with
/// sub-value 0 and ordinal 1.
pub open spec fn spec_aux_pid_polarity_call(polarity: AuxPIDPolarity) -> ConfigCall {
    ConfigCall::SetParameter {
        param: ParamEnum(337),
        value: OutputValue::Whole(polarity.spec_value() as i64),
        sub_value: 0,
        ordinal: 1,
    }
}

/// The call that writes the shared PID-loop settings.
pub open spec fn spec_base_pid_call(pid: BasePIDSetConfiguration, pid_loop: PIDLoop) -> ConfigCall {
    ConfigCall::SelectedFeedbackCoefficient {
        value: pid.selected_feedback_coefficient,
        pid_loop: pid_loop.spec_value(),
    }
}

/// The calls that write the PID-loop settings of a controller: the shared
/// settings, then the feedback sensor, given by its device number.
pub open spec fn spec_pid_calls(base: BasePIDSetConfiguration, feedback_sensor: i32, pid_loop: PIDLoop) -> Seq<ConfigCall> {
    seq![
        spec_base_pid_call(base, pid_loop),
        ConfigCall::SelectedFeedbackSensor { device: feedback_sensor, pid_loop: pid_loop.spec_value() },
    ]
}

/// The calls that write all shared settings, in order: a factory default,
/// output shaping, voltage compensation, velocity measurement, soft limits,
/// the four slots, the auxiliary polarity, the two filters, motion magic,
/// the trajectory period and the two custom parameters.
pub open spec fn spec_base_config_calls(c: BaseMotorControllerConfiguration) -> Seq<ConfigCall> {
    seq![
        ConfigCall::FactoryDefault,
        ConfigCall::OpenLoopRamp(c.open_loop_ramp),
        ConfigCall::ClosedLoopRamp(c.closed_loop_ramp),
        ConfigCall::PeakOutputForward(c.peak_output_forward),
        ConfigCall::PeakOutputReverse(c.peak_output_reverse),
        ConfigCall::NominalOutputForward(c.nominal_output_forward),
        ConfigCall::NominalOutputReverse(c.nominal_output_reverse),
        ConfigCall::NeutralDeadband(c.neutral_deadband),
        ConfigCall::VoltageCompSaturation(c.voltage_comp_saturation),
        ConfigCall::VoltageMeasurementFilter(c.voltage_measurement_filter),
        ConfigCall::VelocityMeasurementPeriod(c.velocity_measurement_period.spec_value()),
        ConfigCall::VelocityMeasurementWindow(c.velocity_measurement_window),
        ConfigCall::ForwardSoftLimitThreshold(c.forward_soft_limit_threshold),
        ConfigCall::ReverseSoftLimitThreshold(c.reverse_soft_limit_threshold),
        ConfigCall::ForwardSoftLimitEnable(c.forward_soft_limit_enable),
        ConfigCall::ReverseSoftLimitEnable(c.reverse_soft_limit_enable),
    ]
        + spec_slot_calls(c.slot_0, PIDSlot::S0)
        + spec_slot_calls(c.slot_1, PIDSlot::S1)
        + spec_slot_calls(c.slot_2, PIDSlot::S2)
        + spec_slot_calls(c.slot_3, PIDSlot::S3)
        + seq![
        spec_aux_pid_polarity_call(c.aux_pid_polarity),
        spec_filter_call(c.filter_0, RemoteFilter::S0),
        spec_filter_call(c.filter_1, RemoteFilter::S1),
        ConfigCall::MotionCruiseVelocity(c.motion_cruise_velocity),
        ConfigCall::MotionAcceleration(c.motion_acceleration),
        ConfigCall::MotionProfileTrajectoryPeriod(c.motion_profile_trajectory_period),
        ConfigCall::SetCustomParam { value: c.custom_param.0, index: CustomParam::A.spec_value() },
        ConfigCall::SetCustomParam { value: c.custom_param.1, index: CustomParam::B.spec_value() },
    ]
}

/// The calls that configure all persistent settings of one slot. Every call
/// is made; the combined code (`combine_errors`) is the first failure.
pub fn configure_slot_calls(slot: &SlotConfiguration, slot_idx: PIDSlot) -> (r: Vec<ConfigCall>)
    ensures
        r@ == spec_slot_calls(*slot, slot_idx),
{
    let s = slot_idx.value();
    let r = vec![
        ConfigCall::Kp { slot: s, value: slot.kp },
        ConfigCall::Ki { slot: s, value: slot.ki },
        ConfigCall::Kd { slot: s, value: slot.kd },
        ConfigCall::Kf { slot: s, value: slot.kf },
        ConfigCall::IntegralZone { slot: s, izone: slot.integral_zone },
        ConfigCall::AllowableClosedLoopError { slot: s, error: slot.allowable_closed_loop_error },
        ConfigCall::MaxIntegralAccumulator { slot: s, value: slot.max_integral_accumulator },
        ConfigCall::ClosedLoopPeakOutput { slot: s, value: slot.closed_loop_peak_output },
        ConfigCall::ClosedLoopPeriod { slot: s, period_ms: slot.closed_loop_period },
    ];
    assert(r@ =~= spec_slot_calls(*slot, slot_idx));
    r
}

/// The call that configures a remote feedback filter.
pub fn configure_filter_call(filter: &FilterConfiguration, ordinal: RemoteFilter) -> (r: ConfigCall)
    ensures
        r == spec_filter_call(*filter, ordinal),
{
    ConfigCall::RemoteFeedbackFilter {
        device_id: filter.remote_sensor_device_id,
        source: filter.remote_sensor_source.value(),
        ordinal: ordinal.value(),
    }
}

/// The call that configures the polarity of the auxiliary PID (PID1).
///
/// Standard polarity: primary output = PID0 + PID1, auxiliary output =
/// PID0 - PID1. Inverted polarity: primary output = PID0 - PID1, auxiliary
/// output = PID0 + PID1.
pub fn config_aux_pid_polarity_call(polarity: AuxPIDPolarity) -> (r: ConfigCall)
    ensures
        r == spec_aux_pid_polarity_call(polarity),
{
    ConfigCall::SetParameter {
        param: ParamEnum::PIDLoopPolarity(),
        value: OutputValue::Whole(polarity.value() as i64),
        sub_value: 0,
        ordinal: 1,
    }
}

/// The call that configures the shared PID-loop settings.
pub fn base_configure_pid_call(pid: &BasePIDSetConfiguration, pid_loop: PIDLoop) -> (r: ConfigCall)
    ensures
        r == spec_base_pid_call(*pid, pid_loop),
{
    ConfigCall::SelectedFeedbackCoefficient {
        value: pid.selected_feedback_coefficient,
        pid_loop: pid_loop.value(),
    }
}

/// The calls that configure the PID-loop settings of a controller: the
/// shared settings, then the feedback sensor.
pub fn pid_calls(base: &BasePIDSetConfiguration, feedback_sensor: i32, pid_loop: PIDLoop) -> (r: Vec<ConfigCall>)
    ensures
        r@ == spec_pid_calls(*base, feedback_sensor, pid_loop),
{
    let r = vec![
        base_configure_pid_call(base, pid_loop),
        ConfigCall::SelectedFeedbackSensor { device: feedback_sensor, pid_loop: pid_loop.value() },
    ];
    assert(r@ =~= spec_pid_calls(*base, feedback_sensor, pid_loop));
    r
}

/// Appends `more` to `calls`.
fn append_calls(calls: &mut Vec<ConfigCall>, more: Vec<ConfigCall>)
    ensures
        final(calls)@ == old(calls)@ + more@,
{
    let mut more = more;
    calls.append(&mut more);
}

/// The calls that configure all shared persistent settings. Every call is
/// made, in this order; the combined code (`combine_errors`) is `OK` when
/// all succeeded and otherwise the code of the first that failed.
pub fn base_config_all_settings_calls(all_configs: &BaseMotorControllerConfiguration) -> (r: Vec<ConfigCall>)
    ensures
        r@ == spec_base_config_calls(*all_configs),
        r@.len() == 60,
{
    let c = all_configs;
    let mut r = vec![
        ConfigCall::FactoryDefault,
        ConfigCall::OpenLoopRamp(c.open_loop_ramp),
        ConfigCall::ClosedLoopRamp(c.closed_loop_ramp),
        ConfigCall::PeakOutputForward(c.peak_output_forward),
        ConfigCall::PeakOutputReverse(c.peak_output_reverse),
        ConfigCall::NominalOutputForward(c.nominal_output_forward),
        ConfigCall::NominalOutputReverse(c.nominal_output_reverse),
        ConfigCall::NeutralDeadband(c.neutral_deadband),
        ConfigCall::VoltageCompSaturation(c.voltage_comp_saturation),
        ConfigCall::VoltageMeasurementFilter(c.voltage_measurement_filter),
        ConfigCall::VelocityMeasurementPeriod(c.velocity_measurement_period.value()),
        ConfigCall::VelocityMeasurementWindow(c.velocity_measurement_window),
        ConfigCall::ForwardSoftLimitThreshold(c.forward_soft_limit_threshold),
        ConfigCall::ReverseSoftLimitThreshold(c.reverse_soft_limit_threshold),
        ConfigCall::ForwardSoftLimitEnable(c.forward_soft_limit_enable),
        ConfigCall::ReverseSoftLimitEnable(c.reverse_soft_limit_enable),
    ];
    append_calls(&mut r, configure_slot_calls(&c.slot_0, PIDSlot::S0));
    append_calls(&mut r, configure_slot_calls(&c.slot_1, PIDSlot::S1));
    append_calls(&mut r, configure_slot_calls(&c.slot_2, PIDSlot::S2));
    append_calls(&mut r, configure_slot_calls(&c.slot_3, PIDSlot::S3));
    let tail = vec![
        config_aux_pid_polarity_call(c.aux_pid_polarity),
        configure_filter_call(&c.filter_0, RemoteFilter::S0),
        configure_filter_call(&c.filter_1, RemoteFilter::S1),
        ConfigCall::MotionCruiseVelocity(c.motion_cruise_velocity),
        ConfigCall::MotionAcceleration(c.motion_acceleration),
        ConfigCall::MotionProfileTrajectoryPeriod(c.motion_profile_trajectory_period),
        ConfigCall::SetCustomParam { value: c.custom_param.0, index: CustomParam::A.value() },
        ConfigCall::SetCustomParam { value: c.custom_param.1, index: CustomParam::B.value() },
    ];
    append_calls(&mut r, tail);
    assert(r@ =~= spec_base_config_calls(*all_configs));
    r
}


/// The slot settings made of the values of the reads of `spec_slot_reads`,
/// in that order: the gains, maximum accumulator and peak output as read,
/// the integral zone, allowable error and period as `i32`.
pub open spec fn spec_slot_from_values(v: Seq<ParamValue>) -> SlotConfiguration {
    SlotConfiguration {
        kp: v[0].bits,
        ki: v[1].bits,
        kd: v[2].bits,
        kf: v[3].bits,
        integral_zone: v[4].truncated,
        allowable_closed_loop_error: v[5].truncated,
        max_integral_accumulator: v[6].bits,
        closed_loop_peak_output: v[7].bits,
        closed_loop_period: v[8].truncated,
    }
}

/// The filter settings made of the values of the reads of
/// `get_filter_configs_reads`: the device ID as `i32`, and the source whose
/// number the second value is, or `RemoteSensorSource::Off` when it names
/// none.
pub open spec fn spec_filter_from_values(v: Seq<ParamValue>) -> FilterConfiguration {
    FilterConfiguration {
        remote_sensor_device_id: v[0].truncated,
        remote_sensor_source: RemoteSensorSource::spec_decode(v[1].whole),
    }
}

/// The shared PID-loop settings made of the value of the read of
/// `base_get_pid_configs_reads`.
pub open spec fn spec_base_pid_from_values(v: Seq<ParamValue>) -> BasePIDSetConfiguration {
    BasePIDSetConfiguration { selected_feedback_coefficient: v[0].bits }
}

/// The outcome of a series of reads turned into a result: the read error
/// as it is, or the settings made of the values.
pub open spec fn spec_result_from<T>(read: Result<Vec<ParamValue>, ErrorCode>, made: spec_fn(Seq<ParamValue>) -> T) -> Result<T, ErrorCode> {
    match read {
        Ok(v) => Ok(made(v@)),
        Err(e) => Err(e),
    }
}

impl SlotConfiguration {
    /// The result of `get_slot_configs`, from the outcome of the reads of
    /// `get_slot_configs_reads`: the first failed read's code, or the
    /// settings made of the nine values read.
    pub fn from_reads(read: Result<Vec<ParamValue>, ErrorCode>) -> (r: Result<SlotConfiguration, ErrorCode>)
        requires
            read matches Ok(v) ==> v@.len() == 9,
        ensures
            r == spec_result_from(read, |v: Seq<ParamValue>| spec_slot_from_values(v)),
    {
        match read {
            Ok(v) => Ok(SlotConfiguration {
                kp: v[0].bits,
                ki: v[1].bits,
                kd: v[2].bits,
                kf: v[3].bits,
                integral_zone: v[4].truncated,
                allowable_closed_loop_error: v[5].truncated,
                max_integral_accumulator: v[6].bits,
                closed_loop_peak_output: v[7].bits,
                closed_loop_period: v[8].truncated,
            }),
            Err(e) => Err(e),
        }
    }
}

impl FilterConfiguration {
    /// The result of `get_filter_configs`, from the outcome of the reads of
    /// `get_filter_configs_reads`: the first failed read's code, or the
    /// settings made of the two values read. A source value that names no
    /// source is no error: it reads back as `RemoteSensorSource::Off`.
    pub fn from_reads(read: Result<Vec<ParamValue>, ErrorCode>) -> (r: Result<FilterConfiguration, ErrorCode>)
        requires
            read matches Ok(v) ==> v@.len() == 2,
        ensures
            r == spec_result_from(read, |v: Seq<ParamValue>| spec_filter_from_values(v)),
    {
        match read {
            Ok(v) => Ok(FilterConfiguration {
                remote_sensor_device_id: v[0].truncated,
                remote_sensor_source: RemoteSensorSource::decode(v[1].whole),
            }),
            Err(e) => Err(e),
        }
    }
}

impl BasePIDSetConfiguration {
    /// The result of `base_get_pid_configs`, from the outcome of the read of
    /// `base_get_pid_configs_reads`.
    pub fn from_reads(read: Result<Vec<ParamValue>, ErrorCode>) -> (r: Result<BasePIDSetConfiguration, ErrorCode>)
        requires
            read matches Ok(v) ==> v@.len() >= 1,
        ensures
            r == spec_result_from(read, |v: Seq<ParamValue>| spec_base_pid_from_values(v)),
    {
        match read {
            Ok(v) => Ok(BasePIDSetConfiguration { selected_feedback_coefficient: v[0].bits }),
            Err(e) => Err(e),
        }
    }
}

/// The value that a device which reports back exactly what was written
/// gives for a whole-number setting.
pub open spec fn echo_whole(n: i32) -> ParamValue {
    ParamValue { bits: 0, truncated: n, whole: Some(n as i64) }
}

/// The value that a device which reports back exactly what was written
/// gives for a floating-point setting.
pub open spec fn echo_bits(bits: u64) -> ParamValue {
    ParamValue { bits, truncated: 0, whole: None }
}

/// When every read gives back what `configure_slot` wrote to its parameter,
/// `get_slot_configs` gives back the slot settings that were written.
pub proof fn lemma_slot_round_trip(slot: SlotConfiguration)
    ensures
        spec_slot_from_values(seq![
            echo_bits(slot.kp),
            echo_bits(slot.ki),
            echo_bits(slot.kd),
            echo_bits(slot.kf),
            echo_whole(slot.integral_zone),
            echo_whole(slot.allowable_closed_loop_error),
            echo_bits(slot.max_integral_accumulator),
            echo_bits(slot.closed_loop_peak_output),
            echo_whole(slot.closed_loop_period),
        ]) == slot,
{
}

/// When the reads give back the device ID and the number of the source that
/// `configure_filter` wrote, `get_filter_configs` gives back the filter
/// settings that were written.
pub proof fn lemma_filter_round_trip(filter: FilterConfiguration)
    ensures
        spec_filter_from_values(seq![
            echo_whole(filter.remote_sensor_device_id),
            echo_whole(filter.remote_sensor_source.spec_value()),
        ]) == filter,
{
}

/// The reads that get the settings of one slot, in the order of the fields
/// of `SlotConfiguration`: the four gains, the integral zone, the allowable
/// error, the maximum integral accumulator, the peak output and the period,
/// each at the slot's index.
pub open spec fn spec_slot_reads(slot_idx: PIDSlot) -> Seq<ParamRead> {
    let o = slot_idx.spec_value();
    seq![
        ParamRead { param: ParamEnum(310), ordinal: o },
        ParamRead { param: ParamEnum(311), ordinal: o },
        ParamRead { param: ParamEnum(312), ordinal: o },
        ParamRead { param: ParamEnum(313), ordinal: o },
        ParamRead { param: ParamEnum(314), ordinal: o },
        ParamRead { param: ParamEnum(315), ordinal: o },
        ParamRead { param: ParamEnum(316), ordinal: o },
        ParamRead { param: ParamEnum(317), ordinal: o },
        ParamRead { param: ParamEnum(338), ordinal: o },
    ]
}

/// The reads that get all persistent settings of one slot; a
/// `ReadSequence` over them stops at the first that fails.
pub fn get_slot_configs_reads(slot_idx: PIDSlot) -> (r: Vec<ParamRead>)
    ensures
        r@ == spec_slot_reads(slot_idx),
{
    let o = slot_idx.value();
    let r = vec![
        ParamRead { param: ParamEnum::ProfileParamSlot_P(), ordinal: o },
        ParamRead { param: ParamEnum::ProfileParamSlot_I(), ordinal: o },
        ParamRead { param: ParamEnum::ProfileParamSlot_D(), ordinal: o },
        ParamRead { param: ParamEnum::ProfileParamSlot_F(), ordinal: o },
        ParamRead { param: ParamEnum::ProfileParamSlot_IZone(), ordinal: o },
        ParamRead { param: ParamEnum::ProfileParamSlot_AllowableErr(), ordinal: o },
        ParamRead { param: ParamEnum::ProfileParamSlot_MaxIAccum(), ordinal: o },
        ParamRead { param: ParamEnum::ProfileParamSlot_PeakOutput(), ordinal: o },
        ParamRead { param: ParamEnum::PIDLoopPeriod(), ordinal: o },
    ];
    assert(r@ =~= spec_slot_reads(slot_idx));
    r
}

/// The reads that get the settings of a remote feedback filter: the remote
/// sensor's device ID, then its source, at the filter's ordinal.
pub fn get_filter_configs_reads(ordinal: RemoteFilter) -> (r: Vec<ParamRead>)
    ensures
        r@ == seq![
            ParamRead { param: ParamEnum(334), ordinal: ordinal.spec_value() },
            ParamRead { param: ParamEnum(333), ordinal: ordinal.spec_value() },
        ],
{
    let o = ordinal.value();
    let r = vec![
        ParamRead { param: ParamEnum::RemoteSensorDeviceID(), ordinal: o },
        ParamRead { param: ParamEnum::RemoteSensorSource(), ordinal: o },
    ];
    assert(r@ =~= seq![
        ParamRead { param: ParamEnum(334), ordinal: ordinal.spec_value() },
        ParamRead { param: ParamEnum(333), ordinal: ordinal.spec_value() },
    ]);
    r
}

/// The reads that get the shared PID-loop settings: the feedback coefficient
/// of the loop.
pub fn base_get_pid_configs_reads(pid_loop: PIDLoop) -> (r: Vec<ParamRead>)
    ensures
        r@ == seq![ParamRead { param: ParamEnum(339), ordinal: pid_loop.spec_value() }],
{
    let r = vec![ParamRead { param: ParamEnum::SelectedSensorCoefficient(), ordinal: pid_loop.value() }];
    assert(r@ =~= seq![ParamRead { param: ParamEnum(339), ordinal: pid_loop.spec_value() }]);
    r
}

/// The reads that get the PID-loop settings of a Talon SRX or a Victor SPX:
/// the shared settings, then the feedback sensor type of the loop.
pub fn pid_configs_reads(pid_loop: PIDLoop) -> (r: Vec<ParamRead>)
    ensures
        r@ == seq![
            ParamRead { param: ParamEnum(339), ordinal: pid_loop.spec_value() },
            ParamRead { param: ParamEnum(330), ordinal: pid_loop.spec_value() },
        ],
{
    let mut r = base_get_pid_configs_reads(pid_loop);
    r.push(ParamRead { param: ParamEnum::FeedbackSensorType(), ordinal: pid_loop.value() });
    assert(r@ =~= seq![
        ParamRead { param: ParamEnum(339), ordinal: pid_loop.spec_value() },
        ParamRead { param: ParamEnum(330), ordinal: pid_loop.spec_value() },
    ]);
    r
}

/// The parameters, each with its ordinal, that a configuration call writes,
/// for the calls whose settings this library also reads back (the slot,
/// filter and PID-loop settings); `None` for the other calls.
pub open spec fn read_back_params(call: ConfigCall) -> Option<Seq<ParamRead>> {
    match call {
        ConfigCall::Kp { slot, .. } => Some(seq![ParamRead { param: ParamEnum(310), ordinal: slot }]),
        ConfigCall::Ki { slot, .. } => Some(seq![ParamRead { param: ParamEnum(311), ordinal: slot }]),
        ConfigCall::Kd { slot, .. } => Some(seq![ParamRead { param: ParamEnum(312), ordinal: slot }]),
        ConfigCall::Kf { slot, .. } => Some(seq![ParamRead { param: ParamEnum(313), ordinal: slot }]),
        ConfigCall::IntegralZone { slot, .. } => Some(seq![ParamRead { param: ParamEnum(314), ordinal: slot }]),
        ConfigCall::AllowableClosedLoopError { slot, .. } => Some(seq![ParamRead { param: ParamEnum(315), ordinal: slot }]),
        ConfigCall::MaxIntegralAccumulator { slot, .. } => Some(seq![ParamRead { param: ParamEnum(316), ordinal: slot }]),
        ConfigCall::ClosedLoopPeakOutput { slot, .. } => Some(seq![ParamRead { param: ParamEnum(317), ordinal: slot }]),
        ConfigCall::ClosedLoopPeriod { slot, .. } => Some(seq![ParamRead { param: ParamEnum(338), ordinal: slot }]),
        ConfigCall::RemoteFeedbackFilter { ordinal, .. } => Some(seq![
            ParamRead { param: ParamEnum(334), ordinal },
            ParamRead { param: ParamEnum(333), ordinal },
        ]),
        ConfigCall::SelectedFeedbackCoefficient { pid_loop, .. } => Some(seq![ParamRead { param: ParamEnum(339), ordinal: pid_loop }]),
        ConfigCall::SelectedFeedbackSensor { pid_loop, .. } => Some(seq![ParamRead { param: ParamEnum(330), ordinal: pid_loop }]),
        _ => None,
    }
}

/// What `configure_slot` writes is what `get_slot_configs` reads, field by
/// field and in the same order, at the same slot.
pub proof fn lemma_slot_reads_match_writes(slot: SlotConfiguration, slot_idx: PIDSlot)
    ensures
        spec_slot_calls(slot, slot_idx).len() == spec_slot_reads(slot_idx).len(),
        forall|i: int| 0 <= i < spec_slot_reads(slot_idx).len() ==>
            read_back_params(#[trigger] spec_slot_calls(slot, slot_idx)[i]) == Some(seq![spec_slot_reads(slot_idx)[i]]),
{
    let calls = spec_slot_calls(slot, slot_idx);
    let reads = spec_slot_reads(slot_idx);
    assert forall|i: int| 0 <= i < reads.len() implies read_back_params(#[trigger] calls[i]) == Some(seq![reads[i]]) by {
        assert(read_back_params(calls[i]).unwrap() =~= seq![reads[i]]);
    }
}

/// What `configure_filter` writes is what `get_filter_configs` reads: the
/// remote sensor's device ID and source, at the filter's ordinal.
pub proof fn lemma_filter_reads_match_writes(filter: FilterConfiguration, ordinal: RemoteFilter)
    ensures
        read_back_params(spec_filter_call(filter, ordinal)) == Some(seq![
            ParamRead { param: ParamEnum(334), ordinal: ordinal.spec_value() },
            ParamRead { param: ParamEnum(333), ordinal: ordinal.spec_value() },
        ]),
{
}

/// What `configure_pid` writes is what `get_pid_configs` reads: the feedback
/// coefficient, then the feedback sensor, of the same loop.
pub proof fn lemma_pid_reads_match_writes(base: BasePIDSetConfiguration, feedback_sensor: i32, pid_loop: PIDLoop)
    ensures
        read_back_params(spec_pid_calls(base, feedback_sensor, pid_loop)[0]) == Some(seq![
            ParamRead { param: ParamEnum(339), ordinal: pid_loop.spec_value() },
        ]),
        read_back_params(spec_pid_calls(base, feedback_sensor, pid_loop)[1]) == Some(seq![
            ParamRead { param: ParamEnum(330), ordinal: pid_loop.spec_value() },
        ]),
{
}

/// All shared settings are written in one series of calls that holds the
/// calls of each slot, each filter and the auxiliary polarity at fixed
/// places, and begins with the factory default.
pub proof fn lemma_base_config_layout(c: BaseMotorControllerConfiguration)
    ensures
        spec_base_config_calls(c).len() == 60,
        spec_base_config_calls(c)[0] == ConfigCall::FactoryDefault,
        spec_base_config_calls(c)[1] == ConfigCall::OpenLoopRamp(c.open_loop_ramp),
        spec_base_config_calls(c)[2] == ConfigCall::ClosedLoopRamp(c.closed_loop_ramp),
        spec_base_config_calls(c)[3] == ConfigCall::PeakOutputForward(c.peak_output_forward),
        spec_base_config_calls(c)[4] == ConfigCall::PeakOutputReverse(c.peak_output_reverse),
        spec_base_config_calls(c)[5] == ConfigCall::NominalOutputForward(c.nominal_output_forward),
        spec_base_config_calls(c)[6] == ConfigCall::NominalOutputReverse(c.nominal_output_reverse),
        spec_base_config_calls(c)[7] == ConfigCall::NeutralDeadband(c.neutral_deadband),
        spec_base_config_calls(c)[8] == ConfigCall::VoltageCompSaturation(c.voltage_comp_saturation),
        spec_base_config_calls(c)[9] == ConfigCall::VoltageMeasurementFilter(c.voltage_measurement_filter),
        spec_base_config_calls(c)[10] == ConfigCall::VelocityMeasurementPeriod(c.velocity_measurement_period.spec_value()),
        spec_base_config_calls(c)[11] == ConfigCall::VelocityMeasurementWindow(c.velocity_measurement_window),
        spec_base_config_calls(c)[12] == ConfigCall::ForwardSoftLimitThreshold(c.forward_soft_limit_threshold),
        spec_base_config_calls(c)[13] == ConfigCall::ReverseSoftLimitThreshold(c.reverse_soft_limit_threshold),
        spec_base_config_calls(c)[14] == ConfigCall::ForwardSoftLimitEnable(c.forward_soft_limit_enable),
        spec_base_config_calls(c)[15] == ConfigCall::ReverseSoftLimitEnable(c.reverse_soft_limit_enable),
        spec_base_config_calls(c)[52] == (ConfigCall::SetParameter {
            param: ParamEnum(337),
            value: OutputValue::Whole(c.aux_pid_polarity.spec_value() as i64),
            sub_value: 0,
            ordinal: 1,
        }),
        spec_base_config_calls(c)[53] == (ConfigCall::RemoteFeedbackFilter {
            device_id: c.filter_0.remote_sensor_device_id,
            source: c.filter_0.remote_sensor_source.spec_value(),
            ordinal: 0,
        }),
        spec_base_config_calls(c)[54] == (ConfigCall::RemoteFeedbackFilter {
            device_id: c.filter_1.remote_sensor_device_id,
            source: c.filter_1.remote_sensor_source.spec_value(),
            ordinal: 1,
        }),
        spec_base_config_calls(c)[55] == ConfigCall::MotionCruiseVelocity(c.motion_cruise_velocity),
        spec_base_config_calls(c)[56] == ConfigCall::MotionAcceleration(c.motion_acceleration),
        spec_base_config_calls(c)[57] == ConfigCall::MotionProfileTrajectoryPeriod(c.motion_profile_trajectory_period),
        spec_base_config_calls(c)[58] == (ConfigCall::SetCustomParam { value: c.custom_param.0, index: 0 }),
        spec_base_config_calls(c)[59] == (ConfigCall::SetCustomParam { value: c.custom_param.1, index: 1 }),
        spec_base_config_calls(c).subrange(16, 25) == spec_slot_calls(c.slot_0, PIDSlot::S0),
        spec_base_config_calls(c).subrange(25, 34) == spec_slot_calls(c.slot_1, PIDSlot::S1),
        spec_base_config_calls(c).subrange(34, 43) == spec_slot_calls(c.slot_2, PIDSlot::S2),
        spec_base_config_calls(c).subrange(43, 52) == spec_slot_calls(c.slot_3, PIDSlot::S3),
        spec_base_config_calls(c)[52] == spec_aux_pid_polarity_call(c.aux_pid_polarity),
        spec_base_config_calls(c)[53] == spec_filter_call(c.filter_0, RemoteFilter::S0),
        spec_base_config_calls(c)[54] == spec_filter_call(c.filter_1, RemoteFilter::S1),
{
    let all = spec_base_config_calls(c);
    assert(all.subrange(16, 25) =~= spec_slot_calls(c.slot_0, PIDSlot::S0));
    assert(all.subrange(25, 34) =~= spec_slot_calls(c.slot_1, PIDSlot::S1));
    assert(all.subrange(34, 43) =~= spec_slot_calls(c.slot_2, PIDSlot::S2));
    assert(all.subrange(43, 52) =~= spec_slot_calls(c.slot_3, PIDSlot::S3));
}

/// Each call that `configure_slot` makes writes the slot field it is named
/// for, at the given slot: kP, kI, kD, kF, the integral zone, the allowable
/// error, the maximum integral accumulator, the peak output and the period.
pub proof fn lemma_slot_calls_fields(slot: SlotConfiguration, slot_idx: PIDSlot)
    ensures
        spec_slot_calls(slot, slot_idx).len() == 9,
        spec_slot_calls(slot, slot_idx)[0] == (ConfigCall::Kp { slot: slot_idx.spec_value(), value: slot.kp }),
        spec_slot_calls(slot, slot_idx)[1] == (ConfigCall::Ki { slot: slot_idx.spec_value(), value: slot.ki }),
        spec_slot_calls(slot, slot_idx)[2] == (ConfigCall::Kd { slot: slot_idx.spec_value(), value: slot.kd }),
        spec_slot_calls(slot, slot_idx)[3] == (ConfigCall::Kf { slot: slot_idx.spec_value(), value: slot.kf }),
        spec_slot_calls(slot, slot_idx)[4] == (ConfigCall::IntegralZone { slot: slot_idx.spec_value(), izone: slot.integral_zone }),
        spec_slot_calls(slot, slot_idx)[5] == (ConfigCall::AllowableClosedLoopError {
            slot: slot_idx.spec_value(),
            error: slot.allowable_closed_loop_error,
        }),
        spec_slot_calls(slot, slot_idx)[6] == (ConfigCall::MaxIntegralAccumulator {
            slot: slot_idx.spec_value(),
            value: slot.max_integral_accumulator,
        }),
        spec_slot_calls(slot, slot_idx)[7] == (ConfigCall::ClosedLoopPeakOutput {
            slot: slot_idx.spec_value(),
            value: slot.closed_loop_peak_output,
        }),
        spec_slot_calls(slot, slot_idx)[8] == (ConfigCall::ClosedLoopPeriod {
            slot: slot_idx.spec_value(),
            period_ms: slot.closed_loop_period,
        }),
{
}

/// The value that a device which keeps what was written reports for the
/// parameter that a slot or PID-loop write sets: the `f64` written, or the
/// whole number written.
pub open spec fn echo_of_write(call: ConfigCall) -> ParamValue {
    match call {
        ConfigCall::Kp { value, .. } => echo_bits(value),
        ConfigCall::Ki { value, .. } => echo_bits(value),
        ConfigCall::Kd { value, .. } => echo_bits(value),
        ConfigCall::Kf { value, .. } => echo_bits(value),
        ConfigCall::IntegralZone { izone, .. } => echo_whole(izone),
        ConfigCall::AllowableClosedLoopError { error, .. } => echo_whole(error),
        ConfigCall::MaxIntegralAccumulator { value, .. } => echo_bits(value),
        ConfigCall::ClosedLoopPeakOutput { value, .. } => echo_bits(value),
        ConfigCall::ClosedLoopPeriod { period_ms, .. } => echo_whole(period_ms),
        ConfigCall::SelectedFeedbackCoefficient { value, .. } => echo_bits(value),
        ConfigCall::SelectedFeedbackSensor { device, .. } => echo_whole(device),
        _ => echo_whole(0),
    }
}

/// `configure_slot` and then `get_slot_configs`, on a device that keeps what
/// was written, gives back the slot settings that were written: each read
/// gets the value of the write at its place.
pub proof fn lemma_slot_write_then_read(slot: SlotConfiguration, slot_idx: PIDSlot)
    ensures
        spec_slot_from_values(spec_slot_calls(slot, slot_idx).map_values(|c: ConfigCall| echo_of_write(c))) == slot,
{
}

/// Each field that `get_slot_configs` gives back is made of the read of its
/// own parameter, at the slot: a floating-point field is exactly the bits
/// read, whatever they are, and a whole-number field is the value read as
/// `i32`.
pub proof fn lemma_slot_from_values_fields(v: Seq<ParamValue>, slot_idx: PIDSlot)
    ensures
        spec_slot_reads(slot_idx).len() == 9,
        spec_slot_reads(slot_idx)[0] == (ParamRead { param: ParamEnum(310), ordinal: slot_idx.spec_value() }),
        spec_slot_from_values(v).kp == v[0].bits,
        spec_slot_reads(slot_idx)[1] == (ParamRead { param: ParamEnum(311), ordinal: slot_idx.spec_value() }),
        spec_slot_from_values(v).ki == v[1].bits,
        spec_slot_reads(slot_idx)[2] == (ParamRead { param: ParamEnum(312), ordinal: slot_idx.spec_value() }),
        spec_slot_from_values(v).kd == v[2].bits,
        spec_slot_reads(slot_idx)[3] == (ParamRead { param: ParamEnum(313), ordinal: slot_idx.spec_value() }),
        spec_slot_from_values(v).kf == v[3].bits,
        spec_slot_reads(slot_idx)[4] == (ParamRead { param: ParamEnum(314), ordinal: slot_idx.spec_value() }),
        spec_slot_from_values(v).integral_zone == v[4].truncated,
        spec_slot_reads(slot_idx)[5] == (ParamRead { param: ParamEnum(315), ordinal: slot_idx.spec_value() }),
        spec_slot_from_values(v).allowable_closed_loop_error == v[5].truncated,
        spec_slot_reads(slot_idx)[6] == (ParamRead { param: ParamEnum(316), ordinal: slot_idx.spec_value() }),
        spec_slot_from_values(v).max_integral_accumulator == v[6].bits,
        spec_slot_reads(slot_idx)[7] == (ParamRead { param: ParamEnum(317), ordinal: slot_idx.spec_value() }),
        spec_slot_from_values(v).closed_loop_peak_output == v[7].bits,
        spec_slot_reads(slot_idx)[8] == (ParamRead { param: ParamEnum(338), ordinal: slot_idx.spec_value() }),
        spec_slot_from_values(v).closed_loop_period == v[8].truncated,
{
}

/// The filter settings that `get_filter_configs` gives back: the device ID
/// is the first value read as `i32`; the source is `s` when the second value
/// is the number of `s`, and otherwise a source whose number is that value,
/// or `Off` when the value names none.
pub proof fn lemma_filter_from_values_fields(v: Seq<ParamValue>, s: RemoteSensorSource)
    requires
        v.len() == 2,
    ensures
        spec_filter_from_values(v).remote_sensor_device_id == v[0].truncated,
        v[1].whole == Some(s.spec_value() as i64) ==> spec_filter_from_values(v).remote_sensor_source == s,
        v[1].whole matches Some(w) ==> (spec_filter_from_values(v).remote_sensor_source.spec_value() == w
            || spec_filter_from_values(v).remote_sensor_source == RemoteSensorSource::Off),
        v[1].whole is None ==> spec_filter_from_values(v).remote_sensor_source == RemoteSensorSource::Off,
{
    if let Some(w) = v[1].whole {
        lemma_decode_round_trip(s, FeedbackDevice::QuadEncoder, RemoteFeedbackDevice::FactoryDefaultOff, w);
    }
}

/// The call that `configure_filter` makes writes the filter's remote device
/// ID and the number of its source, at the filter's ordinal.
pub proof fn lemma_filter_call_fields(filter: FilterConfiguration, ordinal: RemoteFilter)
    ensures
        spec_filter_call(filter, ordinal) == (ConfigCall::RemoteFeedbackFilter {
            device_id: filter.remote_sensor_device_id,
            source: filter.remote_sensor_source.spec_value(),
            ordinal: ordinal.spec_value(),
        }),
{
}

/// A failed series of reads gives its error unchanged, and a successful one
/// gives the settings made of exactly the values read.
pub proof fn lemma_result_from<T>(values: Vec<ParamValue>, e: ErrorCode, made: spec_fn(Seq<ParamValue>) -> T)
    ensures
        spec_result_from(Err(e), made) == Err::<T, ErrorCode>(e),
        spec_result_from(Ok(values), made) == Ok::<T, ErrorCode>(made(values@)),
{
}

impl Default for SlotConfiguration {
    /// The factory settings: no gains, no integral zone, no allowable error,
    /// no accumulator limit, a peak output of `1.0` and a period of 1 ms.
    fn default() -> (r: Self)
        ensures
            r == (SlotConfiguration {
                kp: 0,
                ki: 0,
                kd: 0,
                kf: 0,
                integral_zone: 0,
                allowable_closed_loop_error: 0,
                max_integral_accumulator: 0,
                closed_loop_peak_output: 0x3FF0_0000_0000_0000,
                closed_loop_period: 1,
            }),
    {
        SlotConfiguration {
            kp: 0,
            ki: 0,
            kd: 0,
            kf: 0,
            integral_zone: 0,
            allowable_closed_loop_error: 0,
            max_integral_accumulator: 0,
            closed_loop_peak_output: 0x3FF0_0000_0000_0000,
            closed_loop_period: 1,
        }
    }
}

impl Default for FilterConfiguration {
    /// The factory settings: device 0, source `Off`.
    fn default() -> (r: Self)
        ensures
            r == (FilterConfiguration { remote_sensor_device_id: 0, remote_sensor_source: RemoteSensorSource::Off }),
    {
        FilterConfiguration { remote_sensor_device_id: 0, remote_sensor_source: RemoteSensorSource::Off }
    }
}

impl Default for BasePIDSetConfiguration {
    /// The factory settings: a feedback coefficient of `1.0`.
    fn default() -> (r: Self)
        ensures
            r == (BasePIDSetConfiguration { selected_feedback_coefficient: 0x3FF0_0000_0000_0000 }),
    {
        BasePIDSetConfiguration { selected_feedback_coefficient: 0x3FF0_0000_0000_0000 }
    }
}

impl Default for TalonSRXPIDSetConfiguration {
    /// The factory settings: the shared defaults and the quadrature encoder.
    fn default() -> (r: Self)
        ensures
            r == (TalonSRXPIDSetConfiguration {
                _base: BasePIDSetConfiguration { selected_feedback_coefficient: 0x3FF0_0000_0000_0000 },
                selected_feedback_sensor: FeedbackDevice::QuadEncoder,
            }),
    {
        TalonSRXPIDSetConfiguration { _base: BasePIDSetConfiguration::default(), selected_feedback_sensor: FeedbackDevice::QuadEncoder }
    }
}

impl Default for VictorSPXPIDSetConfiguration {
    /// The factory settings: the shared defaults and no remote feedback device.
    fn default() -> (r: Self)
        ensures
            r == (VictorSPXPIDSetConfiguration {
                _base: BasePIDSetConfiguration { selected_feedback_coefficient: 0x3FF0_0000_0000_0000 },
                selected_feedback_sensor: RemoteFeedbackDevice::FactoryDefaultOff,
            }),
    {
        VictorSPXPIDSetConfiguration {
            _base: BasePIDSetConfiguration::default(),
            selected_feedback_sensor: RemoteFeedbackDevice::FactoryDefaultOff,
        }
    }
}

/// The factory settings shared by all motor controllers: no ramps, peak
/// outputs of `1.0` and `-1.0`, no nominal outputs, a neutral deadband of
/// `0.04`, no voltage compensation saturation, a voltage filter of 32
/// samples, velocity measured over 100 ms with a window of 64, no soft
/// limits, factory slots, standard auxiliary polarity, factory filters, no
/// motion magic settings and custom parameters of zero.
pub open spec fn spec_default_base_config() -> BaseMotorControllerConfiguration {
    BaseMotorControllerConfiguration {
        open_loop_ramp: 0,
        closed_loop_ramp: 0,
        peak_output_forward: 0x3FF0_0000_0000_0000,
        peak_output_reverse: 0xBFF0_0000_0000_0000,
        nominal_output_forward: 0,
        nominal_output_reverse: 0,
        neutral_deadband: 0x3FA4_7AE1_47AE_147B,
        voltage_comp_saturation: 0,
        voltage_measurement_filter: 32,
        velocity_measurement_period: VelocityMeasPeriod::Period_100Ms,
        velocity_measurement_window: 64,
        forward_soft_limit_threshold: 0,
        reverse_soft_limit_threshold: 0,
        forward_soft_limit_enable: false,
        reverse_soft_limit_enable: false,
        slot_0: spec_default_slot(),
        slot_1: spec_default_slot(),
        slot_2: spec_default_slot(),
        slot_3: spec_default_slot(),
        aux_pid_polarity: AuxPIDPolarity::Standard,
        filter_0: FilterConfiguration { remote_sensor_device_id: 0, remote_sensor_source: RemoteSensorSource::Off },
        filter_1: FilterConfiguration { remote_sensor_device_id: 0, remote_sensor_source: RemoteSensorSource::Off },
        motion_cruise_velocity: 0,
        motion_acceleration: 0,
        motion_profile_trajectory_period: 0,
        custom_param: (0, 0),
    }
}

/// The factory settings of a slot.
pub open spec fn spec_default_slot() -> SlotConfiguration {
    SlotConfiguration {
        kp: 0,
        ki: 0,
        kd: 0,
        kf: 0,
        integral_zone: 0,
        allowable_closed_loop_error: 0,
        max_integral_accumulator: 0,
        closed_loop_peak_output: 0x3FF0_0000_0000_0000,
        closed_loop_period: 1,
    }
}

impl Default for BaseMotorControllerConfiguration {
    /// The factory settings shared by all motor controllers.
    fn default() -> (r: Self)
        ensures
            r == spec_default_base_config(),
    {
        BaseMotorControllerConfiguration {
            open_loop_ramp: 0,
            closed_loop_ramp: 0,
            peak_output_forward: 0x3FF0_0000_0000_0000,
            peak_output_reverse: 0xBFF0_0000_0000_0000,
            nominal_output_forward: 0,
            nominal_output_reverse: 0,
            neutral_deadband: 0x3FA4_7AE1_47AE_147B,
            voltage_comp_saturation: 0,
            voltage_measurement_filter: 32,
            velocity_measurement_period: VelocityMeasPeriod::Period_100Ms,
            velocity_measurement_window: 64,
            forward_soft_limit_threshold: 0,
            reverse_soft_limit_threshold: 0,
            forward_soft_limit_enable: false,
            reverse_soft_limit_enable: false,
            slot_0: SlotConfiguration::default(),
            slot_1: SlotConfiguration::default(),
            slot_2: SlotConfiguration::default(),
            slot_3: SlotConfiguration::default(),
            aux_pid_polarity: AuxPIDPolarity::Standard,
            filter_0: FilterConfiguration::default(),
            filter_1: FilterConfiguration::default(),
            motion_cruise_velocity: 0,
            motion_acceleration: 0,
            motion_profile_trajectory_period: 0,
            custom_param: (0, 0),
        }
    }
}

impl Default for TalonSRXConfiguration {
    /// The factory settings.
    fn default() -> (r: Self)
        ensures
            r._base == spec_default_base_config(),
    {
        TalonSRXConfiguration { _base: BaseMotorControllerConfiguration::default() }
    }
}

impl Default for VictorSPXConfiguration {
    /// The factory settings.
    fn default() -> (r: Self)
        ensures
            r._base == spec_default_base_config(),
    {
        VictorSPXConfiguration { _base: BaseMotorControllerConfiguration::default() }
    }
}

} // verus!
