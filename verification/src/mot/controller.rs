//! The motor controllers and the commands they are given.
use vstd::prelude::*;

use super::config::{
    base_config_all_settings_calls, pid_calls, spec_base_config_calls, spec_base_pid_from_values,
    spec_pid_calls, spec_result_from, echo_bits, echo_of_write, echo_whole, BasePIDSetConfiguration, ConfigCall,
    TalonSRXConfiguration, TalonSRXPIDSetConfiguration, VictorSPXConfiguration,
    VictorSPXPIDSetConfiguration,
};
use super::control::{
    ControlMode, Demand, Demand0, FollowerType, PIDLoop, SetCall, demand0_wf, spec_set_call,
};
use super::private::Sealed;
use super::sensors::{lemma_decode_round_trip, FeedbackDevice, RemoteFeedbackDevice, RemoteSensorSource};
use super::settings::{LimitSwitchNormal, LimitSwitchSource, SensorTerm};
use crate::error::ErrorCode;
use crate::param::ParamValue;

verus! {

/// The 24-bit ID under which a follower names the master with arbitration ID
/// `master_base_id`: the device kind (bits 16 and up) moved down to bits 8
/// and up, with the device number (low byte) kept.
pub open spec fn follow_target(master_base_id: i32) -> i32 {
    ((master_base_id >> 16i32) << 8i32) | (master_base_id & 0xFFi32)
}

/// The demand1 that a follower of the given type sends.
pub open spec fn follow_demand(follower_type: FollowerType) -> Demand {
    match follower_type {
        FollowerType::PercentOutput => Demand::Neutral,
        FollowerType::AuxOutput1 => Demand::AuxPID(0),
    }
}

/// The call that `follow(master, follower_type)` makes on a device with
/// arbitration ID `base_id`, when the master's arbitration ID is
/// `master_base_id`.
pub open spec fn spec_follow_call(base_id: i32, master_base_id: i32, follower_type: FollowerType) -> SetCall {
    spec_set_call(
        base_id,
        ControlMode::Follower,
        Demand0::Whole(follow_target(master_base_id)),
        follow_demand(follower_type),
    )
}

/// The arbitration ID of Talon SRX number `device_number`.
pub open spec fn talon_srx_arb_id(device_number: u8) -> i32 {
    (device_number as i32) | 0x0204_0000i32
}

/// The arbitration ID of Victor SPX number `device_number`.
pub open spec fn victor_spx_arb_id(device_number: u8) -> i32 {
    (device_number as i32) | 0x0104_0000i32
}

/// Base motor controller features for all CTRE CAN motor controllers.
///
/// This trait is sealed and cannot be implemented for types outside this crate.
pub trait MotorController: Sealed {
    /// The arbitration ID of the device.
    spec fn spec_base_id(&self) -> i32;

    /// The arbitration ID of the device.
    fn base_id(&self) -> (r: i32)
        ensures
            r == self.spec_base_id(),
    ;

    /// The call that sets the output of this device.
    ///
    /// - `mode`: how the device interprets `demand0`.
    /// - `demand0`: the output value; in follower mode, a value in `[0, 62]`
    ///   is the device number of a controller of the same kind to follow.
    /// - `demand1`: supplemental output value; units match the mode.
    fn set_call(&self, mode: ControlMode, demand0: Demand0, demand1: Demand) -> (r: SetCall)
        requires
            demand0_wf(demand0),
        ensures
            r == spec_set_call(self.spec_base_id(), mode, demand0, demand1),
    {
        super::control::set_call(self.base_id(), mode, demand0, demand1)
    }

    /// The call that neutralises the motor output by setting the control mode
    /// to disabled.
    fn neutral_output_call(&self) -> (r: SetCall)
        ensures
            r == spec_set_call(self.spec_base_id(), ControlMode::Disabled, Demand0::Whole(0), Demand::Neutral),
            r == (SetCall::SetDisabled { mode: 15 }),
    {
        self.set_call(ControlMode::Disabled, Demand0::Whole(0), Demand::Neutral)
    }
}

/// The call that makes `follower` follow `master_to_follow`.
///
/// Use `AuxOutput1` to follow the master's auxiliary output 1, and
/// `PercentOutput` for standard follower mode.
pub fn follow_call<F: MotorController, M: MotorController>(
    follower: &F,
    master_to_follow: &M,
    follower_type: FollowerType,
) -> (r: SetCall)
    ensures
        r == spec_follow_call(follower.spec_base_id(), master_to_follow.spec_base_id(), follower_type),
{
    let base_id = master_to_follow.base_id();
    let id24: i32 = ((base_id >> 16i32) << 8i32) | (base_id & 0xFFi32);
    match follower_type {
        FollowerType::PercentOutput => {
            follower.set_call(ControlMode::Follower, Demand0::Whole(id24), Demand::Neutral)
        },
        FollowerType::AuxOutput1 => {
            follower.set_call(ControlMode::Follower, Demand0::Whole(id24), Demand::AuxPID(0))
        },
    }
}

/// CTRE Talon SRX motor controller when used on CAN bus.
#[derive(Debug)]
pub struct TalonSRX {
    arb_id: i32,
}

impl TalonSRX {
    /// Constructor.
    ///
    /// - `device_number`: CAN device ID of the Talon SRX, [0, 62].
    pub fn new(device_number: u8) -> (r: Self)
        ensures
            r.spec_base_id() == talon_srx_arb_id(device_number),
    {
        let arb_id = (device_number as i32) | 0x0204_0000i32;
        TalonSRX { arb_id }
    }
}

impl TalonSRX {
    /// The call that selects the (local or remote) feedback device, given by
    /// its device number, for a PID loop.
    pub fn config_selected_feedback_sensor(&self, feedback_device: FeedbackDevice, pid_loop: PIDLoop) -> (r: ConfigCall)
        ensures
            r == (ConfigCall::SelectedFeedbackSensor {
                device: feedback_device.spec_value(),
                pid_loop: pid_loop.spec_value(),
            }),
    {
        ConfigCall::SelectedFeedbackSensor { device: feedback_device.value(), pid_loop: pid_loop.value() }
    }

    /// The call that binds a sensor term to a (local or remote) feedback
    /// device. Sensor sum = sum term 0 - sum term 1; sensor difference =
    /// difference term 0 - difference term 1.
    pub fn config_sensor_term(&self, sensor_term: SensorTerm, feedback_device: FeedbackDevice) -> (r: ConfigCall)
        ensures
            r == (ConfigCall::SensorTerm { sensor_term: sensor_term.spec_value(), device: feedback_device.spec_value() }),
    {
        ConfigCall::SensorTerm { sensor_term: sensor_term.value(), device: feedback_device.value() }
    }

    /// The call that sets the period of an (enhanced) status frame.
    pub fn set_status_frame_period(&self, frame: i32, period_ms: u8) -> (r: ConfigCall)
        ensures
            r == (ConfigCall::StatusFramePeriod { frame, period_ms }),
    {
        ConfigCall::StatusFramePeriod { frame, period_ms }
    }

    /// The call that configures the forward limit switch for a local or
    /// remote source; a remote source is taken to be device ID zero.
    pub fn config_forward_limit_switch_source(
        &self,
        type_: LimitSwitchSource,
        normal_open_or_close: LimitSwitchNormal,
    ) -> (r: ConfigCall)
        ensures
            r == (ConfigCall::ForwardLimitSwitchSource {
                source: type_.spec_value(),
                normal: normal_open_or_close.spec_value(),
                device_id: 0,
            }),
    {
        ConfigCall::ForwardLimitSwitchSource {
            source: type_.value(),
            normal: normal_open_or_close.value(),
            device_id: 0,
        }
    }

    /// The call that configures the reverse limit switch for a local or
    /// remote source; a remote source is taken to be device ID zero.
    pub fn config_reverse_limit_switch_source(
        &self,
        type_: LimitSwitchSource,
        normal_open_or_close: LimitSwitchNormal,
    ) -> (r: ConfigCall)
        ensures
            r == (ConfigCall::ReverseLimitSwitchSource {
                source: type_.spec_value(),
                normal: normal_open_or_close.spec_value(),
                device_id: 0,
            }),
    {
        ConfigCall::ReverseLimitSwitchSource {
            source: type_.value(),
            normal: normal_open_or_close.value(),
            device_id: 0,
        }
    }

    /// The call that configures the peak allowable current (when current
    /// limiting is enabled).
    pub fn config_peak_current_limit(&self, amps: i32) -> (r: ConfigCall)
        ensures
            r == ConfigCall::PeakCurrentLimit(amps),
    {
        ConfigCall::PeakCurrentLimit(amps)
    }

    /// The call that configures the peak allowable duration: how long, in
    /// milliseconds, the current may exceed the peak limit before it is
    /// limited to the continuous limit.
    pub fn config_peak_current_duration(&self, milliseconds: i32) -> (r: ConfigCall)
        ensures
            r == ConfigCall::PeakCurrentDuration(milliseconds),
    {
        ConfigCall::PeakCurrentDuration(milliseconds)
    }

    /// The call that configures the continuous allowable current draw (when
    /// current limiting is enabled).
    pub fn config_continuous_current_limit(&self, amps: i32) -> (r: ConfigCall)
        ensures
            r == ConfigCall::ContinuousCurrentLimit(amps),
    {
        ConfigCall::ContinuousCurrentLimit(amps)
    }
}

impl MotorController for TalonSRX {
    closed spec fn spec_base_id(&self) -> i32 {
        self.arb_id
    }

    fn base_id(&self) -> (r: i32) {
        self.arb_id
    }
}

/// VEX Victor SPX motor controller when used on CAN bus.
#[derive(Debug)]
pub struct VictorSPX {
    arb_id: i32,
}

impl VictorSPX {
    /// Constructor.
    ///
    /// - `device_number`: CAN device ID of the Victor SPX, [0, 62].
    pub fn new(device_number: u8) -> (r: Self)
        ensures
            r.spec_base_id() == victor_spx_arb_id(device_number),
    {
        let arb_id = (device_number as i32) | 0x0104_0000i32;
        VictorSPX { arb_id }
    }
}

impl MotorController for VictorSPX {
    closed spec fn spec_base_id(&self) -> i32 {
        self.arb_id
    }

    fn base_id(&self) -> (r: i32) {
        self.arb_id
    }
}

/// Extension of `MotorController` with configuration of the PID loops.
pub trait MotorControllerConfig: MotorController + ConfigAll {
    /// The PID-loop settings of this kind of controller.
    type PIDSetConfiguration;

    /// The calls that write `pid` to loop `pid_loop`.
    spec fn spec_configure_pid_calls(pid: Self::PIDSetConfiguration, pid_loop: PIDLoop) -> Seq<ConfigCall>;

    /// The calls that configure all PID set persistent settings. Every call
    /// is made; the combined code is the first failure.
    fn configure_pid_calls(&self, pid: &Self::PIDSetConfiguration, pid_loop: PIDLoop) -> (r: Vec<ConfigCall>)
        ensures
            r@ == Self::spec_configure_pid_calls(*pid, pid_loop),
    ;

    /// The PID-loop settings made of the values of the reads of
    /// `pid_configs_reads`: the feedback coefficient, then the feedback
    /// device whose number the second value is, or the default device when
    /// it names none.
    spec fn spec_pid_from_values(v: Seq<ParamValue>) -> Self::PIDSetConfiguration;

    /// The result of `get_pid_configs`, from the outcome of the reads of
    /// `pid_configs_reads`: the first failed read's code, or the settings
    /// made of the two values read.
    fn pid_configs_from_reads(&self, read: Result<Vec<ParamValue>, ErrorCode>) -> (r: Result<
        Self::PIDSetConfiguration,
        ErrorCode,
    >)
        requires
            read matches Ok(v) ==> v@.len() == 2,
        ensures
            r == spec_result_from(read, |v: Seq<ParamValue>| Self::spec_pid_from_values(v)),
    ;
}

impl MotorControllerConfig for TalonSRX {
    type PIDSetConfiguration = TalonSRXPIDSetConfiguration;

    open spec fn spec_configure_pid_calls(pid: TalonSRXPIDSetConfiguration, pid_loop: PIDLoop) -> Seq<ConfigCall> {
        spec_pid_calls(pid._base, pid.selected_feedback_sensor.spec_value(), pid_loop)
    }

    fn configure_pid_calls(&self, pid: &TalonSRXPIDSetConfiguration, pid_loop: PIDLoop) -> (r: Vec<ConfigCall>) {
        pid_calls(&pid._base, pid.selected_feedback_sensor.value(), pid_loop)
    }

    open spec fn spec_pid_from_values(v: Seq<ParamValue>) -> TalonSRXPIDSetConfiguration {
        TalonSRXPIDSetConfiguration {
            _base: spec_base_pid_from_values(v),
            selected_feedback_sensor: FeedbackDevice::spec_decode(v[1].whole),
        }
    }

    fn pid_configs_from_reads(&self, read: Result<Vec<ParamValue>, ErrorCode>) -> (r: Result<
        TalonSRXPIDSetConfiguration,
        ErrorCode,
    >) {
        match read {
            Ok(v) => Ok(TalonSRXPIDSetConfiguration {
                _base: BasePIDSetConfiguration { selected_feedback_coefficient: v[0].bits },
                selected_feedback_sensor: FeedbackDevice::decode(v[1].whole),
            }),
            Err(e) => Err(e),
        }
    }
}

impl MotorControllerConfig for VictorSPX {
    type PIDSetConfiguration = VictorSPXPIDSetConfiguration;

    open spec fn spec_configure_pid_calls(pid: VictorSPXPIDSetConfiguration, pid_loop: PIDLoop) -> Seq<ConfigCall> {
        spec_pid_calls(pid._base, pid.selected_feedback_sensor.spec_value(), pid_loop)
    }

    fn configure_pid_calls(&self, pid: &VictorSPXPIDSetConfiguration, pid_loop: PIDLoop) -> (r: Vec<ConfigCall>) {
        pid_calls(&pid._base, pid.selected_feedback_sensor.value(), pid_loop)
    }

    open spec fn spec_pid_from_values(v: Seq<ParamValue>) -> VictorSPXPIDSetConfiguration {
        VictorSPXPIDSetConfiguration {
            _base: spec_base_pid_from_values(v),
            selected_feedback_sensor: RemoteFeedbackDevice::spec_decode(v[1].whole),
        }
    }

    fn pid_configs_from_reads(&self, read: Result<Vec<ParamValue>, ErrorCode>) -> (r: Result<
        VictorSPXPIDSetConfiguration,
        ErrorCode,
    >) {
        match read {
            Ok(v) => Ok(VictorSPXPIDSetConfiguration {
                _base: BasePIDSetConfiguration { selected_feedback_coefficient: v[0].bits },
                selected_feedback_sensor: RemoteFeedbackDevice::decode(v[1].whole),
            }),
            Err(e) => Err(e),
        }
    }
}

/// Configuration of all persistent settings at once.
pub trait ConfigAll {
    /// All persistent settings of this kind of controller.
    type Configuration;

    /// The calls that write `all_configs`.
    spec fn spec_config_all_settings_calls(all_configs: Self::Configuration) -> Seq<ConfigCall>;

    /// The calls that configure all persistent settings. Every call is made;
    /// the combined code is the first failure.
    fn config_all_settings_calls(&self, all_configs: &Self::Configuration) -> (r: Vec<ConfigCall>)
        ensures
            r@ == Self::spec_config_all_settings_calls(*all_configs),
    ;
}

impl ConfigAll for TalonSRX {
    type Configuration = TalonSRXConfiguration;

    open spec fn spec_config_all_settings_calls(all_configs: TalonSRXConfiguration) -> Seq<ConfigCall> {
        spec_base_config_calls(all_configs._base)
    }

    fn config_all_settings_calls(&self, all_configs: &TalonSRXConfiguration) -> (r: Vec<ConfigCall>) {
        base_config_all_settings_calls(&all_configs._base)
    }
}

impl ConfigAll for VictorSPX {
    type Configuration = VictorSPXConfiguration;

    open spec fn spec_config_all_settings_calls(all_configs: VictorSPXConfiguration) -> Seq<ConfigCall> {
        spec_base_config_calls(all_configs._base)
    }

    fn config_all_settings_calls(&self, all_configs: &VictorSPXConfiguration) -> (r: Vec<ConfigCall>) {
        base_config_all_settings_calls(&all_configs._base)
    }
}

/// When the reads give back the coefficient and the number of the feedback
/// device that `configure_pid` wrote, `get_pid_configs` gives back the
/// PID-loop settings that were written, for both kinds of controller.
pub proof fn lemma_pid_round_trip(talon: TalonSRXPIDSetConfiguration, victor: VictorSPXPIDSetConfiguration)
    ensures
        <TalonSRX as MotorControllerConfig>::spec_pid_from_values(seq![
            echo_bits(talon._base.selected_feedback_coefficient),
            echo_whole(talon.selected_feedback_sensor.spec_value()),
        ]) == talon,
        <VictorSPX as MotorControllerConfig>::spec_pid_from_values(seq![
            echo_bits(victor._base.selected_feedback_coefficient),
            echo_whole(victor.selected_feedback_sensor.spec_value()),
        ]) == victor,
{
}

/// The calls that configure a PID loop write the feedback coefficient and
/// then the feedback device, both to the loop that was given, for both kinds
/// of controller.
pub proof fn lemma_configure_pid_calls_address_loop(
    talon: TalonSRXPIDSetConfiguration,
    victor: VictorSPXPIDSetConfiguration,
    pid_loop: PIDLoop,
)
    ensures
        <TalonSRX as MotorControllerConfig>::spec_configure_pid_calls(talon, pid_loop) == seq![
            ConfigCall::SelectedFeedbackCoefficient {
                value: talon._base.selected_feedback_coefficient,
                pid_loop: pid_loop.spec_value(),
            },
            ConfigCall::SelectedFeedbackSensor {
                device: talon.selected_feedback_sensor.spec_value(),
                pid_loop: pid_loop.spec_value(),
            },
        ],
        <VictorSPX as MotorControllerConfig>::spec_configure_pid_calls(victor, pid_loop) == seq![
            ConfigCall::SelectedFeedbackCoefficient {
                value: victor._base.selected_feedback_coefficient,
                pid_loop: pid_loop.spec_value(),
            },
            ConfigCall::SelectedFeedbackSensor {
                device: victor.selected_feedback_sensor.spec_value(),
                pid_loop: pid_loop.spec_value(),
            },
        ],
{
    assert(<TalonSRX as MotorControllerConfig>::spec_configure_pid_calls(talon, pid_loop) =~= seq![
        ConfigCall::SelectedFeedbackCoefficient {
            value: talon._base.selected_feedback_coefficient,
            pid_loop: pid_loop.spec_value(),
        },
        ConfigCall::SelectedFeedbackSensor {
            device: talon.selected_feedback_sensor.spec_value(),
            pid_loop: pid_loop.spec_value(),
        },
    ]);
    assert(<VictorSPX as MotorControllerConfig>::spec_configure_pid_calls(victor, pid_loop) =~= seq![
        ConfigCall::SelectedFeedbackCoefficient {
            value: victor._base.selected_feedback_coefficient,
            pid_loop: pid_loop.spec_value(),
        },
        ConfigCall::SelectedFeedbackSensor {
            device: victor.selected_feedback_sensor.spec_value(),
            pid_loop: pid_loop.spec_value(),
        },
    ]);
}

/// `configure_pid` and then `get_pid_configs`, on a device that keeps what
/// was written, gives back the PID-loop settings that were written, for
/// both kinds of controller.
pub proof fn lemma_pid_write_then_read(
    talon: TalonSRXPIDSetConfiguration,
    victor: VictorSPXPIDSetConfiguration,
    pid_loop: PIDLoop,
)
    ensures
        <TalonSRX as MotorControllerConfig>::spec_pid_from_values(
            <TalonSRX as MotorControllerConfig>::spec_configure_pid_calls(talon, pid_loop).map_values(
                |c: ConfigCall| echo_of_write(c),
            ),
        ) == talon,
        <VictorSPX as MotorControllerConfig>::spec_pid_from_values(
            <VictorSPX as MotorControllerConfig>::spec_configure_pid_calls(victor, pid_loop).map_values(
                |c: ConfigCall| echo_of_write(c),
            ),
        ) == victor,
{
    lemma_configure_pid_calls_address_loop(talon, victor, pid_loop);
    lemma_decode_round_trip(RemoteSensorSource::Off, talon.selected_feedback_sensor, victor.selected_feedback_sensor, 0);
}

/// The PID-loop settings that `get_pid_configs` gives back: the coefficient
/// is exactly the bits of the first value read, and the feedback device is
/// the one whose number the second value is, or the default device when it
/// names none, for both kinds of controller.
pub proof fn lemma_pid_from_values_fields(v: Seq<ParamValue>, f: FeedbackDevice, g: RemoteFeedbackDevice)
    requires
        v.len() == 2,
    ensures
        <TalonSRX as MotorControllerConfig>::spec_pid_from_values(v)._base.selected_feedback_coefficient == v[0].bits,
        <VictorSPX as MotorControllerConfig>::spec_pid_from_values(v)._base.selected_feedback_coefficient == v[0].bits,
        v[1].whole == Some(f.spec_value() as i64)
            ==> <TalonSRX as MotorControllerConfig>::spec_pid_from_values(v).selected_feedback_sensor == f,
        v[1].whole == Some(g.spec_value() as i64)
            ==> <VictorSPX as MotorControllerConfig>::spec_pid_from_values(v).selected_feedback_sensor == g,
        v[1].whole is None ==> <TalonSRX as MotorControllerConfig>::spec_pid_from_values(v).selected_feedback_sensor
            == FeedbackDevice::QuadEncoder,
        v[1].whole is None ==> <VictorSPX as MotorControllerConfig>::spec_pid_from_values(v).selected_feedback_sensor
            == RemoteFeedbackDevice::FactoryDefaultOff,
        v[1].whole matches Some(w) ==> (
            <TalonSRX as MotorControllerConfig>::spec_pid_from_values(v).selected_feedback_sensor.spec_value() == w
            || <TalonSRX as MotorControllerConfig>::spec_pid_from_values(v).selected_feedback_sensor == FeedbackDevice::QuadEncoder),
        v[1].whole matches Some(w) ==> (
            <VictorSPX as MotorControllerConfig>::spec_pid_from_values(v).selected_feedback_sensor.spec_value() == w
            || <VictorSPX as MotorControllerConfig>::spec_pid_from_values(v).selected_feedback_sensor
                == RemoteFeedbackDevice::FactoryDefaultOff),
{
    if let Some(w) = v[1].whole {
        lemma_decode_round_trip(RemoteSensorSource::Off, f, g, w);
    }
}

/// The follower ID of a Talon SRX master names its kind and its device number:
/// `0x0204` in bits 8 and up, and the device number in the low byte.
pub proof fn lemma_follow_target_talon_srx(device_number: u8)
    ensures
        follow_target(talon_srx_arb_id(device_number)) == 0x020400i32 | (device_number as i32),
        follow_target(talon_srx_arb_id(device_number)) & 0xFFi32 == device_number as i32,
        follow_target(talon_srx_arb_id(device_number)) >> 8i32 == 0x0204i32,
{
    let d = device_number;
    assert(((((d as i32) | 0x0204_0000i32) >> 16i32) << 8i32) | (((d as i32) | 0x0204_0000i32) & 0xFFi32)
        == 0x020400i32 | (d as i32)) by (bit_vector);
    assert((0x020400i32 | (d as i32)) & 0xFFi32 == d as i32) by (bit_vector);
    assert((0x020400i32 | (d as i32)) >> 8i32 == 0x0204i32) by (bit_vector);
}

/// The follower ID of a Victor SPX master names its kind and its device number:
/// `0x0104` in bits 8 and up, and the device number in the low byte.
pub proof fn lemma_follow_target_victor_spx(device_number: u8)
    ensures
        follow_target(victor_spx_arb_id(device_number)) == 0x010400i32 | (device_number as i32),
        follow_target(victor_spx_arb_id(device_number)) & 0xFFi32 == device_number as i32,
        follow_target(victor_spx_arb_id(device_number)) >> 8i32 == 0x0104i32,
{
    let d = device_number;
    assert(((((d as i32) | 0x0104_0000i32) >> 16i32) << 8i32) | (((d as i32) | 0x0104_0000i32) & 0xFFi32)
        == 0x010400i32 | (d as i32)) by (bit_vector);
    assert((0x010400i32 | (d as i32)) & 0xFFi32 == d as i32) by (bit_vector);
    assert((0x010400i32 | (d as i32)) >> 8i32 == 0x0104i32) by (bit_vector);
}

/// In follower mode, `set` with a device number `n` in `[0, 62]` sends what
/// `follow` sends for the Talon SRX with device number `n`, when the follower
/// is a Talon SRX; the same holds with the aux PID demand and `AuxOutput1`.
pub proof fn lemma_set_follower_is_follow_talon_srx(follower: u8, master: u8)
    requires
        master <= 62,
    ensures
        spec_set_call(talon_srx_arb_id(follower), ControlMode::Follower, Demand0::Whole(master as i32), Demand::Neutral)
            == spec_follow_call(talon_srx_arb_id(follower), talon_srx_arb_id(master), FollowerType::PercentOutput),
        spec_set_call(talon_srx_arb_id(follower), ControlMode::Follower, Demand0::Whole(master as i32), Demand::AuxPID(0))
            == spec_follow_call(talon_srx_arb_id(follower), talon_srx_arb_id(master), FollowerType::AuxOutput1),
{
    let f = follower;
    let m = master;
    lemma_follow_target_talon_srx(m);
    assert(((((f as i32) | 0x0204_0000i32) as u32 >> 16u32) << 8u32) | (m as u32) == (0x020400i32 | (m as i32)) as u32)
        by (bit_vector);
    assert((0x020400i32 | (m as i32)) > 62i32) by (bit_vector);
}

/// In follower mode, `set` with a device number `n` in `[0, 62]` sends what
/// `follow` sends for the Victor SPX with device number `n`, when the follower
/// is a Victor SPX; the same holds with the aux PID demand and `AuxOutput1`.
pub proof fn lemma_set_follower_is_follow_victor_spx(follower: u8, master: u8)
    requires
        master <= 62,
    ensures
        spec_set_call(victor_spx_arb_id(follower), ControlMode::Follower, Demand0::Whole(master as i32), Demand::Neutral)
            == spec_follow_call(victor_spx_arb_id(follower), victor_spx_arb_id(master), FollowerType::PercentOutput),
        spec_set_call(victor_spx_arb_id(follower), ControlMode::Follower, Demand0::Whole(master as i32), Demand::AuxPID(0))
            == spec_follow_call(victor_spx_arb_id(follower), victor_spx_arb_id(master), FollowerType::AuxOutput1),
{
    let f = follower;
    let m = master;
    lemma_follow_target_victor_spx(m);
    assert(((((f as i32) | 0x0104_0000i32) as u32 >> 16u32) << 8u32) | (m as u32) == (0x010400i32 | (m as i32)) as u32)
        by (bit_vector);
    assert((0x010400i32 | (m as i32)) > 62i32) by (bit_vector);
}

/// A constructed controller's arbitration ID holds its kind in bits 16 and up
/// and its device number in the low byte.
pub proof fn lemma_arb_id_fields(device_number: u8)
    ensures
        talon_srx_arb_id(device_number) >> 16i32 == 0x0204i32,
        talon_srx_arb_id(device_number) & 0xFFi32 == device_number as i32,
        victor_spx_arb_id(device_number) >> 16i32 == 0x0104i32,
        victor_spx_arb_id(device_number) & 0xFFi32 == device_number as i32,
{
    let d = device_number;
    assert(((d as i32) | 0x0204_0000i32) >> 16i32 == 0x0204i32) by (bit_vector);
    assert(((d as i32) | 0x0204_0000i32) & 0xFFi32 == d as i32) by (bit_vector);
    assert(((d as i32) | 0x0104_0000i32) >> 16i32 == 0x0104i32) by (bit_vector);
    assert(((d as i32) | 0x0104_0000i32) & 0xFFi32 == d as i32) by (bit_vector);
}

} // verus!
