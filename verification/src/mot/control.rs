//! Control modes, demands and the selection of loops, slots and filters.
use vstd::prelude::*;

verus! {

/// Which PID loop a config call should refer to.
/// Used in place of a `pidIdx` parameter in the C++/Java API.
#[derive(Debug, Copy, Clone, PartialEq, Eq, Hash, Structural)]
pub enum PIDLoop {
    /// The primary PID loop (PID index 0).
    Primary,
    /// The auxiliary PID loop (PID index 1).
    Auxiliary,
}

impl PIDLoop {
    /// The PID index that the device interface uses.
    pub open spec fn spec_value(self) -> i32 {
        match self {
            PIDLoop::Primary => 0,
            PIDLoop::Auxiliary => 1,
        }
    }

    /// The PID index that the device interface uses.
    pub fn value(self) -> (r: i32)
        ensures
            r == self.spec_value(),
    {
        match self {
            PIDLoop::Primary => 0,
            PIDLoop::Auxiliary => 1,
        }
    }
}

impl Default for PIDLoop {
    /// Returns `PIDLoop::Primary`.
    fn default() -> (r: Self)
        ensures
            r == PIDLoop::Primary,
    {
        PIDLoop::Primary
    }
}

/// Remote sensor/filter ordinal.
#[derive(Debug, Copy, Clone, PartialEq, Eq, Hash, Structural)]
pub enum RemoteFilter {
    /// Remote Sensor 0
    S0,
    /// Remote Sensor 1
    S1,
}

impl RemoteFilter {
    /// The ordinal that the device interface uses.
    pub open spec fn spec_value(self) -> i32 {
        match self {
            RemoteFilter::S0 => 0,
            RemoteFilter::S1 => 1,
        }
    }

    /// The ordinal that the device interface uses.
    pub fn value(self) -> (r: i32)
        ensures
            r == self.spec_value(),
    {
        match self {
            RemoteFilter::S0 => 0,
            RemoteFilter::S1 => 1,
        }
    }
}

/// One of the four closed-loop gain slots.
#[derive(Debug, Copy, Clone, PartialEq, Eq, Hash, Structural)]
pub enum PIDSlot {
    S0,
    S1,
    S2,
    S3,
}

impl PIDSlot {
    /// The slot index that the device interface uses.
    pub open spec fn spec_value(self) -> i32 {
        match self {
            PIDSlot::S0 => 0,
            PIDSlot::S1 => 1,
            PIDSlot::S2 => 2,
            PIDSlot::S3 => 3,
        }
    }

    /// The slot index that the device interface uses.
    pub fn value(self) -> (r: i32)
        ensures
            r == self.spec_value(),
    {
        match self {
            PIDSlot::S0 => 0,
            PIDSlot::S1 => 1,
            PIDSlot::S2 => 2,
            PIDSlot::S3 => 3,
        }
    }
}

/// One of the two custom persistent parameters.
#[derive(Debug, Copy, Clone, PartialEq, Eq, Hash, Structural)]
pub enum CustomParam {
    A,
    B,
}

impl CustomParam {
    /// The parameter index that the device interface uses.
    pub open spec fn spec_value(self) -> i32 {
        match self {
            CustomParam::A => 0,
            CustomParam::B => 1,
        }
    }

    /// The parameter index that the device interface uses.
    pub fn value(self) -> (r: i32)
        ensures
            r == self.spec_value(),
    {
        match self {
            CustomParam::A => 0,
            CustomParam::B => 1,
        }
    }
}

/// The mode in which a motor controller interprets its demand.
#[derive(Debug, Copy, Clone, PartialEq, Eq, Hash, Structural)]
pub enum ControlMode {
    /// Output between -1.0 and 1.0, with 0.0 as stopped.
    PercentOutput,
    /// Position in encoder ticks or an analog value.
    Position,
    /// Position change per 100ms.
    Velocity,
    /// Current in amperes.
    Current,
    /// Follow another motor controller.
    Follower,
    /// Run a buffered motion profile.
    MotionProfile,
    /// Run a Motion Magic profile.
    MotionMagic,
    /// Run a buffered motion profile with an auxiliary (arc) loop.
    MotionProfileArc,
    /// No output.
    Disabled,
}

impl ControlMode {
    /// The mode number that the device interface uses.
    pub open spec fn spec_value(self) -> i32 {
        match self {
            ControlMode::PercentOutput => 0,
            ControlMode::Position => 1,
            ControlMode::Velocity => 2,
            ControlMode::Current => 3,
            ControlMode::Follower => 5,
            ControlMode::MotionProfile => 6,
            ControlMode::MotionMagic => 7,
            ControlMode::MotionProfileArc => 10,
            ControlMode::Disabled => 15,
        }
    }

    /// The mode number that the device interface uses.
    pub fn value(self) -> (r: i32)
        ensures
            r == self.spec_value(),
    {
        match self {
            ControlMode::PercentOutput => 0,
            ControlMode::Position => 1,
            ControlMode::Velocity => 2,
            ControlMode::Current => 3,
            ControlMode::Follower => 5,
            ControlMode::MotionProfile => 6,
            ControlMode::MotionMagic => 7,
            ControlMode::MotionProfileArc => 10,
            ControlMode::Disabled => 15,
        }
    }
}

/// The kind of a supplemental (demand1) output.
#[derive(Debug, Copy, Clone, PartialEq, Eq, Hash, Structural)]
pub enum DemandType {
    Neutral,
    AuxPID,
    ArbitraryFeedForward,
}

impl DemandType {
    /// The demand type number that the device interface uses.
    pub open spec fn spec_value(self) -> i32 {
        match self {
            DemandType::Neutral => 0,
            DemandType::AuxPID => 1,
            DemandType::ArbitraryFeedForward => 2,
        }
    }

    /// The demand type number that the device interface uses.
    pub fn value(self) -> (r: i32)
        ensures
            r == self.spec_value(),
    {
        match self {
            DemandType::Neutral => 0,
            DemandType::AuxPID => 1,
            DemandType::ArbitraryFeedForward => 2,
        }
    }
}

/// How a follower follows its master.
#[derive(Debug, Copy, Clone, PartialEq, Eq, Hash, Structural)]
pub enum FollowerType {
    /// Standard follower mode.
    PercentOutput,
    /// Follow the master's auxiliary output 1 (the processed output of the
    /// combined primary/aux PID loops).
    AuxOutput1,
}

/// Demand 1: the supplemental output value.
///
/// The payload is an `f64`, held by its IEEE-754 bit pattern (`f64::to_bits`);
/// this library passes it on and never computes with it.
#[derive(Debug, Copy, Clone, PartialEq, Eq, Hash, Structural)]
pub enum Demand {
    /// Apply no change to the demand0 output.
    Neutral,
    /// When closed-looping, set the target of the auxiliary PID loop.
    ///
    /// When following, follow the processed output of the combined
    /// primary/aux PID output.  The demand value is ignored.
    AuxPID(u64),
    /// Simply add to the demand0 output.
    ///
    /// In PercentOutput the demand0 output is the motor output,
    /// and in closed-loop modes the demand0 output is the output of PID0.
    ArbitraryFeedForward(u64),
}

impl Default for Demand {
    /// Returns `Demand::Neutral`.
    fn default() -> (r: Self)
        ensures
            r == Demand::Neutral,
    {
        Demand::Neutral
    }
}

impl Demand {
    /// The type of this demand1.
    pub open spec fn spec_type(self) -> DemandType {
        match self {
            Demand::Neutral => DemandType::Neutral,
            Demand::AuxPID(_) => DemandType::AuxPID,
            Demand::ArbitraryFeedForward(_) => DemandType::ArbitraryFeedForward,
        }
    }

    /// The raw value of this demand1 (the bits of `0.0` for `Neutral`).
    pub open spec fn spec_value(self) -> u64 {
        match self {
            Demand::Neutral => 0,
            Demand::AuxPID(v) => v,
            Demand::ArbitraryFeedForward(v) => v,
        }
    }

    /// Get the type of this demand1.
    pub fn type_(&self) -> (r: DemandType)
        ensures
            r == self.spec_type(),
    {
        match self {
            Demand::Neutral => DemandType::Neutral,
            Demand::AuxPID(_) => DemandType::AuxPID,
            Demand::ArbitraryFeedForward(_) => DemandType::ArbitraryFeedForward,
        }
    }

    /// Get the raw value of this demand1, as the bits of an `f64`.
    pub fn value(self) -> (r: u64)
        ensures
            r == self.spec_value(),
    {
        match self {
            Demand::Neutral => 0,
            Demand::AuxPID(value) => value,
            Demand::ArbitraryFeedForward(value) => value,
        }
    }
}

/// A demand0 value as handed to `set`.
#[derive(Debug, Copy, Clone, PartialEq, Eq, Hash, Structural)]
pub enum Demand0 {
    /// An `f64` given by its bits. `device_number` is `Some(n)` exactly when
    /// `0.0 <= value && value <= 62.0`, with `n` the value truncated toward
    /// zero (`value as u32`): the reading of the value as a device number in
    /// follower mode.
    Float { bits: u64, device_number: Option<u32> },
    /// An `f64` that equals this whole number.
    Whole(i32),
}

/// A demand value as handed to the device: an `f64` given by its bits, or an
/// `f64` that equals a whole number.
#[derive(Debug, Copy, Clone, PartialEq, Eq, Hash, Structural)]
pub enum OutputValue {
    Bits(u64),
    Whole(i64),
}

/// The device call that a `set` comes down to.
#[derive(Debug, Copy, Clone, PartialEq, Eq, Hash, Structural)]
pub enum SetCall {
    /// `c_MotController_Set_4(handle, mode, demand0, demand1, demand1_type)`.
    Set4 { mode: i32, demand0: OutputValue, demand1: u64, demand1_type: i32 },
    /// `c_MotController_SetDemand(handle, mode, milliamps, 0)`, where
    /// `milliamps` is `(1000.0 * amps) as i32`.
    SetCurrent { mode: i32, amps: OutputValue },
    /// `c_MotController_SetDemand(handle, mode, 0, 0)`.
    SetDisabled { mode: i32 },
}

/// Whether a demand0 value names a device to follow, and which: a whole
/// number in `[0, 62]`, or a float whose caller found it in that range.
pub open spec fn follower_device(demand0: Demand0) -> Option<u32> {
    match demand0 {
        Demand0::Float { device_number, .. } => device_number,
        Demand0::Whole(n) => if 0 <= n <= 62 { Some(n as u32) } else { None },
    }
}

/// The demand0 value unchanged, as it is handed to the device.
pub open spec fn plain_output(demand0: Demand0) -> OutputValue {
    match demand0 {
        Demand0::Float { bits, .. } => OutputValue::Bits(bits),
        Demand0::Whole(n) => OutputValue::Whole(n as i64),
    }
}

/// The 24-bit follower target that names device `device_number` of the same
/// kind as the device with arbitration ID `base_id`: the device kind (bits
/// 16 and up of the ID) moved down to bits 8 and up, with the device number
/// in the low byte.
pub open spec fn packed_follower_id(base_id: i32, device_number: u32) -> u32 {
    (((base_id as u32) >> 16u32) << 8u32) | device_number
}

/// The call that `set(mode, demand0, demand1)` makes on a device whose
/// arbitration ID is `base_id`.
pub open spec fn spec_set_call(base_id: i32, mode: ControlMode, demand0: Demand0, demand1: Demand) -> SetCall {
    let d0 = if mode == ControlMode::Follower && follower_device(demand0).is_some() {
        OutputValue::Whole(packed_follower_id(base_id, follower_device(demand0).unwrap()) as i64)
    } else {
        plain_output(demand0)
    };
    match mode {
        ControlMode::Current => SetCall::SetCurrent { mode: mode.spec_value(), amps: d0 },
        ControlMode::Disabled => SetCall::SetDisabled { mode: mode.spec_value() },
        _ => SetCall::Set4 {
            mode: mode.spec_value(),
            demand0: d0,
            demand1: demand1.spec_value(),
            demand1_type: demand1.spec_type().spec_value(),
        },
    }
}

/// The requirement on a demand0 value handed to `set`: a device number read
/// from a float is at most 62.
pub open spec fn demand0_wf(demand0: Demand0) -> bool {
    demand0 matches Demand0::Float { device_number: Some(n), .. } ==> n <= 62
}

/// The device call for `set(mode, demand0, demand1)` on a device whose
/// arbitration ID is `base_id`: in follower mode a demand0 in `[0, 62]` is a
/// device number, which is packed with the device kind of `base_id`; current
/// is sent as a separate demand; `Disabled` sends no demand.
pub fn set_call(base_id: i32, mode: ControlMode, demand0: Demand0, demand1: Demand) -> (r: SetCall)
    requires
        demand0_wf(demand0),
    ensures
        r == spec_set_call(base_id, mode, demand0, demand1),
{
    let device = match demand0 {
        Demand0::Float { device_number, .. } => device_number,
        Demand0::Whole(n) => if 0 <= n && n <= 62 { Some(n as u32) } else { None },
    };
    let d0 = match (mode, device) {
        (ControlMode::Follower, Some(n)) => {
            let packed: u32 = (((base_id as u32) >> 16u32) << 8u32) | n;
            OutputValue::Whole(packed as i64)
        },
        _ => match demand0 {
            Demand0::Float { bits, .. } => OutputValue::Bits(bits),
            Demand0::Whole(n) => OutputValue::Whole(n as i64),
        },
    };
    match mode {
        ControlMode::Current => SetCall::SetCurrent { mode: mode.value(), amps: d0 },
        ControlMode::Disabled => SetCall::SetDisabled { mode: mode.value() },
        _ => SetCall::Set4 {
            mode: mode.value(),
            demand0: d0,
            demand1: demand1.value(),
            demand1_type: demand1.type_().value(),
        },
    }
}

/// Distinct modes, demand types, loops, slots, filters and custom parameters
/// have distinct numbers.
pub proof fn lemma_values_distinct()
    ensures
        forall|a: ControlMode, b: ControlMode| a.spec_value() == b.spec_value() ==> a == b,
        forall|a: DemandType, b: DemandType| a.spec_value() == b.spec_value() ==> a == b,
        forall|a: PIDLoop, b: PIDLoop| a.spec_value() == b.spec_value() ==> a == b,
        forall|a: PIDSlot, b: PIDSlot| a.spec_value() == b.spec_value() ==> a == b,
        forall|a: RemoteFilter, b: RemoteFilter| a.spec_value() == b.spec_value() ==> a == b,
        forall|a: CustomParam, b: CustomParam| a.spec_value() == b.spec_value() ==> a == b,
{
}

/// A demand1 is determined by its type and its raw value, and a neutral
/// demand has the raw value of `0.0`.
pub proof fn lemma_demand_type_and_value(a: Demand, b: Demand)
    ensures
        Demand::Neutral.spec_value() == 0,
        (a.spec_type() == b.spec_type() && a.spec_value() == b.spec_value()) ==> a == b,
{
}

/// Outside follower mode, `set` hands demand0 on unchanged; `Disabled` sends
/// no demand at all, and current mode sends only demand0.
pub proof fn lemma_set_outside_follower(base_id: i32, mode: ControlMode, demand0: Demand0, demand1: Demand)
    requires
        mode != ControlMode::Follower,
    ensures
        mode == ControlMode::Disabled ==> spec_set_call(base_id, mode, demand0, demand1) == (SetCall::SetDisabled { mode: 15 }),
        mode == ControlMode::Current ==> spec_set_call(base_id, mode, demand0, demand1)
            == (SetCall::SetCurrent { mode: 3, amps: plain_output(demand0) }),
        (mode != ControlMode::Disabled && mode != ControlMode::Current) ==> spec_set_call(base_id, mode, demand0, demand1)
            == (SetCall::Set4 {
                mode: mode.spec_value(),
                demand0: plain_output(demand0),
                demand1: demand1.spec_value(),
                demand1_type: demand1.spec_type().spec_value(),
            }),
{
}

/// In follower mode, a demand0 that names no device number is handed on
/// unchanged, and a device number `n` becomes the packed ID whose low byte is
/// `n` and whose upper bits are the device kind of the follower.
pub proof fn lemma_set_follower(base_id: i32, demand0: Demand0, demand1: Demand)
    requires
        demand0_wf(demand0),
    ensures
        follower_device(demand0) is None ==> spec_set_call(base_id, ControlMode::Follower, demand0, demand1)
            == (SetCall::Set4 {
                mode: 5,
                demand0: plain_output(demand0),
                demand1: demand1.spec_value(),
                demand1_type: demand1.spec_type().spec_value(),
            }),
        follower_device(demand0) matches Some(n) ==> (
            packed_follower_id(base_id, n) & 0xFFu32 == n
            && packed_follower_id(base_id, n) >> 8u32 == ((base_id as u32) >> 16u32) & 0xFF_FFFFu32
        ),
{
    if let Some(n) = follower_device(demand0) {
        assert(n <= 62);
        let b = base_id as u32;
        assert(n <= 62u32 ==> ((((b >> 16u32) << 8u32) | n) & 0xFFu32) == n) by (bit_vector);
        assert(n <= 62u32 ==> ((((b >> 16u32) << 8u32) | n) >> 8u32) == (b >> 16u32) & 0xFF_FFFFu32) by (bit_vector);
    }
}

/// In follower mode, a demand0 that names device number `n`, whether it was
/// given as a whole number or as a float, is sent as the ID of device `n` of
/// the follower's own kind: the kind (bits 16 and up of the follower's
/// arbitration ID) in bits 8 and up and `n` in the low byte, with demand1
/// sent as given. A float read as `n` gives the same call as the whole
/// number `n`.
pub proof fn lemma_set_follower_device(base_id: i32, demand0: Demand0, n: u32, demand1: Demand)
    requires
        follower_device(demand0) == Some(n),
    ensures
        spec_set_call(base_id, ControlMode::Follower, demand0, demand1) == (SetCall::Set4 {
            mode: 5,
            demand0: OutputValue::Whole(((((base_id as u32) >> 16u32) << 8u32) | n) as i64),
            demand1: demand1.spec_value(),
            demand1_type: demand1.spec_type().spec_value(),
        }),
        n <= 62 ==> spec_set_call(base_id, ControlMode::Follower, demand0, demand1)
            == spec_set_call(base_id, ControlMode::Follower, Demand0::Whole(n as i32), demand1),
{
    if n <= 62 {
        assert(follower_device(Demand0::Whole(n as i32)) == Some(n));
    }
}

/// A demand0 that is not read as a device number is sent unchanged: a float
/// as its bits, a whole number as that number.
pub proof fn lemma_plain_output(bits: u64, device_number: Option<u32>, n: i32)
    ensures
        plain_output(Demand0::Float { bits, device_number }) == OutputValue::Bits(bits),
        plain_output(Demand0::Whole(n)) == OutputValue::Whole(n as i64),
{
}

} // verus!
