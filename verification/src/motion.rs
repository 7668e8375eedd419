//! Motion profile status.
use vstd::prelude::*;

verus! {

/// The output state of the motion profile executor.
#[derive(Debug, Copy, Clone, PartialEq, Eq, Hash, Structural)]
pub enum SetValueMotionProfile {
    /// A value that the device interface does not define.
    Invalid,
    /// The executor outputs nothing.
    Disable,
    /// The executor runs the profile.
    Enable,
    /// The executor holds the last point.
    Hold,
}

impl SetValueMotionProfile {
    /// The state that the device interface reports as `value`.
    pub open spec fn spec_from_raw(value: i32) -> SetValueMotionProfile {
        if value == 0 {
            SetValueMotionProfile::Disable
        } else if value == 1 {
            SetValueMotionProfile::Enable
        } else if value == 2 {
            SetValueMotionProfile::Hold
        } else {
            SetValueMotionProfile::Invalid
        }
    }

    /// The number that the device interface uses for this state.
    pub open spec fn spec_value(self) -> i32 {
        match self {
            SetValueMotionProfile::Invalid => -1i32,
            SetValueMotionProfile::Disable => 0,
            SetValueMotionProfile::Enable => 1,
            SetValueMotionProfile::Hold => 2,
        }
    }

    /// The number that the device interface uses for this state.
    pub fn value(self) -> (r: i32)
        ensures
            r == self.spec_value(),
    {
        match self {
            SetValueMotionProfile::Invalid => -1,
            SetValueMotionProfile::Disable => 0,
            SetValueMotionProfile::Enable => 1,
            SetValueMotionProfile::Hold => 2,
        }
    }
}

impl From<i32> for SetValueMotionProfile {
    /// The state that the device interface reports as `value`; any number it
    /// does not define is `Invalid`.
    fn from(value: i32) -> (r: SetValueMotionProfile) {
        if value == 0 {
            SetValueMotionProfile::Disable
        } else if value == 1 {
            SetValueMotionProfile::Enable
        } else if value == 2 {
            SetValueMotionProfile::Hold
        } else {
            SetValueMotionProfile::Invalid
        }
    }
}

impl vstd::std_specs::convert::FromSpecImpl<i32> for SetValueMotionProfile {
    open spec fn obeys_from_spec() -> bool {
        true
    }

    open spec fn from_spec(v: i32) -> SetValueMotionProfile {
        SetValueMotionProfile::spec_from_raw(v)
    }
}

/// Reading a state back from its number gives the state, and every number
/// reads back to a state whose number it is, or to `Invalid`.
pub proof fn lemma_set_value_round_trip(s: SetValueMotionProfile, v: i32)
    ensures
        SetValueMotionProfile::spec_from_raw(s.spec_value()) == s,
        SetValueMotionProfile::spec_from_raw(v) == SetValueMotionProfile::Invalid
            || SetValueMotionProfile::spec_from_raw(v).spec_value() == v,
{
}

/// All status information about the motion profile executor.
#[derive(Debug, Copy, Clone, PartialEq, Eq, Hash, Structural)]
pub struct MotionProfileStatus {
    /// The available empty slots in the trajectory buffer.
    pub top_buffer_rem: i32,
    /// The number of trajectory points in the top buffer.
    pub top_buffer_cnt: i32,
    /// The number of points in the low level controller buffer.
    pub btm_buffer_cnt: i32,
    /// Set if `is_underrun` ever gets set; cleared on request.
    pub has_underrun: bool,
    /// The executor needs more points and has none.
    pub is_underrun: bool,
    /// The active trajectory point is valid.
    pub active_point_valid: bool,
    /// The active point is the last one of the profile.
    pub is_last: bool,
    /// The slot of the primary loop for the active point.
    pub profile_slot_select_0: i32,
    /// The slot of the auxiliary loop for the active point.
    pub profile_slot_select_1: i32,
    /// The output state of the executor.
    pub output_enable: SetValueMotionProfile,
    /// The duration of the active point, in milliseconds.
    pub time_dur_ms: i32,
}

impl MotionProfileStatus {
    /// The status made of the values that the device reported, the output
    /// state given by its number.
    pub fn from_raw(
        top_buffer_rem: i32,
        top_buffer_cnt: i32,
        btm_buffer_cnt: i32,
        has_underrun: bool,
        is_underrun: bool,
        active_point_valid: bool,
        is_last: bool,
        profile_slot_select_0: i32,
        output_enable: i32,
        time_dur_ms: i32,
        profile_slot_select_1: i32,
    ) -> (r: MotionProfileStatus)
        ensures
            r == (MotionProfileStatus {
                top_buffer_rem,
                top_buffer_cnt,
                btm_buffer_cnt,
                has_underrun,
                is_underrun,
                active_point_valid,
                is_last,
                profile_slot_select_0,
                profile_slot_select_1,
                output_enable: SetValueMotionProfile::spec_from_raw(output_enable),
                time_dur_ms,
            }),
    {
        MotionProfileStatus {
            top_buffer_rem,
            top_buffer_cnt,
            btm_buffer_cnt,
            has_underrun,
            is_underrun,
            active_point_valid,
            is_last,
            profile_slot_select_0,
            profile_slot_select_1,
            output_enable: SetValueMotionProfile::from(output_enable),
            time_dur_ms,
        }
    }
}

} // verus!
