use ctre::motion::{MotionProfileStatus, SetValueMotionProfile};

#[test]
fn set_value_from_raw() {
    assert_eq!(SetValueMotionProfile::from(0), SetValueMotionProfile::Disable);
    assert_eq!(SetValueMotionProfile::from(1), SetValueMotionProfile::Enable);
    assert_eq!(SetValueMotionProfile::from(2), SetValueMotionProfile::Hold);
    assert_eq!(SetValueMotionProfile::from(3), SetValueMotionProfile::Invalid);
    assert_eq!(SetValueMotionProfile::from(-1), SetValueMotionProfile::Invalid);
    assert_eq!(SetValueMotionProfile::Hold.value(), 2);
    assert_eq!(SetValueMotionProfile::Invalid.value(), -1);
}

#[test]
fn motion_profile_status_from_raw() {
    let s = MotionProfileStatus::from_raw(10, 20, 30, true, false, true, false, 1, 2, 15, 3);
    assert_eq!(s.top_buffer_rem, 10);
    assert_eq!(s.top_buffer_cnt, 20);
    assert_eq!(s.btm_buffer_cnt, 30);
    assert!(s.has_underrun);
    assert!(!s.is_underrun);
    assert!(s.active_point_valid);
    assert!(!s.is_last);
    assert_eq!(s.profile_slot_select_0, 1);
    assert_eq!(s.output_enable, SetValueMotionProfile::Hold);
    assert_eq!(s.time_dur_ms, 15);
    assert_eq!(s.profile_slot_select_1, 3);
}
