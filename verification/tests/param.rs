use ctre::error::ErrorCode;
use ctre::param::{ParamEnum, ParamRead, ParamValue, ReadSequence};

fn value(n: i32) -> ParamValue {
    ParamValue { bits: (n as f64).to_bits(), truncated: n, whole: Some(n as i64) }
}

fn plan() -> Vec<ParamRead> {
    vec![
        ParamRead { param: ParamEnum(310), ordinal: 0 },
        ParamRead { param: ParamEnum(311), ordinal: 0 },
        ParamRead { param: ParamEnum(312), ordinal: 0 },
    ]
}

#[test]
fn read_sequence_all_succeed() {
    let mut seq = ReadSequence::new(plan());
    let mut asked = Vec::new();
    let mut n = 0i32;
    while let Some(read) = seq.next() {
        asked.push(read);
        n += 1;
        seq.record(Ok(value(n)));
    }
    assert_eq!(asked, plan());
    assert_eq!(seq.finish(), Ok(vec![value(1), value(2), value(3)]));
}

#[test]
fn read_sequence_stops_at_first_error() {
    let mut seq = ReadSequence::new(plan());
    let mut asked = Vec::new();
    while let Some(read) = seq.next() {
        asked.push(read);
        if asked.len() == 2 {
            seq.record(Err(ErrorCode::from_raw(-4)));
        } else {
            seq.record(Ok(value(0)));
        }
    }
    assert_eq!(asked.len(), 2);
    assert_eq!(seq.finish(), Err(ErrorCode::from_raw(-4)));
}

#[test]
fn param_numbers() {
    assert_eq!(ParamEnum::PIDLoopPolarity(), ParamEnum(337));
    assert_eq!(ParamEnum::ProfileParamSlot_PeakOutput(), ParamEnum(317));
    assert_eq!(ParamEnum::SelectedSensorCoefficient(), ParamEnum(339));
}
