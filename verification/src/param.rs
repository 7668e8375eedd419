//! Device parameters, and reading a series of them.
use vstd::prelude::*;

use crate::error::ErrorCode;

verus! {

/// A device parameter, by its CTRE Phoenix parameter number.
#[derive(Debug, Copy, Clone, PartialEq, Eq, Hash, Structural)]
pub struct ParamEnum(pub i32);

#[allow(non_snake_case)]
impl ParamEnum {
    /// Proportional gain of a slot.
    pub fn ProfileParamSlot_P() -> (r: ParamEnum)
        ensures
            r == ParamEnum(310),
    {
        ParamEnum(310)
    }

    /// Integral gain of a slot.
    pub fn ProfileParamSlot_I() -> (r: ParamEnum)
        ensures
            r == ParamEnum(311),
    {
        ParamEnum(311)
    }

    /// Derivative gain of a slot.
    pub fn ProfileParamSlot_D() -> (r: ParamEnum)
        ensures
            r == ParamEnum(312),
    {
        ParamEnum(312)
    }

    /// Feed-forward gain of a slot.
    pub fn ProfileParamSlot_F() -> (r: ParamEnum)
        ensures
            r == ParamEnum(313),
    {
        ParamEnum(313)
    }

    /// Integral zone of a slot.
    pub fn ProfileParamSlot_IZone() -> (r: ParamEnum)
        ensures
            r == ParamEnum(314),
    {
        ParamEnum(314)
    }

    /// Allowable closed-loop error of a slot.
    pub fn ProfileParamSlot_AllowableErr() -> (r: ParamEnum)
        ensures
            r == ParamEnum(315),
    {
        ParamEnum(315)
    }

    /// Maximum integral accumulator of a slot.
    pub fn ProfileParamSlot_MaxIAccum() -> (r: ParamEnum)
        ensures
            r == ParamEnum(316),
    {
        ParamEnum(316)
    }

    /// Closed-loop peak output of a slot.
    pub fn ProfileParamSlot_PeakOutput() -> (r: ParamEnum)
        ensures
            r == ParamEnum(317),
    {
        ParamEnum(317)
    }

    /// Selected feedback sensor type of a PID loop.
    pub fn FeedbackSensorType() -> (r: ParamEnum)
        ensures
            r == ParamEnum(330),
    {
        ParamEnum(330)
    }

    /// Source of a remote sensor.
    pub fn RemoteSensorSource() -> (r: ParamEnum)
        ensures
            r == ParamEnum(333),
    {
        ParamEnum(333)
    }

    /// Device ID of a remote sensor.
    pub fn RemoteSensorDeviceID() -> (r: ParamEnum)
        ensures
            r == ParamEnum(334),
    {
        ParamEnum(334)
    }

    /// Polarity of the auxiliary PID loop.
    pub fn PIDLoopPolarity() -> (r: ParamEnum)
        ensures
            r == ParamEnum(337),
    {
        ParamEnum(337)
    }

    /// Closed-loop period of a slot.
    pub fn PIDLoopPeriod() -> (r: ParamEnum)
        ensures
            r == ParamEnum(338),
    {
        ParamEnum(338)
    }

    /// Feedback coefficient of a PID loop.
    pub fn SelectedSensorCoefficient() -> (r: ParamEnum)
        ensures
            r == ParamEnum(339),
    {
        ParamEnum(339)
    }
}

/// One parameter read: `c_MotController_ConfigGetParameter(handle, param, _, ordinal, timeout)`.
#[derive(Debug, Copy, Clone, PartialEq, Eq, Hash, Structural)]
pub struct ParamRead {
    pub param: ParamEnum,
    pub ordinal: i32,
}

/// A parameter value as the device reports it, an `f64`, in the three forms
/// the library reads it in: its IEEE-754 bits (`f64::to_bits`); the value as
/// `i32` (`value as i32`: truncated toward zero, saturating, `NaN` as 0);
/// and the value truncated toward zero as `i64` when it is finite and fits,
/// otherwise `None` (`num_traits::ToPrimitive::to_i64`).
#[derive(Debug, Copy, Clone, PartialEq, Eq, Hash, Structural)]
pub struct ParamValue {
    pub bits: u64,
    pub truncated: i32,
    pub whole: Option<i64>,
}

/// A series of parameter reads that stops at the first read that fails.
///
/// The caller asks `next` for the read to make, makes it, and hands the
/// outcome to `record`, until `next` returns `None`; `finish` then gives
/// every value read, in order, or the code of the read that failed.
pub struct ReadSequence {
    reads: Vec<ParamRead>,
    values: Vec<ParamValue>,
    error: Option<ErrorCode>,
}

impl ReadSequence {
    /// The planned reads.
    pub closed spec fn reads(&self) -> Seq<ParamRead> {
        self.reads@
    }

    /// The values read so far, in the order of the plan.
    pub closed spec fn values(&self) -> Seq<ParamValue> {
        self.values@
    }

    /// The code of the read that failed, if one did.
    pub closed spec fn error(&self) -> Option<ErrorCode> {
        self.error
    }

    /// Every value read stands at its read's place, and no read follows a
    /// failed one.
    #[verifier::type_invariant]
    spec fn well_formed(&self) -> bool {
        &&& self.values@.len() <= self.reads@.len()
        &&& self.error is Some ==> self.values@.len() < self.reads@.len()
    }

    /// Whether more reads are to be made.
    pub open spec fn spec_pending(&self) -> bool {
        self.error() is None && self.values().len() < self.reads().len()
    }

    /// A sequence that will make `reads`, in order.
    pub fn new(reads: Vec<ParamRead>) -> (r: Self)
        ensures
            r.reads() == reads@,
            r.values() == Seq::<ParamValue>::empty(),
            r.error() is None,
    {
        ReadSequence { reads, values: Vec::new(), error: None }
    }

    /// The next read to make, or `None` when every read was made or one failed.
    pub fn next(&self) -> (r: Option<ParamRead>)
        ensures
            self.spec_pending() ==> r == Some(self.reads()[self.values().len() as int]),
            !self.spec_pending() ==> r is None,
    {
        proof {
            use_type_invariant(self);
        }
        if self.error.is_none() && self.values.len() < self.reads.len() {
            Some(self.reads[self.values.len()])
        } else {
            None
        }
    }

    /// Records the outcome of the read that `next` returned.
    pub fn record(&mut self, result: Result<ParamValue, ErrorCode>)
        requires
            old(self).spec_pending(),
        ensures
            final(self).reads() == old(self).reads(),
            result matches Ok(v) ==> (final(self).values() == old(self).values().push(v) && final(self).error() is None),
            result matches Err(e) ==> (final(self).values() == old(self).values() && final(self).error() == Some(e)),
    {
        proof {
            use_type_invariant(&*self);
        }
        match result {
            Ok(v) => {
                let mut values: Vec<ParamValue> = Vec::new();
                std::mem::swap(&mut values, &mut self.values);
                values.push(v);
                self.values = values;
            },
            Err(e) => self.error = Some(e),
        }
    }

    /// Every value read, in the order of the plan, or the code of the read
    /// that failed.
    pub fn finish(self) -> (r: Result<Vec<ParamValue>, ErrorCode>)
        requires
            !self.spec_pending(),
        ensures
            self.error() matches Some(e) ==> r == Err::<Vec<ParamValue>, ErrorCode>(e),
            self.error() is None ==> (r matches Ok(v) && v@ == self.values() && v@.len() == self.reads().len()),
    {
        proof {
            use_type_invariant(&self);
        }
        match self.error {
            Some(e) => Err(e),
            None => Ok(self.values),
        }
    }
}

} // verus!
