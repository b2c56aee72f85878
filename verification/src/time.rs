//! Calendar fields of an observation and their cyclic encoding.

use vstd::prelude::*;
use chrono::{Datelike, Timelike};
use crate::scalar::{
    in_unit_interval, is_in_unit_interval, is_zero_pattern, total, yields, Operation, ONE,
};

verus! {

/// Hours in a day: the period of the hour encoding.
pub const HOUR_PERIOD: u32 = 24;

/// Period of the day encoding. The day of the month is set against the
/// length of a year, so the day encoding sweeps only a small arc.
pub const DAY_PERIOD: u32 = 365;

/// Months in a year: the period of the month encoding.
pub const MONTH_PERIOD: u32 = 12;

/// The calendar fields that a timestamp stands for.
pub struct Calendar {
    pub hour: nat,
    pub day: nat,
    pub month: nat,
}

impl Calendar {
    /// The fields lie in the ranges of a civil date and time.
    pub open spec fn valid(self) -> bool {
        self.hour < 24 && 1 <= self.day <= 31 && 1 <= self.month <= 12
    }
}

/// The three numbers are an hour, a day of the month and a month.
pub open spec fn valid_fields(hour: u32, day: u32, month: u32) -> bool {
    (Calendar { hour: hour as nat, day: day as nat, month: month as nat }).valid()
}

/// The UTC hour, day of month and month of an observation.
#[derive(Clone, Copy, Debug, PartialEq, Eq)]
pub struct Timestamp {
    hour: u32,
    day: u32,
    month: u32,
}

impl View for Timestamp {
    type V = Calendar;

    closed spec fn view(&self) -> Calendar {
        Calendar { hour: self.hour as nat, day: self.day as nat, month: self.month as nat }
    }
}

/// What chrono reports for the instant `seconds` after the Unix epoch: the
/// UTC hour, day of month and month, or `None` where the instant lies
/// outside the dates that chrono can represent.
pub uninterp spec fn utc_fields(seconds: i64) -> Option<(u32, u32, u32)>;

/// Calls `chrono::DateTime::from_timestamp` with no sub-second part and reads
/// `hour`, `day` and `month` off the result. The result is a function of
/// `seconds` alone; chrono documents the hour as 0 to 23, the day as 1 to the
/// last day of the month and the month as 1 to 12.
#[verifier::external_body]
fn utc_calendar(seconds: i64) -> (fields: Option<(u32, u32, u32)>)
    ensures
        fields == utc_fields(seconds),
        fields matches Some((hour, day, month)) ==> valid_fields(hour, day, month),
{
    match chrono::DateTime::from_timestamp(seconds, 0) {
        Some(instant) => Some((instant.hour(), instant.day(), instant.month())),
        None => None,
    }
}

impl Timestamp {
    /// A timestamp always holds fields in range.
    #[verifier::type_invariant]
    pub closed spec fn well_formed(&self) -> bool {
        self@.valid()
    }

    /// Builds a timestamp from its fields, if they are in range.
    pub fn new(hour: u32, day: u32, month: u32) -> (made: Option<Timestamp>)
        ensures
            made is Some <==> valid_fields(hour, day, month),
            made matches Some(ts) ==> ts@.valid() && ts@ == (Calendar {
                hour: hour as nat,
                day: day as nat,
                month: month as nat,
            }),
    {
        if hour < 24 && 1 <= day && day <= 31 && 1 <= month && month <= 12 {
            Some(Timestamp { hour, day, month })
        } else {
            None
        }
    }

    /// The timestamp of the instant `seconds` after the Unix epoch, in UTC.
    pub fn from_unix_seconds(seconds: i64) -> (made: Option<Timestamp>)
        ensures
            made is Some <==> utc_fields(seconds) is Some,
            made matches Some(ts) ==> ts@.valid() && utc_fields(seconds) == Some(
                (ts@.hour as u32, ts@.day as u32, ts@.month as u32),
            ),
    {
        match utc_calendar(seconds) {
            Some((hour, day, month)) => Timestamp::new(hour, day, month),
            None => None,
        }
    }

    /// The hour of the day, 0 to 23.
    pub fn hour(&self) -> (hour: u32)
        ensures
            hour == self@.hour,
            self@.valid(),
    {
        proof {
            use_type_invariant(self);
        }
        self.hour
    }

    /// The day of the month, 1 to 31.
    pub fn day(&self) -> (day: u32)
        ensures
            day == self@.day,
            self@.valid(),
    {
        proof {
            use_type_invariant(self);
        }
        self.day
    }

    /// The month of the year, 1 to 12.
    pub fn month(&self) -> (month: u32)
        ensures
            month == self@.month,
            self@.valid(),
    {
        proof {
            use_type_invariant(self);
        }
        self.month
    }
}

/// The six cyclic values of one timestamp, as binary32 bit patterns.
#[derive(Debug, Clone, Copy)]
pub struct TimeEncoding {
    pub hour_sin: u32,
    pub hour_cos: u32,
    pub day_sin: u32,
    pub day_cos: u32,
    pub month_sin: u32,
    pub month_cos: u32,
}

impl View for TimeEncoding {
    type V = Seq<u32>;

    open spec fn view(&self) -> Seq<u32> {
        seq![
            self.hour_sin,
            self.hour_cos,
            self.day_sin,
            self.day_cos,
            self.month_sin,
            self.month_cos,
        ]
    }
}

/// The operation whose result stands at `position` of the time encoding of
/// `moment`: sine then cosine of the hour over a day, of the day of the month
/// over 365, and of the months elapsed in the year over twelve.
pub open spec fn time_operation(moment: Calendar, position: int) -> Operation {
    if position == 0 {
        Operation::Sine { numerator: moment.hour as u32, period: HOUR_PERIOD }
    } else if position == 1 {
        Operation::Cosine { numerator: moment.hour as u32, period: HOUR_PERIOD }
    } else if position == 2 {
        Operation::Sine { numerator: moment.day as u32, period: DAY_PERIOD }
    } else if position == 3 {
        Operation::Cosine { numerator: moment.day as u32, period: DAY_PERIOD }
    } else if position == 4 {
        Operation::Sine { numerator: (moment.month - 1) as u32, period: MONTH_PERIOD }
    } else {
        Operation::Cosine { numerator: (moment.month - 1) as u32, period: MONTH_PERIOD }
    }
}

/// Every operation of a time encoding is a sine or a cosine of less than one
/// full turn: its numerator lies below its period. The first two positions
/// turn with the hour, the next two with the day and the last two with the
/// month.
pub proof fn time_operation_within_one_turn(moment: Calendar, position: int)
    requires
        moment.valid(),
        0 <= position < 6,
    ensures
        match time_operation(moment, position) {
            Operation::Sine { numerator, period } => position % 2 == 0 && numerator < period,
            Operation::Cosine { numerator, period } => position % 2 == 1 && numerator < period,
            _ => false,
        },
{
}

/// The cycles start at midnight and in January: at hour 0 the hour encoding
/// is the sine and the cosine of zero, and so is the month encoding in
/// month 1.
pub proof fn cycles_start_at_zero(moment: Calendar)
    requires
        moment.valid(),
    ensures
        moment.hour == 0 ==> time_operation(moment, 0) == (Operation::Sine {
            numerator: 0,
            period: 24,
        }) && time_operation(moment, 1) == (Operation::Cosine { numerator: 0, period: 24 }),
        moment.month == 1 ==> time_operation(moment, 4) == (Operation::Sine {
            numerator: 0,
            period: 12,
        }) && time_operation(moment, 5) == (Operation::Cosine { numerator: 0, period: 12 }),
{
}

/// `values` holds, position by position, results that the evaluator gives
/// for the six operations of `moment`.
pub open spec fn encodes<E: Fn(Operation) -> u32>(
    eval: &E,
    moment: Calendar,
    values: Seq<u32>,
) -> bool {
    &&& values.len() == 6
    &&& forall|k: int| 0 <= k < 6 ==> yields(eval, time_operation(moment, k), #[trigger] values[k])
}

/// The values of a time encoding are as good as the evaluator's sines and
/// cosines: a property that holds of every result that the evaluator gives
/// for a sine or a cosine of less than one full turn holds of all six values.
pub proof fn time_encoding_inherits<E: Fn(Operation) -> u32>(
    eval: &E,
    moment: Calendar,
    values: Seq<u32>,
    property: spec_fn(u32) -> bool,
)
    requires
        moment.valid(),
        encodes(eval, moment, values),
        forall|numerator: u32, period: u32, result: u32|
            numerator < period && #[trigger] yields(
                eval,
                Operation::Sine { numerator, period },
                result,
            ) ==> property(result),
        forall|numerator: u32, period: u32, result: u32|
            numerator < period && #[trigger] yields(
                eval,
                Operation::Cosine { numerator, period },
                result,
            ) ==> property(result),
    ensures
        forall|k: int| 0 <= k < 6 ==> property(#[trigger] values[k]),
{
    assert forall|k: int| 0 <= k < 6 implies property(#[trigger] values[k]) by {
        time_operation_within_one_turn(moment, k);
    }
}

/// Every value of a time encoding lies between minus one and one, and none
/// is a NaN, if that holds of every sine and cosine that the evaluator gives
/// for less than one full turn.
pub proof fn time_encoding_in_unit_interval<E: Fn(Operation) -> u32>(
    eval: &E,
    moment: Calendar,
    values: Seq<u32>,
)
    requires
        moment.valid(),
        encodes(eval, moment, values),
        forall|numerator: u32, period: u32, result: u32|
            numerator < period && #[trigger] yields(
                eval,
                Operation::Sine { numerator, period },
                result,
            ) ==> in_unit_interval(result),
        forall|numerator: u32, period: u32, result: u32|
            numerator < period && #[trigger] yields(
                eval,
                Operation::Cosine { numerator, period },
                result,
            ) ==> in_unit_interval(result),
    ensures
        forall|k: int| 0 <= k < 6 ==> in_unit_interval(#[trigger] values[k]),
{
    time_encoding_inherits(eval, moment, values, |bits: u32| in_unit_interval(bits));
}

/// At hour 0 the hour sine is zero and the hour cosine is one, and so are
/// the month sine and cosine in month 1, if the evaluator gives zero for the
/// sine and one for the cosine of the angle zero.
pub proof fn time_encoding_at_the_origin<E: Fn(Operation) -> u32>(
    eval: &E,
    moment: Calendar,
    values: Seq<u32>,
)
    requires
        moment.valid(),
        encodes(eval, moment, values),
        forall|period: u32, result: u32| #[trigger]
            yields(eval, Operation::Sine { numerator: 0, period }, result) ==> is_zero_pattern(
                result,
            ),
        forall|period: u32, result: u32| #[trigger]
            yields(eval, Operation::Cosine { numerator: 0, period }, result) ==> result == ONE,
    ensures
        moment.hour == 0 ==> is_zero_pattern(values[0]) && values[1] == ONE,
        moment.month == 1 ==> is_zero_pattern(values[4]) && values[5] == ONE,
{
    cycles_start_at_zero(moment);
    assert(yields(eval, time_operation(moment, 0), values[0]));
    assert(yields(eval, time_operation(moment, 1), values[1]));
    assert(yields(eval, time_operation(moment, 4), values[4]));
    assert(yields(eval, time_operation(moment, 5), values[5]));
}

impl TimeEncoding {
    /// Tells whether all six values lie between minus one and one.
    pub fn within_unit_interval(&self) -> (inside: bool)
        ensures
            inside == (forall|k: int| 0 <= k < 6 ==> in_unit_interval(#[trigger] self@[k])),
    {
        let inside = is_in_unit_interval(self.hour_sin) && is_in_unit_interval(self.hour_cos)
            && is_in_unit_interval(self.day_sin) && is_in_unit_interval(self.day_cos)
            && is_in_unit_interval(self.month_sin) && is_in_unit_interval(self.month_cos);
        proof {
            if inside {
                assert forall|k: int| 0 <= k < 6 implies in_unit_interval(#[trigger] self@[k]) by {}
            } else {
                assert(self@[0] == self.hour_sin && self@[1] == self.hour_cos);
                assert(self@[2] == self.day_sin && self@[3] == self.day_cos);
                assert(self@[4] == self.month_sin && self@[5] == self.month_cos);
            }
        }
        inside
    }

    /// Encodes the hour, the day of the month and the month of `dt` as
    /// points on a circle, asking the evaluator for each sine and cosine.
    pub fn from_datetime<E: Fn(Operation) -> u32>(dt: &Timestamp, eval: &E) -> (enc: TimeEncoding)
        requires
            total(eval),
        ensures
            dt@.valid(),
            encodes(eval, dt@, enc@),
    {
        let hour = dt.hour();
        let day = dt.day();
        let elapsed: u32 = dt.month() - 1;
        TimeEncoding {
            hour_sin: eval(Operation::Sine { numerator: hour, period: HOUR_PERIOD }),
            hour_cos: eval(Operation::Cosine { numerator: hour, period: HOUR_PERIOD }),
            day_sin: eval(Operation::Sine { numerator: day, period: DAY_PERIOD }),
            day_cos: eval(Operation::Cosine { numerator: day, period: DAY_PERIOD }),
            month_sin: eval(Operation::Sine { numerator: elapsed, period: MONTH_PERIOD }),
            month_cos: eval(Operation::Cosine { numerator: elapsed, period: MONTH_PERIOD }),
        }
    }

    /// The six values in their fixed order.
    pub fn to_array(&self) -> (values: [u32; 6])
        ensures
            values@ == self@,
    {
        let values = [
            self.hour_sin,
            self.hour_cos,
            self.day_sin,
            self.day_cos,
            self.month_sin,
            self.month_cos,
        ];
        values
    }
}

} // verus!
