//! From a window of observations to the input tensor.

use vstd::prelude::*;
use crate::error::PreprocessError;
use crate::normalize::{normalized, scale};
use crate::record::{assembled, WeatherRecord, CODE_POSITION, NUM_FEATURES};
use crate::scalar::{deterministic, total, yields, Operation};
use crate::time::time_operation;
use crate::statistics::{Statistics, StatisticsView, NORMALIZED_FEATURES};
use crate::tensor::{zeros, InputTensor};

verus! {

/// Number of hourly observations in a window: one day. Request validation
/// and tensor construction both go by this one constant.
pub const SEQ_LEN: usize = 24;

/// `row` is the tensor row of `record`: a feature vector of the record,
/// scaled with `stats`.
pub open spec fn row_of<E: Fn(Operation) -> u32>(
    eval: &E,
    record: WeatherRecord,
    stats: StatisticsView,
    row: Seq<u32>,
) -> bool {
    exists|features: Seq<u32>| #[trigger]
        assembled(eval, record, features) && normalized(eval, features, stats, row)
}

/// Why a window of `length` observations cannot be turned into a tensor
/// with `stats`, if it cannot. The length of the window is looked at first.
pub open spec fn preprocess_fault(length: nat, stats: StatisticsView) -> Option<PreprocessError> {
    if length != SEQ_LEN {
        Some(PreprocessError::InvalidSequenceLength { expected: SEQ_LEN, got: length as usize })
    } else if stats.mean.len() != NORMALIZED_FEATURES {
        Some(
            PreprocessError::InvalidFeatureCount {
                expected: NORMALIZED_FEATURES,
                got: stats.mean.len() as usize,
            },
        )
    } else {
        None
    }
}

/// `tensor` is the input tensor of the window `records`: it has one row per
/// observation and one column per feature, row `t` is the tensor row of
/// `records[t]`, and the last column holds the weather codes as they came.
pub open spec fn holds_window<E: Fn(Operation) -> u32>(
    eval: &E,
    records: Seq<WeatherRecord>,
    stats: StatisticsView,
    tensor: InputTensor,
) -> bool {
    &&& tensor.steps() == SEQ_LEN
    &&& tensor.width() == NUM_FEATURES
    &&& forall|t: int| 0 <= t < SEQ_LEN ==> row_of(eval, records[t], stats, #[trigger] tensor.row(t))
    &&& forall|t: int|
        0 <= t < SEQ_LEN ==> #[trigger] tensor.at(t, CODE_POSITION as int)
            == records[t].weather_code
}

/// With an evaluator that gives one result for each operation, a record and
/// the statistics determine the tensor row bit for bit.
pub proof fn row_is_determined<E: Fn(Operation) -> u32>(
    eval: &E,
    record: WeatherRecord,
    stats: StatisticsView,
    first: Seq<u32>,
    second: Seq<u32>,
)
    requires
        deterministic(eval),
        row_of(eval, record, stats, first),
        row_of(eval, record, stats, second),
    ensures
        first == second,
{
    let a = choose|features: Seq<u32>| #[trigger]
        assembled(eval, record, features) && normalized(eval, features, stats, first);
    let b = choose|features: Seq<u32>| #[trigger]
        assembled(eval, record, features) && normalized(eval, features, stats, second);
    assert forall|i: int| 0 <= i < 17 implies a[i] == b[i] by {
        if 10 <= i < 16 {
            let k = i - 10;
            assert(yields(eval, time_operation(record.timestamp@, k), a.subrange(10, 16)[k]));
            assert(yields(eval, time_operation(record.timestamp@, k), b.subrange(10, 16)[k]));
        }
    }
    assert(a =~= b);
}

/// With an evaluator that gives one result for each operation, a window and
/// the statistics determine every value of the input tensor.
pub proof fn tensor_is_determined<E: Fn(Operation) -> u32>(
    eval: &E,
    records: Seq<WeatherRecord>,
    stats: StatisticsView,
    first: InputTensor,
    second: InputTensor,
)
    requires
        deterministic(eval),
        holds_window(eval, records, stats, first),
        holds_window(eval, records, stats, second),
    ensures
        forall|t: int, f: int|
            0 <= t < SEQ_LEN && 0 <= f < NUM_FEATURES ==> first.at(t, f) == second.at(t, f),
{
    assert forall|t: int, f: int| 0 <= t < SEQ_LEN && 0 <= f < NUM_FEATURES implies first.at(t, f)
        == second.at(t, f) by {
        row_is_determined(eval, records[t], stats, first.row(t), second.row(t));
        assert(first.row(t)[f] == first.at(t, f));
        assert(second.row(t)[f] == second.at(t, f));
    }
}

/// The weather code reaches the tensor untouched: the last value of a
/// record's row is the record's weather code, whatever the statistics hold
/// and whatever the evaluator computes.
pub proof fn weather_code_passes_through<E: Fn(Operation) -> u32>(
    eval: &E,
    record: WeatherRecord,
    stats: StatisticsView,
    row: Seq<u32>,
)
    requires
        row_of(eval, record, stats, row),
    ensures
        row.len() == NUM_FEATURES,
        row[CODE_POSITION as int] == record.weather_code,
{
}

/// Turns a window of observations into the input tensor of the engine.
///
/// The tensor has shape `(1, SEQ_LEN, NUM_FEATURES)`. Its row `t` holds the
/// features of `records[t]`: the first sixteen scaled with `stats`, the
/// weather code in the last place as it came. A window of another length is
/// turned away, and so are statistics that do not cover sixteen features;
/// either way no tensor is made.
pub fn preprocess_sequence<E: Fn(Operation) -> u32>(
    records: &[WeatherRecord],
    stats: &Statistics,
    eval: &E,
) -> (made: Result<InputTensor, PreprocessError>)
    requires
        total(eval),
    ensures
        made is Err <==> records@.len() != SEQ_LEN || !stats@.covers_features(),
        made matches Err(fault) ==> preprocess_fault(records@.len(), stats@) == Some(fault),
        records@.len() != SEQ_LEN ==> (made matches Err(
            PreprocessError::InvalidSequenceLength { expected, got },
        ) && expected == SEQ_LEN && got == records@.len()),
        records@.len() == SEQ_LEN && !stats@.covers_features() ==> (made matches Err(
            PreprocessError::InvalidFeatureCount { expected, got },
        ) && expected == NORMALIZED_FEATURES && got == stats@.mean.len()),
        made matches Ok(tensor) ==> stats@.sound() && holds_window(eval, records@, stats@, tensor),
{
    if records.len() != SEQ_LEN {
        return Err(
            PreprocessError::InvalidSequenceLength { expected: SEQ_LEN, got: records.len() },
        );
    }
    match stats.check_feature_count() {
        Err(fault) => {
            return Err(fault);
        },
        Ok(_) => {},
    }
    let mut tensor = zeros(SEQ_LEN, NUM_FEATURES);
    let mut t: usize = 0;
    while t < SEQ_LEN
        invariant
            total(eval),
            records@.len() == SEQ_LEN,
            stats@.covers_features(),
            t <= SEQ_LEN,
            tensor.steps() == SEQ_LEN,
            tensor.width() == NUM_FEATURES,
            forall|s: int| 0 <= s < t ==> row_of(eval, records@[s], stats@, #[trigger] tensor.row(s)),
            forall|s: int| 0 <= s < t ==> #[trigger] tensor.at(s, 16) == records@[s].weather_code,
        decreases SEQ_LEN - t,
    {
        let features = records[t].all_features(eval);
        let scaled = scale(&features, stats, eval);
        let ghost before = tensor;
        tensor.set_row(t, scaled.as_slice());
        proof {
            assert forall|s: int| 0 <= s < t implies tensor.row(s) == before.row(s) by {
                assert(tensor.row(s) =~= before.row(s));
            }
        }
        t += 1;
    }
    Ok(tensor)
}

} // verus!
