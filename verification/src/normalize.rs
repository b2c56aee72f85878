//! Z-score scaling of feature vectors and its inverse on the forecast.

use vstd::prelude::*;
use crate::error::{ConfigurationError, PreprocessError};
use crate::record::{CODE_POSITION, NUM_FEATURES};
use crate::scalar::{deterministic, is_zero_pattern, total, yields, Operation};
use crate::statistics::{Statistics, StatisticsView, NORMALIZED_FEATURES, TARGET_FEATURE};

verus! {

/// `scaled` is `features` after scaling: each of the first sixteen values is
/// a result of standardising the value of `features` at that position with
/// the mean and standard deviation of the same position, and the last value
/// is the last value of `features`.
pub open spec fn normalized<E: Fn(Operation) -> u32>(
    eval: &E,
    features: Seq<u32>,
    stats: StatisticsView,
    scaled: Seq<u32>,
) -> bool {
    &&& scaled.len() == NUM_FEATURES
    &&& forall|i: int|
        0 <= i < NORMALIZED_FEATURES ==> yields(
            eval,
            Operation::Standardize { value: features[i], mean: stats.mean[i], std: stats.std[i] },
            #[trigger] scaled[i],
        )
    &&& scaled[CODE_POSITION as int] == features[CODE_POSITION as int]
}

/// `restored` is `output` in physical units: value by value a result of
/// undoing the scaling with the statistics of the target feature.
pub open spec fn denormalized<E: Fn(Operation) -> u32>(
    eval: &E,
    output: Seq<u32>,
    stats: StatisticsView,
    restored: Seq<u32>,
) -> bool {
    &&& restored.len() == output.len()
    &&& forall|i: int|
        0 <= i < output.len() ==> yields(
            eval,
            Operation::Restore {
                value: output[i],
                mean: stats.mean[TARGET_FEATURE as int],
                std: stats.std[TARGET_FEATURE as int],
            },
            #[trigger] restored[i],
        )
}

/// Scaling and its inverse go by the same statistics, and never by a
/// standard deviation of zero. So the way from the target feature to its
/// scaled value and back is as good as the evaluator's arithmetic: a relation
/// that holds between `value` and every result of restoring a result of
/// standardising `value`, with one mean and one non-zero standard deviation,
/// holds between the target feature and what comes back for it.
pub proof fn round_trip_inherits<E: Fn(Operation) -> u32>(
    eval: &E,
    features: Seq<u32>,
    stats: StatisticsView,
    scaled: Seq<u32>,
    restored: Seq<u32>,
    close: spec_fn(u32, u32) -> bool,
)
    requires
        stats.sound(),
        stats.covers_features(),
        normalized(eval, features, stats, scaled),
        denormalized(eval, seq![scaled[TARGET_FEATURE as int]], stats, restored),
        forall|value: u32, mean: u32, std: u32, between: u32, back: u32|
            !is_zero_pattern(std) && #[trigger] yields(
                eval,
                Operation::Standardize { value, mean, std },
                between,
            ) && #[trigger] yields(eval, Operation::Restore { value: between, mean, std }, back)
                ==> close(value, back),
    ensures
        restored.len() == 1,
        close(features[TARGET_FEATURE as int], restored[0]),
{
    let target = TARGET_FEATURE as int;
    assert(yields(
        eval,
        Operation::Standardize {
            value: features[target],
            mean: stats.mean[target],
            std: stats.std[target],
        },
        scaled[target],
    ));
    assert(yields(
        eval,
        Operation::Restore {
            value: seq![scaled[target]][0],
            mean: stats.mean[target],
            std: stats.std[target],
        },
        restored[0],
    ));
}

/// With an evaluator that gives one result for each operation, the raw
/// forecast and the statistics determine the restored forecast bit for bit.
pub proof fn forecast_is_determined<E: Fn(Operation) -> u32>(
    eval: &E,
    output: Seq<u32>,
    stats: StatisticsView,
    first: Seq<u32>,
    second: Seq<u32>,
)
    requires
        deterministic(eval),
        denormalized(eval, output, stats, first),
        denormalized(eval, output, stats, second),
    ensures
        first == second,
{
    assert(first =~= second);
}

/// Scales one value: asks the evaluator for `(value − mean) / std`.
pub fn normalize<E: Fn(Operation) -> u32>(value: u32, mean: u32, std: u32, eval: &E) -> (scaled: u32)
    requires
        total(eval),
    ensures
        yields(eval, Operation::Standardize { value, mean, std }, scaled),
{
    eval(Operation::Standardize { value, mean, std })
}

/// Scales a feature vector with statistics that cover the scaled features.
pub(crate) fn scale<E: Fn(Operation) -> u32>(
    features: &[u32; 17],
    stats: &Statistics,
    eval: &E,
) -> (values: [u32; 17])
    requires
        total(eval),
        stats@.covers_features(),
    ensures
        normalized(eval, features@, stats@, values@),
{
    let mean = stats.means();
    let std = stats.stds();
    let mut values = [0u32;17];
    let mut i: usize = 0;
    while i < NORMALIZED_FEATURES
        invariant
            total(eval),
            mean@ == stats@.mean,
            std@ == stats@.std,
            mean@.len() == NORMALIZED_FEATURES,
            std@.len() == NORMALIZED_FEATURES,
            i <= NORMALIZED_FEATURES,
            forall|k: int|
                0 <= k < i ==> yields(
                    eval,
                    Operation::Standardize { value: features@[k], mean: mean@[k], std: std@[k] },
                    #[trigger] values@[k],
                ),
        decreases NORMALIZED_FEATURES - i,
    {
        values[i] = normalize(features[i], mean[i], std[i], eval);
        i += 1;
    }
    values[CODE_POSITION] = features[CODE_POSITION];
    values
}

/// Scales the sixteen continuous features of a vector, each with the
/// statistics of its position, and keeps the weather code as it is.
///
/// Statistics for any other number of features than sixteen are turned
/// away. No standard deviation that is used is zero: statistics cannot be
/// made with one.
pub fn normalize_features<E: Fn(Operation) -> u32>(
    features: &[u32; 17],
    stats: &Statistics,
    eval: &E,
) -> (scaled: Result<[u32; 17], PreprocessError>)
    requires
        total(eval),
    ensures
        stats@.sound(),
        scaled is Ok <==> stats@.covers_features(),
        scaled matches Ok(values) ==> normalized(eval, features@, stats@, values@)
            && values[CODE_POSITION as int] == features[CODE_POSITION as int],
        scaled matches Err(fault) ==> (fault matches PreprocessError::InvalidFeatureCount {
            expected,
            got,
        } && expected == NORMALIZED_FEATURES && got == stats@.mean.len()),
{
    match stats.check_feature_count() {
        Err(fault) => Err(fault),
        Ok(_) => Ok(scale(features, stats, eval)),
    }
}

/// Brings the forecast back to physical units: asks the evaluator for
/// `value · std + mean` of every value, with the mean and the standard
/// deviation of the target feature.
///
/// Fails only where the statistics hold no entry for the target.
pub fn denormalize<E: Fn(Operation) -> u32>(
    output: &Vec<u32>,
    stats: &Statistics,
    eval: &E,
) -> (restored: Result<Vec<u32>, ConfigurationError>)
    requires
        total(eval),
    ensures
        stats@.sound(),
        restored is Ok <==> stats@.mean.len() > 0,
        restored matches Ok(values) ==> denormalized(eval, output@, stats@, values@),
        restored matches Err(fault) ==> fault == ConfigurationError::MissingTarget,
{
    if stats.num_features() == 0 {
        return Err(ConfigurationError::MissingTarget);
    }
    let mean = stats.means()[TARGET_FEATURE];
    let std = stats.stds()[TARGET_FEATURE];
    let mut values: Vec<u32> = Vec::with_capacity(output.len());
    let mut i: usize = 0;
    while i < output.len()
        invariant
            total(eval),
            i <= output@.len(),
            values@.len() == i,
            mean == stats@.mean[TARGET_FEATURE as int],
            std == stats@.std[TARGET_FEATURE as int],
            forall|k: int|
                0 <= k < i ==> yields(
                    eval,
                    Operation::Restore { value: output@[k], mean, std },
                    #[trigger] values@[k],
                ),
        decreases output@.len() - i,
    {
        let value = eval(Operation::Restore { value: output[i], mean, std });
        values.push(value);
        i += 1;
    }
    Ok(values)
}

} // verus!
