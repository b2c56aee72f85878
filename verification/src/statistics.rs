//! Per-feature normalisation statistics.

use vstd::prelude::*;
use crate::error::{ConfigurationError, PreprocessError};
use crate::scalar::{is_zero, is_zero_pattern};

verus! {

/// Number of features that are scaled: all but the weather code.
pub const NORMALIZED_FEATURES: usize = 16;

/// Position of the forecast target, the air temperature, among the features.
pub const TARGET_FEATURE: usize = 0;

/// Mean and standard deviation of every scaled feature, as binary32 bit
/// patterns, with the column names for diagnostics. Checked when they are
/// made and only read afterwards.
#[derive(Debug)]
pub struct Statistics {
    mean: Vec<u32>,
    std: Vec<u32>,
    input_cols: Vec<String>,
}

/// What a set of statistics holds.
pub struct StatisticsView {
    pub mean: Seq<u32>,
    pub std: Seq<u32>,
    pub input_cols: Seq<String>,
}

/// `index` is the first position of `std` that holds a zero.
pub open spec fn first_zero(std: Seq<u32>, index: int) -> bool {
    &&& 0 <= index < std.len()
    &&& is_zero_pattern(std[index])
    &&& forall|j: int| 0 <= j < index ==> !is_zero_pattern(#[trigger] std[j])
}

/// No position of `std` holds a zero.
pub open spec fn free_of_zeros(std: Seq<u32>) -> bool {
    forall|j: int| 0 <= j < std.len() ==> !is_zero_pattern(#[trigger] std[j])
}

impl StatisticsView {
    /// The three lists have one length.
    pub open spec fn lengths_agree(self) -> bool {
        self.mean.len() == self.std.len() && self.mean.len() == self.input_cols.len()
    }

    /// The lists agree in length and no standard deviation is zero, so that
    /// scaling never divides by zero.
    pub open spec fn sound(self) -> bool {
        self.lengths_agree() && free_of_zeros(self.std)
    }

    /// There are statistics for exactly the scaled features.
    pub open spec fn covers_features(self) -> bool {
        self.mean.len() == NORMALIZED_FEATURES
    }
}

impl View for Statistics {
    type V = StatisticsView;

    closed spec fn view(&self) -> StatisticsView {
        StatisticsView { mean: self.mean@, std: self.std@, input_cols: self.input_cols@ }
    }
}

impl Statistics {
    #[verifier::type_invariant]
    pub closed spec fn well_formed(&self) -> bool {
        self@.sound()
    }

    /// Makes statistics out of the three lists of a statistics file. The
    /// first defect found is reported: lists of different lengths, then the
    /// first standard deviation that is zero.
    pub fn new(mean: Vec<u32>, std: Vec<u32>, input_cols: Vec<String>) -> (made: Result<
        Statistics,
        ConfigurationError,
    >)
        ensures
            made is Ok <==> (StatisticsView { mean: mean@, std: std@, input_cols: input_cols@ }).sound(),
            match made {
                Ok(stats) => stats@ == (StatisticsView {
                    mean: mean@,
                    std: std@,
                    input_cols: input_cols@,
                }),
                Err(ConfigurationError::LengthMismatch { mean: means, std: stds, names }) => {
                    &&& !(mean@.len() == std@.len() && mean@.len() == input_cols@.len())
                    &&& means == mean@.len()
                    &&& stds == std@.len()
                    &&& names == input_cols@.len()
                },
                Err(ConfigurationError::ZeroStd { index }) => {
                    &&& mean@.len() == std@.len()
                    &&& mean@.len() == input_cols@.len()
                    &&& first_zero(std@, index as int)
                },
                Err(_) => false,
            },
    {
        let means = mean.len();
        let stds = std.len();
        let names = input_cols.len();
        if means != stds || means != names {
            return Err(ConfigurationError::LengthMismatch { mean: means, std: stds, names });
        }
        let mut index: usize = 0;
        while index < stds
            invariant
                stds == std@.len(),
                mean@.len() == std@.len(),
                mean@.len() == input_cols@.len(),
                index <= stds,
                forall|j: int| 0 <= j < index ==> !is_zero_pattern(#[trigger] std@[j]),
            decreases stds - index,
        {
            if is_zero(std[index]) {
                return Err(ConfigurationError::ZeroStd { index });
            }
            index += 1;
        }
        Ok(Statistics { mean, std, input_cols })
    }

    /// The means, one per feature.
    pub fn means(&self) -> (mean: &Vec<u32>)
        ensures
            mean@ == self@.mean,
            self@.sound(),
    {
        proof {
            use_type_invariant(self);
        }
        &self.mean
    }

    /// The standard deviations, one per feature and none of them zero.
    pub fn stds(&self) -> (std: &Vec<u32>)
        ensures
            std@ == self@.std,
            self@.sound(),
    {
        proof {
            use_type_invariant(self);
        }
        &self.std
    }

    /// The column names, one per feature.
    pub fn columns(&self) -> (names: &Vec<String>)
        ensures
            names@ == self@.input_cols,
            self@.sound(),
    {
        proof {
            use_type_invariant(self);
        }
        &self.input_cols
    }

    /// The number of features that the statistics describe.
    pub fn num_features(&self) -> (count: usize)
        ensures
            count == self@.mean.len(),
            self@.sound(),
    {
        proof {
            use_type_invariant(self);
        }
        self.mean.len()
    }

    /// Checks, for one request, that the statistics cover the scaled
    /// features.
    pub fn check_feature_count(&self) -> (checked: Result<(), PreprocessError>)
        ensures
            self@.sound(),
            checked is Ok <==> self@.covers_features(),
            checked matches Err(fault) ==> (fault matches PreprocessError::InvalidFeatureCount {
                expected,
                got,
            } && expected == NORMALIZED_FEATURES && got == self@.mean.len()),
    {
        let count = self.num_features();
        if count != NORMALIZED_FEATURES {
            Err(PreprocessError::InvalidFeatureCount { expected: NORMALIZED_FEATURES, got: count })
        } else {
            Ok(())
        }
    }
}

} // verus!
