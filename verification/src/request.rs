//! The path of one forecast request on either side of the engine.

use vstd::prelude::*;
use crate::error::{ConfigurationError, EngineError, PredictError, PreprocessError};
use crate::normalize::{denormalize, denormalized};
use crate::preprocess::{holds_window, preprocess_fault, preprocess_sequence, SEQ_LEN};
use crate::record::WeatherRecord;
use crate::scalar::{total, Operation};
use crate::statistics::{Statistics, StatisticsView};
use crate::tensor::InputTensor;

verus! {

/// Why a request with a window of `length` observations is turned away
/// before the engine is asked, if it is: for the length of its window, or
/// else for statistics that do not cover the scaled features.
pub open spec fn request_fault(length: nat, stats: StatisticsView) -> Option<PredictError> {
    if length != SEQ_LEN {
        Some(PredictError::WindowLength { expected: SEQ_LEN, got: length as usize })
    } else {
        match preprocess_fault(length, stats) {
            Some(fault) => Some(PredictError::Preprocess(fault)),
            None => None,
        }
    }
}

/// Request validation and the tensor builder go by one window length: a
/// request is turned away for its length exactly when the tensor builder
/// would turn its window away for its length, and both name the same
/// lengths.
pub proof fn window_checks_agree(length: nat, stats: StatisticsView)
    requires
        length <= usize::MAX,
    ensures
        length != SEQ_LEN <==> (request_fault(length, stats) matches Some(
            PredictError::WindowLength { expected, got },
        ) && expected == SEQ_LEN && got == length),
        length != SEQ_LEN <==> (preprocess_fault(length, stats) matches Some(
            PreprocessError::InvalidSequenceLength { expected, got },
        ) && expected == SEQ_LEN && got == length),
        request_fault(length, stats) is Some <==> preprocess_fault(length, stats) is Some,
{
}

/// Checks the length of a request's window against the length that the
/// tensor builder requires.
pub fn validate_window(length: usize) -> (checked: Result<(), PredictError>)
    ensures
        checked is Ok <==> length == SEQ_LEN,
        checked matches Err(fault) ==> fault == (PredictError::WindowLength {
            expected: SEQ_LEN,
            got: length,
        }),
{
    if length != SEQ_LEN {
        Err(PredictError::WindowLength { expected: SEQ_LEN, got: length })
    } else {
        Ok(())
    }
}

/// The first half of a request: validates the window and builds the input
/// tensor.
pub fn prepare<E: Fn(Operation) -> u32>(
    records: &[WeatherRecord],
    stats: &Statistics,
    eval: &E,
) -> (made: Result<InputTensor, PredictError>)
    requires
        total(eval),
    ensures
        made is Err <==> request_fault(records@.len(), stats@) is Some,
        made matches Err(fault) ==> request_fault(records@.len(), stats@) == Some(fault),
        made matches Ok(tensor) ==> holds_window(eval, records@, stats@, tensor),
{
    match validate_window(records.len()) {
        Err(fault) => {
            return Err(fault);
        },
        Ok(_) => {},
    }
    match preprocess_sequence(records, stats, eval) {
        Ok(tensor) => Ok(tensor),
        Err(fault) => Err(PredictError::Preprocess(fault)),
    }
}

/// The second half of a request: takes what the exchange with the engine
/// gave and brings a forecast back to physical units. A failure of the
/// engine is passed on; a forecast fails only for want of statistics for
/// the target.
pub fn conclude<E: Fn(Operation) -> u32>(
    outcome: Result<Vec<u32>, EngineError>,
    stats: &Statistics,
    eval: &E,
) -> (answer: Result<Vec<u32>, PredictError>)
    requires
        total(eval),
    ensures
        match outcome {
            Err(fault) => answer == Err::<Vec<u32>, PredictError>(PredictError::Engine(fault)),
            Ok(output) => match answer {
                Ok(values) => stats@.mean.len() > 0 && denormalized(
                    eval,
                    output@,
                    stats@,
                    values@,
                ),
                Err(fault) => stats@.mean.len() == 0 && fault == PredictError::Statistics(
                    ConfigurationError::MissingTarget,
                ),
            },
        },
{
    match outcome {
        Err(fault) => Err(PredictError::Engine(fault)),
        Ok(output) => match denormalize(&output, stats, eval) {
            Ok(values) => Ok(values),
            Err(fault) => Err(PredictError::Statistics(fault)),
        },
    }
}

} // verus!
