//! What can go wrong between a request and its forecast.

use vstd::prelude::*;
use crate::text::{decimal, render_decimal};

verus! {

/// A window or a set of statistics that the tensor builder turns away.
#[derive(Debug, Clone, Copy, PartialEq, Eq)]
pub enum PreprocessError {
    /// The window does not hold the required number of observations.
    InvalidSequenceLength { expected: usize, got: usize },
    /// The statistics do not cover the required number of features.
    InvalidFeatureCount { expected: usize, got: usize },
}

/// A defect in the normalisation statistics. It points at the deployment,
/// not at the request that met it.
#[derive(Debug, Clone, Copy, PartialEq, Eq)]
pub enum ConfigurationError {
    /// The lists of means, standard deviations and column names differ in
    /// length.
    LengthMismatch { mean: usize, std: usize, names: usize },
    /// The standard deviation at `index` is zero: scaling by it would divide
    /// by zero.
    ZeroStd { index: usize },
    /// There are no statistics for the target feature.
    MissingTarget,
}

/// A failure of the exchange with the forecasting engine. Where the engine
/// said why, its words are kept.
#[derive(Debug, PartialEq, Eq)]
pub enum EngineError {
    /// Exclusive access to the engine could not be had.
    LockAcquisitionFailure,
    /// The engine did not take the tensor as its input.
    TensorConstructionFailure(String),
    /// The forward pass failed.
    ExecutionFailure(String),
    /// The forward pass produced no output tensor at all.
    NoOutputFailure,
    /// The chosen output tensor could not be read as binary32 values.
    OutputExtractionFailure(String),
}

/// `"<what>: expected <expected>, got <got>"`.
pub open spec fn mismatch_text(what: Seq<char>, expected: nat, got: nat) -> Seq<char> {
    what + ": expected "@ + decimal(expected) + ", got "@ + decimal(got)
}

fn render_mismatch(what: &str, expected: usize, got: usize) -> (text: String)
    ensures
        text@ == mismatch_text(what@, expected as nat, got as nat),
{
    let mut text = String::from_str(what);
    text.append(": expected ");
    text.append(render_decimal(expected).as_str());
    text.append(", got ");
    text.append(render_decimal(got).as_str());
    text
}

impl PreprocessError {
    /// The text of the message.
    pub open spec fn text(&self) -> Seq<char> {
        match *self {
            PreprocessError::InvalidSequenceLength { expected, got } => mismatch_text(
                "Invalid sequence length"@,
                expected as nat,
                got as nat,
            ),
            PreprocessError::InvalidFeatureCount { expected, got } => mismatch_text(
                "Invalid feature count"@,
                expected as nat,
                got as nat,
            ),
        }
    }

    /// A one-line description for logs and responses.
    pub fn message(&self) -> (text: String)
        ensures
            text@ == self.text(),
    {
        match *self {
            PreprocessError::InvalidSequenceLength { expected, got } => render_mismatch(
                "Invalid sequence length",
                expected,
                got,
            ),
            PreprocessError::InvalidFeatureCount { expected, got } => render_mismatch(
                "Invalid feature count",
                expected,
                got,
            ),
        }
    }
}

impl ConfigurationError {
    /// The text of the message.
    pub open spec fn text(&self) -> Seq<char> {
        match *self {
            ConfigurationError::LengthMismatch { mean, std, names } => {
                "Statistics corrupted: "@ + decimal(mean as nat) + " means, "@ + decimal(
                    std as nat,
                ) + " standard deviations, "@ + decimal(names as nat) + " column names"@
            },
            ConfigurationError::ZeroStd { index } => {
                "Statistics corrupted: zero std for index "@ + decimal(index as nat)
            },
            ConfigurationError::MissingTarget => {
                "Statistics corrupted: missing mean for index 0"@
            },
        }
    }

    /// A one-line description for logs and responses.
    pub fn message(&self) -> (text: String)
        ensures
            text@ == self.text(),
    {
        match *self {
            ConfigurationError::LengthMismatch { mean, std, names } => {
                let mut text = String::from_str("Statistics corrupted: ");
                text.append(render_decimal(mean).as_str());
                text.append(" means, ");
                text.append(render_decimal(std).as_str());
                text.append(" standard deviations, ");
                text.append(render_decimal(names).as_str());
                text.append(" column names");
                text
            },
            ConfigurationError::ZeroStd { index } => {
                let mut text = String::from_str("Statistics corrupted: zero std for index ");
                text.append(render_decimal(index).as_str());
                text
            },
            ConfigurationError::MissingTarget => String::from_str(
                "Statistics corrupted: missing mean for index 0",
            ),
        }
    }
}

impl EngineError {
    /// The text of the message. What the engine said follows the colon.
    pub open spec fn text(&self) -> Seq<char> {
        match self {
            EngineError::LockAcquisitionFailure => "Failed to acquire model lock"@,
            EngineError::TensorConstructionFailure(why) => "Failed to create input value: "@
                + why@,
            EngineError::ExecutionFailure(why) => "Inference failed: "@ + why@,
            EngineError::NoOutputFailure => "Model returned no outputs"@,
            EngineError::OutputExtractionFailure(why) => "Failed to extract output tensor: "@
                + why@,
        }
    }

    /// A one-line description for logs and responses.
    pub fn message(&self) -> (text: String)
        ensures
            text@ == self.text(),
    {
        match self {
            EngineError::LockAcquisitionFailure => String::from_str("Failed to acquire model lock"),
            EngineError::TensorConstructionFailure(why) => String::from_str(
                "Failed to create input value: ",
            ).concat(why.as_str()),
            EngineError::ExecutionFailure(why) => String::from_str("Inference failed: ").concat(
                why.as_str(),
            ),
            EngineError::NoOutputFailure => String::from_str("Model returned no outputs"),
            EngineError::OutputExtractionFailure(why) => String::from_str(
                "Failed to extract output tensor: ",
            ).concat(why.as_str()),
        }
    }
}

/// Who has to act on a failure.
#[derive(Debug, Clone, Copy, PartialEq, Eq)]
pub enum ErrorClass {
    /// The request is at fault and is turned away.
    Validation,
    /// The deployment is at fault: its statistics are defective.
    Configuration,
    /// The forecasting engine failed.
    Engine,
}

/// Every way in which a forecast request can fail. A failure ends the
/// request: nothing is retried and no partial result is given.
#[derive(Debug, PartialEq, Eq)]
pub enum PredictError {
    /// The request does not hold the required number of observations.
    WindowLength { expected: usize, got: usize },
    /// The tensor builder turned the window or the statistics away.
    Preprocess(PreprocessError),
    /// The statistics are defective.
    Statistics(ConfigurationError),
    /// The exchange with the engine failed.
    Engine(EngineError),
}

impl PredictError {
    /// The class of the failure. A window of the wrong length is the
    /// caller's fault wherever it is noticed; a wrong feature count lies in
    /// the statistics.
    pub open spec fn class_of(&self) -> ErrorClass {
        match self {
            PredictError::WindowLength { .. } => ErrorClass::Validation,
            PredictError::Preprocess(PreprocessError::InvalidSequenceLength { .. }) => {
                ErrorClass::Validation
            },
            PredictError::Preprocess(PreprocessError::InvalidFeatureCount { .. }) => {
                ErrorClass::Configuration
            },
            PredictError::Statistics(_) => ErrorClass::Configuration,
            PredictError::Engine(_) => ErrorClass::Engine,
        }
    }

    /// The text of the message.
    pub open spec fn text(&self) -> Seq<char> {
        match self {
            PredictError::WindowLength { expected, got } => "Expected "@ + decimal(
                *expected as nat,
            ) + " hourly records, got "@ + decimal(*got as nat),
            PredictError::Preprocess(fault) => "Preprocessing error: "@ + fault.text(),
            PredictError::Statistics(fault) => fault.text(),
            PredictError::Engine(fault) => fault.text(),
        }
    }

    /// Classifies the failure.
    pub fn class(&self) -> (class: ErrorClass)
        ensures
            class == self.class_of(),
    {
        match self {
            PredictError::WindowLength { .. } => ErrorClass::Validation,
            PredictError::Preprocess(PreprocessError::InvalidSequenceLength { .. }) => {
                ErrorClass::Validation
            },
            PredictError::Preprocess(PreprocessError::InvalidFeatureCount { .. }) => {
                ErrorClass::Configuration
            },
            PredictError::Statistics(_) => ErrorClass::Configuration,
            PredictError::Engine(_) => ErrorClass::Engine,
        }
    }

    /// The HTTP status that answers the failure: 400 where the request is at
    /// fault, 500 otherwise.
    pub fn status(&self) -> (code: u16)
        ensures
            code == if self.class_of() == ErrorClass::Validation {
                400u16
            } else {
                500u16
            },
    {
        match self.class() {
            ErrorClass::Validation => 400,
            _ => 500,
        }
    }

    /// A one-line description for logs and responses.
    pub fn message(&self) -> (text: String)
        ensures
            text@ == self.text(),
    {
        match self {
            PredictError::WindowLength { expected, got } => {
                let mut text = String::from_str("Expected ");
                text.append(render_decimal(*expected).as_str());
                text.append(" hourly records, got ");
                text.append(render_decimal(*got).as_str());
                text
            },
            PredictError::Preprocess(fault) => String::from_str("Preprocessing error: ").concat(
                fault.message().as_str(),
            ),
            PredictError::Statistics(fault) => fault.message(),
            PredictError::Engine(fault) => fault.message(),
        }
    }
}

} // verus!
