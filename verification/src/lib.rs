//! Feature engineering for an hourly weather forecasting model: cyclic time
//! encoding, z-score normalisation, tensor assembly, the exchange with the
//! forecasting engine and the way back to physical units.
//!
//! A request carries a window of hourly observations. Each observation
//! becomes a vector of seventeen features in a fixed order ([`record`],
//! [`time`]); the first sixteen are scaled with the statistics of the
//! training data ([`statistics`], [`normalize`]) and the vectors are stacked
//! into one dense tensor ([`tensor`], [`preprocess`]). The tensor goes to the
//! engine in a short, strictly ordered exchange ([`gateway`]), and the raw
//! forecast that comes back is restored to physical units ([`request`]).
//! Every failure on the way is one of the errors of [`error`].
//!
//! Values are IEEE 754 binary32 numbers held by their bit patterns. The
//! crate decides which arithmetic is applied to which value and proves that
//! every value ends up in its place; the arithmetic itself is carried out by
//! an evaluator that the caller passes in ([`scalar`]).

pub mod error;
pub mod gateway;
pub mod normalize;
pub mod preprocess;
pub mod record;
pub mod request;
pub mod scalar;
pub mod statistics;
pub mod tensor;
pub mod text;
pub mod time;
