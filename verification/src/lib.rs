//! Real-time estimation of felt shaking intensity from three-axis
//! acceleration samples: the bounded history windows, the percentile
//! selection over the composite-magnitude history, the validation of
//! incoming values, and the fixed-rate schedule that drives sampling.
//!
//! Quantities that are real numbers in the field (a sample's axes, a
//! composite magnitude, the activation threshold) are carried here as the
//! bit patterns of IEEE 754 binary32 values. The arithmetic on them (the
//! detrending filter, the Euclidean norm, the logarithm) is the caller's;
//! this crate decides what is kept, what is rejected, what is selected and
//! when the next sample is due.

pub mod adc;
pub mod engine;
pub mod percentile;
pub mod replay;
pub mod sample;
pub mod scheduler;
pub mod window;

