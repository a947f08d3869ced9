//! Logistic-regression training on categorical apple samples.
//!
//! The library holds what can be said exactly: the data model and its
//! numeric codes ([`apple`]), the training set ([`dataset`]), the order of
//! the training steps and the cadence of the reports ([`schedule`]), and the
//! wording of the reports ([`report`]). The arithmetic on real numbers
//! (prediction, loss, gradient step) is the caller's: the library works on
//! integers and text only.

pub mod apple;
pub mod dataset;
pub mod report;
pub mod schedule;
