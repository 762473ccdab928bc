//! Verified core of a strength-training log: a cyclical training plan with
//! percentage-of-max prescriptions, a personal-record resolver over recorded
//! lifts, fuzzy exercise-name resolution, and an all-or-nothing session
//! recording workflow over an in-memory model of the record store.
//!
//! Weights, rep counts and set counts travel through the library as
//! fixed-point quantities in tenths (a 102.5 kg bench press is 1025), so
//! every computation the contracts speak of — percentage scaling, record
//! maxima, display rendering — is exact integer arithmetic.

pub mod dates;
pub mod exercises;
pub mod input;
pub mod numfmt;
pub mod parse;
pub mod plan;
pub mod recorder;
pub mod render;
pub mod store;

pub use plan::Config;
