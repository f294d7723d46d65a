//! Take the image at a URL, change it, publish it, and get the new URL: one
//! run of a pipeline of five stages, fetch, decode, transform, encode and
//! publish.
//!
//! The library makes every decision of a run and proves what it decides; it
//! never touches the network. [`pipeline::start`] names the first thing to
//! do, the caller does it and reports the outcome, and the next step comes
//! back as an [`pipeline::Action`], until the action is to finish.
//!
//! - [`pipeline`]: the run, step by step.
//! - [`stages`]: what each stage owes on its own.
//! - [`error`]: how a run can fail.
//! - [`laws`]: what holds of every run.
//! - [`codec`], [`address`]: what is taken on trust from the `image` and
//!   `url` crates.

pub mod address;
pub mod codec;
pub mod error;
pub mod laws;
pub mod pipeline;
pub mod stages;
