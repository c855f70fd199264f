//! A framework for composing chained, per-view, full-screen post-processing
//! passes on top of a host renderer.
//!
//! Each effect is a small settings record attached to a view. The framework
//! turns that record into a cached GPU pipeline, a per-frame bind group and
//! one node in a fixed render-graph chain. The host renderer's primitives
//! (pipeline cache, asset stores, texture targets) are taken as given and
//! modelled in [`host`] as explicit context objects; everything the framework
//! decides — when a pipeline is rebuilt, what a bind group contains, in which
//! order the chain runs, when a draw is skipped — is stated in contracts and
//! verified.

pub mod bind_group;
pub mod blur;
pub mod chain;
pub mod chromatic_aberration;
pub mod flip;
pub mod host;
pub mod lut;
pub mod masks;
pub mod pixelate;
pub mod post_process;
pub mod raindrops;
pub mod simple_post_process;
pub mod test;
pub mod uniforms;
pub mod wave;
