//! Template matching on a compute accelerator: the bookkeeping that decides
//! which device resources a matching call rebuilds and which it reuses, and
//! the scan of a finished score surface for its extremes.
//!
//! The crate never talks to a device. [`TemplateMatcher`] turns each call
//! into a [`plan::DispatchPlan`] for the owner of the device to carry out,
//! and turns what was read back from the device into the result [`Image`].
//! Samples are 32-bit floating-point numbers, held as their bit patterns.

pub mod bindings;
pub mod device;
pub mod extremes;
pub mod image;
pub mod laws;
pub mod matcher;
pub mod method;
pub mod plan;
pub mod sample;

pub use extremes::{find_extremes, Extremes};
pub use image::Image;
pub use matcher::{match_template, PendingResult, Readback, TemplateMatcher};
pub use method::MatchTemplateMethod;
pub use plan::{BufferAction, CacheKey, DispatchPlan, Grid, MatchError, ShaderUniforms, Size};
