//! Verified planning core of a GPU FFT library built around wgpu compute shaders.
//!
//! The library decides everything about a GPU FFT that does not need a device: which
//! algorithm a batch takes, how the Stockham Radix-4/2 engine (and its alternative
//! mixed-radix engines) split a transform into stages, the uniforms and ping-pong
//! buffers of every stage, where the result ends up, buffer sizes and workgroup counts,
//! the passes of the embeddable Cooley-Tukey pipelines, and the configuration and
//! validation of pipeline stages.

pub mod benchmark;
pub mod buffer;
pub mod cufft_wrapper;
pub mod error;
pub mod fft;
pub mod hipfft_wrapper;
pub mod ping_pong_integration;
pub mod pipeline;
pub mod pipeline_builder;
pub mod pipelines;
pub mod rivals;
pub mod text;
pub mod uniforms;

pub use error::{FftError, Result};
pub use fft::FftUniforms;
pub use pipelines::FftDirection;
