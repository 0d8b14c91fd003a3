//! Stages of the streaming pipeline builder: FFT and normalization stages and the validation
//! they perform when added to a pipeline.
//!
//! All stages operate on one global [`PingPongState`]; when it toggles, every stage swaps its
//! read and write buffers at once (the "bucket brigade").

use vstd::prelude::*;

pub use crate::buffer::PingPongState;
use crate::pipelines::FftDirection;

verus! {

/// Message of the error a stage reports for a zero FFT size.
pub const ZERO_SIZE_MESSAGE: &'static str = "FFT size must be greater than 0";

/// Message of the error a stage reports for a zero batch size.
pub const ZERO_BATCH_MESSAGE: &'static str = "Batch size must be greater than 0";

/// Validation a stage performs when it is added to a pipeline: the FFT size and the batch
/// size must both be positive (the size is checked first).
pub fn check_stage_parameters(n: usize, batch_size: u32) -> (r: Result<(), String>)
    ensures
        r is Ok <==> (n > 0 && batch_size > 0),
        n == 0 ==> (r matches Err(m) && m@ == ZERO_SIZE_MESSAGE@),
        (n > 0 && batch_size == 0) ==> (r matches Err(m) && m@ == ZERO_BATCH_MESSAGE@),
{
    if n == 0 {
        return Err(ZERO_SIZE_MESSAGE.to_owned());
    }
    if batch_size == 0 {
        return Err(ZERO_BATCH_MESSAGE.to_owned());
    }
    Ok(())
}

/// A simple FFT stage that performs a forward or inverse FFT.
#[derive(Debug, Clone)]
pub struct FftStage {
    direction: FftDirection,
}

impl FftStage {
    /// The direction of this stage.
    pub closed spec fn spec_direction(&self) -> FftDirection {
        self.direction
    }

    /// Create a new FFT stage with the specified direction.
    pub fn new(direction: FftDirection) -> (r: Self)
        ensures
            r.spec_direction() == direction,
    {
        Self { direction }
    }

    /// Get the FFT direction.
    pub fn direction(&self) -> (r: FftDirection)
        ensures
            r == self.spec_direction(),
    {
        self.direction
    }

    /// Create a forward FFT stage.
    pub fn forward() -> (r: Self)
        ensures
            r.spec_direction() == FftDirection::Forward,
    {
        Self::new(FftDirection::Forward)
    }

    /// Create an inverse FFT stage.
    pub fn inverse() -> (r: Self)
        ensures
            r.spec_direction() == FftDirection::Inverse,
    {
        Self::new(FftDirection::Inverse)
    }

    /// The name of this stage: `"fft"` forward, `"ifft"` inverse.
    pub fn name(&self) -> (r: &'static str)
        ensures
            r@ == (match self.spec_direction() {
                FftDirection::Forward => "fft"@,
                FftDirection::Inverse => "ifft"@,
            }),
    {
        match self.direction {
            FftDirection::Forward => "fft",
            FftDirection::Inverse => "ifft",
        }
    }

    /// Called when the stage is added to a pipeline: validates the FFT and batch sizes.
    pub fn on_add(&mut self, n: usize, batch_size: u32) -> (r: Result<(), String>)
        ensures
            final(self).spec_direction() == old(self).spec_direction(),
            r is Ok <==> (n > 0 && batch_size > 0),
            n == 0 ==> (r matches Err(m) && m@ == ZERO_SIZE_MESSAGE@),
            (n > 0 && batch_size == 0) ==> (r matches Err(m) && m@ == ZERO_BATCH_MESSAGE@),
    {
        check_stage_parameters(n, batch_size)
    }
}

/// A normalization stage for IFFT results: divides each element by N.
#[derive(Debug, Clone, Default)]
pub struct NormalizeStage;

impl NormalizeStage {
    /// Create a new normalization stage.
    pub fn new() -> (r: Self) {
        Self
    }

    /// The name of this stage, `"normalize"`.
    pub fn name(&self) -> (r: &'static str)
        ensures
            r@ == "normalize"@,
    {
        "normalize"
    }

    /// Called when the stage is added to a pipeline: validates the FFT and batch sizes.
    pub fn on_add(&mut self, n: usize, batch_size: u32) -> (r: Result<(), String>)
        ensures
            r is Ok <==> (n > 0 && batch_size > 0),
            n == 0 ==> (r matches Err(m) && m@ == ZERO_SIZE_MESSAGE@),
            (n > 0 && batch_size == 0) ==> (r matches Err(m) && m@ == ZERO_BATCH_MESSAGE@),
    {
        check_stage_parameters(n, batch_size)
    }
}

} // verus!
