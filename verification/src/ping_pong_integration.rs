//! Configuration of the pipeline stages that plug the FFT into a ping-pong stage pipeline:
//! FFT/IFFT stages (optionally processing two concatenated signals at once) and the
//! element-wise complex multiplication stage.

use vstd::prelude::*;
use vstd::arithmetic::div_mod::lemma_fundamental_div_mod;

use crate::pipelines::FftDirection;
use crate::text::decimal;
use crate::text::two_numbers_message;

verus! {

/// Components per element (complex numbers as `vec2<f32>`).
pub const VECTOR_DIM: usize = 2;

/// Byte size of one element (`vec2<f32>`).
pub const ELEMENT_BYTES: u64 = 8;

/// Message of the error an FFT stage reports for a vector dimension other than 2.
pub const FFT_VECTOR_DIM_MESSAGE: &'static str = "FftPipelineStage requires vector_dim of 2 for complex numbers";

/// Message of the error the multiplication stage reports for a vector dimension other than 2.
pub const MULTIPLY_VECTOR_DIM_MESSAGE: &'static str = "MultiplyPipelineStage requires vector_dim of 2 for complex numbers";

/// A pipeline stage that performs an FFT or IFFT of size `n` over `batch_size` signals; in
/// combined mode its buffer holds two concatenated inputs `[A][B]`, transformed together.
#[derive(Debug)]
pub struct FftPipelineStage {
    n: usize,
    batch_size: u32,
    direction: FftDirection,
    combined: bool,
}

impl FftPipelineStage {
    /// FFT size.
    pub closed spec fn spec_n(&self) -> usize {
        self.n
    }

    /// Number of FFTs processed in parallel.
    pub closed spec fn spec_fft_batch_size(&self) -> u32 {
        self.batch_size
    }

    /// Direction of the transform.
    pub closed spec fn spec_direction(&self) -> FftDirection {
        self.direction
    }

    /// Whether the stage processes two concatenated inputs.
    pub closed spec fn spec_combined(&self) -> bool {
        self.combined
    }

    /// Number of elements the stage's buffers hold: `n * batch_size`, doubled in combined mode.
    pub open spec fn spec_total_elements(&self) -> int {
        (if self.spec_combined() { 2int } else { 1int }) * self.spec_n() * self.spec_fft_batch_size()
    }

    /// Creates a new forward FFT stage.
    pub fn forward(n: usize, batch_size: u32) -> (r: Self)
        ensures
            r.spec_n() == n,
            r.spec_fft_batch_size() == batch_size,
            r.spec_direction() == FftDirection::Forward,
            !r.spec_combined(),
    {
        Self { n, batch_size, direction: FftDirection::Forward, combined: false }
    }

    /// Creates a new inverse FFT stage.
    pub fn inverse(n: usize, batch_size: u32) -> (r: Self)
        ensures
            r.spec_n() == n,
            r.spec_fft_batch_size() == batch_size,
            r.spec_direction() == FftDirection::Inverse,
            !r.spec_combined(),
    {
        Self { n, batch_size, direction: FftDirection::Inverse, combined: false }
    }

    /// Creates a new forward FFT stage in combined mode: input `[A][B]`, output `[A_freq][B_freq]`.
    pub fn forward_combined(n: usize, batch_size: u32) -> (r: Self)
        ensures
            r.spec_n() == n,
            r.spec_fft_batch_size() == batch_size,
            r.spec_direction() == FftDirection::Forward,
            r.spec_combined(),
    {
        Self { n, batch_size, direction: FftDirection::Forward, combined: true }
    }

    /// Creates a new inverse FFT stage in combined mode: input `[A_freq][B_freq]`, output `[A][B]`.
    pub fn inverse_combined(n: usize, batch_size: u32) -> (r: Self)
        ensures
            r.spec_n() == n,
            r.spec_fft_batch_size() == batch_size,
            r.spec_direction() == FftDirection::Inverse,
            r.spec_combined(),
    {
        Self { n, batch_size, direction: FftDirection::Inverse, combined: true }
    }

    /// FFT size.
    pub fn n(&self) -> (r: usize)
        ensures
            r == self.spec_n(),
    {
        self.n
    }

    /// Number of FFTs processed in parallel.
    pub fn fft_batch_size(&self) -> (r: u32)
        ensures
            r == self.spec_fft_batch_size(),
    {
        self.batch_size
    }

    /// Direction of the transform.
    pub fn direction(&self) -> (r: FftDirection)
        ensures
            r == self.spec_direction(),
    {
        self.direction
    }

    /// Whether the stage processes two concatenated inputs.
    pub fn is_combined(&self) -> (r: bool)
        ensures
            r == self.spec_combined(),
    {
        self.combined
    }

    /// Name of the stage: `fft_forward`, `fft_inverse`, or with `_combined` appended in combined mode.
    pub fn name(&self) -> (r: &'static str)
        ensures
            r@ == (match (self.spec_combined(), self.spec_direction()) {
                (true, FftDirection::Forward) => "fft_forward_combined"@,
                (true, FftDirection::Inverse) => "fft_inverse_combined"@,
                (false, FftDirection::Forward) => "fft_forward"@,
                (false, FftDirection::Inverse) => "fft_inverse"@,
            }),
    {
        if self.combined {
            match self.direction {
                FftDirection::Forward => "fft_forward_combined",
                FftDirection::Inverse => "fft_inverse_combined",
            }
        } else {
            match self.direction {
                FftDirection::Forward => "fft_forward",
                FftDirection::Inverse => "fft_inverse",
            }
        }
    }

    /// Components per element: 2 (complex numbers).
    pub fn vector_dim(&self) -> (r: usize)
        ensures
            r == VECTOR_DIM,
    {
        VECTOR_DIM
    }

    /// Number of elements the stage's buffers hold: `n * batch_size`, doubled in combined mode.
    pub fn batch_size(&self) -> (r: usize)
        requires
            self.spec_total_elements() <= usize::MAX,
        ensures
            r == self.spec_total_elements(),
    {
        if self.combined {
            assert(2 * self.n <= 2 * self.n * self.batch_size || self.batch_size == 0) by (nonlinear_arith);
            if self.batch_size == 0 {
                assert(2 * self.n * self.batch_size == 0) by (nonlinear_arith)
                    requires
                        self.batch_size == 0,
                ;
                return 0;
            }
            2 * self.n * self.batch_size as usize
        } else {
            self.n * self.batch_size as usize
        }
    }

    /// Number of transforms the stage runs over an output buffer of `output_bytes` bytes
    /// (in combined mode both halves count).
    pub fn effective_batch_size(&self, output_bytes: u64) -> (r: u32)
        requires
            self.spec_n() > 0,
        ensures
            r == (((output_bytes / ELEMENT_BYTES) as usize) / self.spec_n()) as u32,
    {
        let total_elements = (output_bytes / ELEMENT_BYTES) as usize;
        (total_elements / self.n) as u32
    }

    /// Resize to `new_batch_size` elements in total (keeping `n`): the vector dimension must be 2
    /// and the element count a multiple of `n` (of `2 * n` in combined mode); on error the stage
    /// is left unchanged.
    pub fn resize(&mut self, new_batch_size: usize, new_vector_dim: usize) -> (r: Result<(), String>)
        requires
            old(self).spec_n() > 0,
            old(self).spec_combined() ==> 2 * old(self).spec_n() <= usize::MAX,
        ensures
            final(self).spec_n() == old(self).spec_n(),
            final(self).spec_direction() == old(self).spec_direction(),
            final(self).spec_combined() == old(self).spec_combined(),
            ({
                let group = if old(self).spec_combined() { 2 * old(self).spec_n() } else { old(self).spec_n() as int };
                &&& r is Ok <==> (new_vector_dim == VECTOR_DIM && (new_batch_size as int) % group == 0)
                &&& r is Ok ==> final(self).spec_fft_batch_size() == (new_batch_size as int / group) as u32
                &&& (r is Ok && new_batch_size as int / group <= u32::MAX) ==> final(self).spec_total_elements() == new_batch_size
                &&& r is Err ==> final(self).spec_fft_batch_size() == old(self).spec_fft_batch_size()
                &&& new_vector_dim != VECTOR_DIM ==> (r matches Err(m) && m@ == FFT_VECTOR_DIM_MESSAGE@)
                &&& (new_vector_dim == VECTOR_DIM && (new_batch_size as int) % group != 0 && old(self).spec_combined()) ==> (r matches Err(m)
                    && m@ == "New batch size "@ + decimal(new_batch_size as nat) + " is not a multiple of 2 * FFT size "@
                    + decimal(old(self).spec_n() as nat) + " (combined mode)"@)
                &&& (new_vector_dim == VECTOR_DIM && (new_batch_size as int) % group != 0 && !old(self).spec_combined()) ==> (r matches Err(m)
                    && m@ == "New batch size "@ + decimal(new_batch_size as nat) + " is not a multiple of FFT size "@
                    + decimal(old(self).spec_n() as nat) + ""@)
            }),
    {
        if new_vector_dim != VECTOR_DIM {
            return Err(FFT_VECTOR_DIM_MESSAGE.to_owned());
        }
        let total_elements = new_batch_size;
        if self.combined {
            if total_elements % (2 * self.n) != 0 {
                return Err(two_numbers_message(
                    "New batch size ",
                    total_elements,
                    " is not a multiple of 2 * FFT size ",
                    self.n,
                    " (combined mode)",
                ));
            }
            proof {
                lemma_fundamental_div_mod(total_elements as int, 2 * self.n);
            }
            self.batch_size = (total_elements / (2 * self.n)) as u32;
        } else {
            if total_elements % self.n != 0 {
                return Err(two_numbers_message(
                    "New batch size ",
                    total_elements,
                    " is not a multiple of FFT size ",
                    self.n,
                    "",
                ));
            }
            proof {
                lemma_fundamental_div_mod(total_elements as int, self.n as int);
            }
            self.batch_size = (total_elements / self.n) as u32;
        }
        Ok(())
    }

    /// Change the FFT size.
    pub fn update_n(&mut self, new_n: usize) -> (r: Result<(), String>)
        ensures
            r is Ok,
            final(self).spec_n() == new_n,
            final(self).spec_fft_batch_size() == old(self).spec_fft_batch_size(),
            final(self).spec_direction() == old(self).spec_direction(),
            final(self).spec_combined() == old(self).spec_combined(),
    {
        self.n = new_n;
        Ok(())
    }
}

/// A pipeline stage that multiplies two complex signals element-wise: its input is
/// `[A_freq][B_freq]` (`2 * n * batch_size` elements) and its output `[products][zeros]`.
#[derive(Debug)]
pub struct MultiplyPipelineStage {
    n: usize,
    batch_size: u32,
}

impl MultiplyPipelineStage {
    /// Number of complex elements of each signal.
    pub closed spec fn spec_n(&self) -> usize {
        self.n
    }

    /// Number of batches.
    pub closed spec fn spec_mul_batch_size(&self) -> u32 {
        self.batch_size
    }

    /// Number of elements of the stage's buffers: `2 * n * batch_size`.
    pub open spec fn spec_total_elements(&self) -> int {
        2 * self.spec_n() * self.spec_mul_batch_size()
    }

    /// Creates a new complex multiplication stage.
    pub fn new(n: usize, batch_size: u32) -> (r: Self)
        ensures
            r.spec_n() == n,
            r.spec_mul_batch_size() == batch_size,
    {
        Self { n, batch_size }
    }

    /// Number of complex elements of each signal.
    pub fn n(&self) -> (r: usize)
        ensures
            r == self.spec_n(),
    {
        self.n
    }

    /// Number of batches.
    pub fn mul_batch_size(&self) -> (r: u32)
        ensures
            r == self.spec_mul_batch_size(),
    {
        self.batch_size
    }

    /// Name of the stage, `multiply_complex`.
    pub fn name(&self) -> (r: &'static str)
        ensures
            r@ == "multiply_complex"@,
    {
        "multiply_complex"
    }

    /// Components per element: 2 (complex numbers).
    pub fn vector_dim(&self) -> (r: usize)
        ensures
            r == VECTOR_DIM,
    {
        VECTOR_DIM
    }

    /// Number of elements of the stage's buffers: `2 * n * batch_size`.
    pub fn batch_size(&self) -> (r: usize)
        requires
            self.spec_total_elements() <= usize::MAX,
        ensures
            r == self.spec_total_elements(),
    {
        assert(2 * self.n <= 2 * self.n * self.batch_size || self.batch_size == 0) by (nonlinear_arith);
        if self.batch_size == 0 {
            assert(2 * self.n * self.batch_size == 0) by (nonlinear_arith)
                requires
                    self.batch_size == 0,
            ;
            return 0;
        }
        2 * self.n * self.batch_size as usize
    }

    /// Workgroups (of 256 invocations) dispatched over an output buffer of `output_bytes` bytes:
    /// one invocation per element.
    pub fn dispatch_count(&self, output_bytes: u64) -> (r: u32)
        requires
            ((output_bytes / ELEMENT_BYTES) as u32) as int + 256 <= u32::MAX,
        ensures
            r == (((output_bytes / ELEMENT_BYTES) as u32) as int + 255) / 256,
    {
        let total_elements = (output_bytes / ELEMENT_BYTES) as u32;
        let workgroup_size = 256u32;
        (total_elements + workgroup_size - 1) / workgroup_size
    }

    /// Resize to `new_batch_size` elements in total (keeping `n`): the vector dimension must be 2
    /// and the element count a multiple of `2 * n`; on error the stage is left unchanged.
    pub fn resize(&mut self, new_batch_size: usize, new_vector_dim: usize) -> (r: Result<(), String>)
        requires
            old(self).spec_n() > 0,
            2 * old(self).spec_n() <= usize::MAX,
        ensures
            final(self).spec_n() == old(self).spec_n(),
            r is Ok <==> (new_vector_dim == VECTOR_DIM && (new_batch_size as int) % (2 * old(self).spec_n()) == 0),
            r is Ok ==> final(self).spec_mul_batch_size() == (new_batch_size as int / (2 * old(self).spec_n())) as u32,
            (r is Ok && new_batch_size as int / (2 * old(self).spec_n()) <= u32::MAX) ==> final(self).spec_total_elements() == new_batch_size,
            r is Err ==> final(self).spec_mul_batch_size() == old(self).spec_mul_batch_size(),
            new_vector_dim != VECTOR_DIM ==> (r matches Err(m) && m@ == MULTIPLY_VECTOR_DIM_MESSAGE@),
            (new_vector_dim == VECTOR_DIM && (new_batch_size as int) % (2 * old(self).spec_n()) != 0) ==> (r matches Err(m)
                && m@ == "New batch size "@ + decimal(new_batch_size as nat) + " is not a multiple of 2 * n "@
                + decimal(old(self).spec_n() as nat) + ""@),
    {
        if new_vector_dim != VECTOR_DIM {
            return Err(MULTIPLY_VECTOR_DIM_MESSAGE.to_owned());
        }
        let total_elements = new_batch_size;
        if total_elements % (2 * self.n) != 0 {
            return Err(two_numbers_message(
                "New batch size ",
                total_elements,
                " is not a multiple of 2 * n ",
                self.n,
                "",
            ));
        }
        proof {
            lemma_fundamental_div_mod(total_elements as int, 2 * self.n);
        }
        self.batch_size = (total_elements / (2 * self.n)) as u32;
        Ok(())
    }

    /// Change the element count of each signal.
    pub fn update_n(&mut self, new_n: usize) -> (r: Result<(), String>)
        ensures
            r is Ok,
            final(self).spec_n() == new_n,
            final(self).spec_mul_batch_size() == old(self).spec_mul_batch_size(),
    {
        self.n = new_n;
        Ok(())
    }
}

} // verus!
