//! Error types for FFT operations.

use vstd::prelude::*;

verus! {

#[verifier::external_type_specification]
#[verifier::external_body]
pub struct ExIoError(std::io::Error);

/// Main error type for FFT operations.
#[derive(Debug)]
pub enum FftError {
    /// Input validation error (wrong size, empty, etc.)
    ValidationError(String),
    /// WGPU-related error
    WgpuError(String),
    /// I/O error
    IoError(std::io::Error),
    /// No GPU device available
    NoDevice,
    /// Invalid FFT size
    InvalidSize(String),
    /// Compute shader error
    ShaderError(String),
    /// Batch processing error
    BatchError(String),
    /// GPU backend error (CUDA, HIP, ROCm)
    BackendError(String),
    /// Generic error message
    Other(String),
}

/// Result type alias for FFT operations.
pub type Result<T> = core::result::Result<T, FftError>;

/// The text of an I/O error, as its `Display` implementation renders it (`ToString::to_string`).
#[verifier::external_body]
fn io_error_text(e: &std::io::Error) -> (r: String) {
    e.to_string()
}

impl FftError {
    /// The message of every error other than an I/O error.
    pub open spec fn spec_message(&self) -> Seq<char> {
        match self {
            FftError::ValidationError(s) => "Input validation error: "@ + s@,
            FftError::WgpuError(s) => "WGPU error: "@ + s@,
            FftError::IoError(_) => "I/O error: "@,
            FftError::NoDevice => "No GPU device available"@,
            FftError::InvalidSize(s) => "Invalid FFT size: "@ + s@,
            FftError::ShaderError(s) => "Compute shader error: "@ + s@,
            FftError::BatchError(s) => "Batch processing error: "@ + s@,
            FftError::BackendError(s) => "GPU backend error: "@ + s@,
            FftError::Other(s) => s@,
        }
    }

    /// The human-readable message of this error: a fixed prefix naming the kind of error,
    /// followed by its detail (an I/O error's detail is the I/O error's own message).
    pub fn message(&self) -> (r: String)
        ensures
            !(self is IoError) ==> r@ == self.spec_message(),
            self is IoError ==> r@.len() >= self.spec_message().len() && r@.subrange(0, self.spec_message().len() as int) == self.spec_message(),
    {
        match self {
            FftError::ValidationError(s) => prefixed("Input validation error: ", s),
            FftError::WgpuError(s) => prefixed("WGPU error: ", s),
            FftError::IoError(e) => prefixed("I/O error: ", &io_error_text(e)),
            FftError::NoDevice => "No GPU device available".to_owned(),
            FftError::InvalidSize(s) => prefixed("Invalid FFT size: ", s),
            FftError::ShaderError(s) => prefixed("Compute shader error: ", s),
            FftError::BatchError(s) => prefixed("Batch processing error: ", s),
            FftError::BackendError(s) => prefixed("GPU backend error: ", s),
            FftError::Other(s) => s.clone(),
        }
    }
}

/// `prefix` followed by `detail`.
fn prefixed(prefix: &str, detail: &String) -> (r: String)
    ensures
        r@ == prefix@ + detail@,
{
    let mut m = prefix.to_owned();
    m.append(detail.as_str());
    m
}

} // verus!
