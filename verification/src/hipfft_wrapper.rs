//! Status handling of the hipFFT (ROCm/HIP) backend.

use vstd::prelude::*;

use crate::error::FftError;
use crate::text::i32_text;
use crate::text::signed_decimal;

verus! {

/// Error code returned by a hipFFT or HIP runtime call.
#[derive(Debug, Clone, Copy, PartialEq, Eq, Structural)]
pub struct HipFftError(pub i32);

/// Turn the status code of a hipFFT or HIP runtime call into a result: 0 means success.
pub fn check(code: i32) -> (r: Result<(), HipFftError>)
    ensures
        r is Ok <==> code == 0,
        code != 0 ==> r == Err::<(), HipFftError>(HipFftError(code)),
{
    if code == 0 {
        Ok(())
    } else {
        Err(HipFftError(code))
    }
}

impl HipFftError {
    /// The backend error reported for this status code: `hipFFT error: <code>`.
    pub fn to_fft_error(&self) -> (r: FftError)
        ensures
            r matches FftError::BackendError(m) && m@ == "hipFFT error: "@ + signed_decimal(self.0 as int),
    {
        let mut m = "hipFFT error: ".to_owned();
        m.append(i32_text(self.0).as_str());
        FftError::BackendError(m)
    }
}

} // verus!
