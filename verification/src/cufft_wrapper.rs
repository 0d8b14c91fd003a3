//! Input validation of the cuFFT (CUDA) reference backend.

use vstd::prelude::*;

use crate::error::FftError;
use crate::text::decimal;
use crate::text::usize_text;

verus! {

/// Message of the error for a zero plan size.
pub const ZERO_PLAN_SIZE_MESSAGE: &'static str = "fft_size must be > 0";

/// Message of the error for a batch of empty vectors.
pub const EMPTY_VECTORS_MESSAGE: &'static str = "batch input vectors must be non-empty";

/// A cuFFT plan needs a positive size.
pub fn validate_fft_size(fft_size: usize) -> (r: Result<(), FftError>)
    ensures
        r is Ok <==> fft_size > 0,
        fft_size == 0 ==> (r matches Err(FftError::InvalidSize(m)) && m@ == ZERO_PLAN_SIZE_MESSAGE@),
{
    if fft_size == 0 {
        return Err(FftError::InvalidSize(ZERO_PLAN_SIZE_MESSAGE.to_owned()));
    }
    Ok(())
}

/// A single-vector transform needs an input of exactly the planned size.
pub fn ensure_input_size(input_len: usize, fft_size: usize) -> (r: Result<(), FftError>)
    ensures
        r is Ok <==> input_len == fft_size,
        input_len != fft_size ==> (r matches Err(FftError::ValidationError(m)) && m@ == "input length "@ + decimal(
            input_len as nat,
        ) + " does not match planned fft_size "@ + decimal(fft_size as nat)),
{
    if input_len != fft_size {
        let mut m = "input length ".to_owned();
        m.append(usize_text(input_len).as_str());
        m.append(" does not match planned fft_size ");
        m.append(usize_text(fft_size).as_str());
        return Err(FftError::ValidationError(m));
    }
    Ok(())
}

/// The first index at or after `i` whose length differs from the first one (the length of the
/// batch if none).
pub open spec fn first_mismatch_from(lengths: Seq<usize>, i: int) -> int
    decreases lengths.len() - i,
{
    if i < 0 || i >= lengths.len() {
        lengths.len() as int
    } else if lengths[i] != lengths[0] {
        i
    } else {
        first_mismatch_from(lengths, i + 1)
    }
}

/// The first index whose length differs from the first one (the length of the batch if none).
pub open spec fn first_mismatch(lengths: Seq<usize>) -> int {
    first_mismatch_from(lengths, 0)
}

/// `first_mismatch_from(lengths, i)` is the first index at or after `i` whose length differs
/// from the first one, or the length of the batch if there is none.
proof fn lemma_first_mismatch_from(lengths: Seq<usize>, i: int)
    requires
        0 <= i <= lengths.len(),
    ensures
        i <= first_mismatch_from(lengths, i) <= lengths.len(),
        forall|j: int| i <= j < first_mismatch_from(lengths, i) ==> #[trigger] lengths[j] == lengths[0],
        first_mismatch_from(lengths, i) < lengths.len() ==> lengths[first_mismatch_from(lengths, i)] != lengths[0],
    decreases lengths.len() - i,
{
    if i < lengths.len() && lengths[i] == lengths[0] {
        lemma_first_mismatch_from(lengths, i + 1);
    }
}

/// Mismatch law of batch validation: the index a refused batch is reported at is the first
/// vector whose length differs from the first vector's (every earlier vector has the first
/// length), and there is no such index exactly when all vectors share one length.
pub proof fn law_first_mismatch_is_first_difference(lengths: Seq<usize>)
    ensures
        0 <= first_mismatch(lengths) <= lengths.len(),
        forall|j: int| 0 <= j < first_mismatch(lengths) ==> #[trigger] lengths[j] == lengths[0],
        first_mismatch(lengths) < lengths.len() ==> lengths[first_mismatch(lengths)] != lengths[0],
        first_mismatch(lengths) == lengths.len() <==> forall|j: int| 0 <= j < lengths.len() ==> #[trigger] lengths[j] == lengths[0],
{
    lemma_first_mismatch_from(lengths, 0);
    if first_mismatch(lengths) < lengths.len() {
        let k = first_mismatch(lengths);
        assert(lengths[k] != lengths[0]);
    }
}

/// Validate the lengths of a batch: an empty batch has length 0; otherwise the vectors must be
/// non-empty and all of one length, which is returned. The error names the first vector whose
/// length differs.
pub fn validate_batch_inputs(lengths: &[usize]) -> (r: Result<usize, FftError>)
    ensures
        lengths@.len() == 0 ==> r matches Ok(0usize),
        r is Ok <==> (lengths@.len() == 0 || (lengths@[0] != 0 && forall|j: int| 0 <= j < lengths@.len() ==> #[trigger] lengths@[j] == lengths@[0])),
        lengths@.len() > 0 ==> (r is Ok <==> (lengths@[0] != 0 && first_mismatch(lengths@) == lengths@.len())),
        lengths@.len() > 0 && r is Ok ==> (r matches Ok(v) && v == lengths@[0]),
        lengths@.len() > 0 && lengths@[0] == 0 ==> (r matches Err(FftError::ValidationError(m)) && m@ == EMPTY_VECTORS_MESSAGE@),
        lengths@.len() > 0 && lengths@[0] != 0 && first_mismatch(lengths@) < lengths@.len() ==> (r matches Err(
            FftError::BatchError(m),
        ) && m@ == "all batch inputs must have the same length; input[0]="@ + decimal(lengths@[0] as nat) + ", input["@
            + decimal(first_mismatch(lengths@) as nat) + "]="@ + decimal(lengths@[first_mismatch(lengths@)] as nat)),
{
    proof {
        law_first_mismatch_is_first_difference(lengths@);
    }
    if lengths.len() == 0 {
        return Ok(0);
    }
    let n = lengths[0];
    if n == 0 {
        return Err(FftError::ValidationError(EMPTY_VECTORS_MESSAGE.to_owned()));
    }
    let mut idx: usize = 0;
    while idx < lengths.len()
        invariant
            0 <= idx <= lengths@.len(),
            n == lengths@[0],
            n != 0,
            first_mismatch_from(lengths@, idx as int) == first_mismatch(lengths@),
        decreases lengths@.len() - idx,
    {
        if lengths[idx] != n {
            let mut m = "all batch inputs must have the same length; input[0]=".to_owned();
            m.append(usize_text(n).as_str());
            m.append(", input[");
            m.append(usize_text(idx).as_str());
            m.append("]=");
            m.append(usize_text(lengths[idx]).as_str());
            return Err(FftError::BatchError(m));
        }
        idx += 1;
    }
    Ok(n)
}

} // verus!
