//! Streaming ("bucket brigade") pipeline: every stage reads a register's read buffer and
//! writes the next register's write buffer; at the end of a tick all stages toggle their
//! read and write sides at once, and the per-stage parameters advance one stage alongside
//! the data.

use vstd::prelude::*;

use crate::pipelines::FftDirection;

verus! {

/// Byte size of one complex `f32` element (`vec2<f32>`).
pub const COMPLEX_ELEMENT_BYTES: u64 = 8;

/// Number of complex elements a buffer of `size_bytes` bytes holds.
pub fn complex_elements(size_bytes: u64) -> (r: u64)
    ensures
        r == size_bytes / COMPLEX_ELEMENT_BYTES,
{
    size_bytes / COMPLEX_ELEMENT_BYTES
}

/// The per-stage parameters after one tick: the new parameters enter at the first stage and
/// every stage's parameters move to the next stage (the last stage's are dropped).
pub open spec fn spec_advance<T>(stage_params: Seq<T>, next_params: T) -> Seq<T> {
    seq![next_params] + stage_params.drop_last()
}

/// Advance the per-stage parameters by one tick: `stage_params[i]` takes the value of
/// `stage_params[i - 1]`, and `stage_params[0]` becomes `next_params`.
pub fn advance_stage_params<T>(stage_params: &mut Vec<T>, next_params: T)
    requires
        old(stage_params)@.len() > 0,
    ensures
        final(stage_params)@ == spec_advance(old(stage_params)@, next_params),
{
    stage_params.insert(0, next_params);
    let _dropped = stage_params.pop();
    assert(stage_params@ =~= spec_advance(old(stage_params)@, next_params));
}

/// The per-stage parameters after the ticks that feed `fed` in order.
pub open spec fn spec_advance_all<T>(stage_params: Seq<T>, fed: Seq<T>) -> Seq<T>
    decreases fed.len(),
{
    if fed.len() == 0 {
        stage_params
    } else {
        spec_advance(spec_advance_all(stage_params, fed.drop_last()), fed.last())
    }
}

/// Parameters travel with their data: after feeding the parameters `fed` over consecutive
/// ticks, stage `j` holds the parameters fed `j` ticks before the last one, i.e. those of the
/// data that entered the pipeline together with them and has since crossed `j` stages; the
/// number of stages never changes.
pub proof fn law_parameters_travel_with_data<T>(stage_params: Seq<T>, fed: Seq<T>)
    requires
        stage_params.len() > 0,
    ensures
        spec_advance_all(stage_params, fed).len() == stage_params.len(),
        forall|j: int| 0 <= j < stage_params.len() && j < fed.len()
            ==> #[trigger] spec_advance_all(stage_params, fed)[j] == fed[fed.len() - 1 - j],
    decreases fed.len(),
{
    if fed.len() > 0 {
        let front = fed.drop_last();
        law_parameters_travel_with_data(stage_params, front);
        let prev = spec_advance_all(stage_params, front);
        let cur = spec_advance_all(stage_params, fed);
        assert(cur == spec_advance(prev, fed.last()));
        assert forall|j: int| 0 <= j < stage_params.len() && j < fed.len()
            implies #[trigger] cur[j] == fed[fed.len() - 1 - j] by {
            if j > 0 {
                assert(cur[j] == prev[j - 1]);
                assert(front[front.len() - 1 - (j - 1)] == fed[fed.len() - 1 - j]);
            }
        }
    }
}

/// The seed of the noise of transform `index` of a batch: the base seed plus the index,
/// wrapping around.
pub fn noise_seed(base_seed: u32, index: usize) -> (r: u32)
    ensures
        r == (base_seed as int + (index as u32) as int) % 0x1_0000_0000,
{
    base_seed.wrapping_add(index as u32)
}

/// An FFT stage of the streaming pipeline (forward or inverse, no normalization).
pub struct FftStage {
    direction: FftDirection,
}

impl FftStage {
    /// The direction of this stage.
    pub closed spec fn spec_direction(&self) -> FftDirection {
        self.direction
    }

    /// A forward FFT stage.
    pub fn forward() -> (r: Self)
        ensures
            r.spec_direction() == FftDirection::Forward,
    {
        Self { direction: FftDirection::Forward }
    }

    /// An inverse FFT stage.
    pub fn inverse() -> (r: Self)
        ensures
            r.spec_direction() == FftDirection::Inverse,
    {
        Self { direction: FftDirection::Inverse }
    }

    /// The direction of this stage.
    pub fn direction(&self) -> (r: FftDirection)
        ensures
            r == self.spec_direction(),
    {
        self.direction
    }

    /// The name of this stage, `"fft"` in both directions.
    pub fn name(&self) -> (r: &'static str)
        ensures
            r@ == "fft"@,
    {
        "fft"
    }
}

/// Stage that copies each input to its output and normalizes it in place (divides by N).
pub struct NormalizeStage;

impl NormalizeStage {
    /// The name of this stage, `"normalize"`.
    pub fn name(&self) -> (r: &'static str)
        ensures
            r@ == "normalize"@,
    {
        "normalize"
    }
}

} // verus!
