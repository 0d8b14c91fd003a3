//! Planning logic of the Stockham Radix-4/2 GPU FFT engine.

use vstd::prelude::*;
use vstd::arithmetic::power2::pow2;
use vstd::arithmetic::power2::is_pow2;
use vstd::std_specs::bits::u64_trailing_zeros;
use vstd::std_specs::bits::axiom_u64_trailing_zeros;
use vstd::bits::lemma_u64_shl_is_mul;
use vstd::bits::lemma_u64_pow2_no_overflow;
use vstd::arithmetic::power2::is_pow2_equiv;
use vstd::arithmetic::power2::is_pow2_exists;
use vstd::arithmetic::power2::lemma_pow2;
use vstd::arithmetic::power2::lemma_pow2_strictly_increases;
use vstd::arithmetic::power2::lemma2_to64;

use vstd::bits::lemma_u32_shl_is_mul;
use vstd::bits::lemma_u32_pow2_no_overflow;
use vstd::arithmetic::div_mod::lemma_fundamental_div_mod;
use vstd::arithmetic::div_mod::lemma_fundamental_div_mod_converse;

use crate::error::FftError;
use crate::uniforms::UniformWords;
use crate::uniforms::words_le_bytes;
use crate::uniforms::words_be_bytes;

verus! {

/// Whether `n` is a power of two.
pub fn is_power_of_two(n: usize) -> (r: bool)
    ensures
        r == is_pow2(n as int),
{
    if n == 0 {
        proof {
            reveal(is_pow2);
        }
        return false;
    }
    proof {
        lemma_bit_trick_is_pow2(n);
    }
    (n & (n - 1)) == 0
}

/// For positive `n`, `n & (n - 1)` clears the lowest set bit, so it is zero exactly for powers of two.
proof fn lemma_bit_trick_is_pow2(n: usize)
    requires
        n > 0,
    ensures
        (n & ((n - 1) as usize)) == 0usize <==> is_pow2(n as int),
    decreases n,
{
    reveal(is_pow2);
    if n == 1 {
        assert(1usize & 0usize == 0usize) by (bit_vector);
    } else if n % 2 == 1 {
        assert((n & ((n - 1) as usize)) == ((n - 1) as usize)) by (bit_vector)
            requires
                n % 2 == 1,
                n > 1,
        ;
    } else {
        let m: usize = n / 2;
        assert(((n & ((n - 1) as usize)) == 0usize) <==> ((m & ((m - 1) as usize)) == 0usize)) by (bit_vector)
            requires
                n % 2 == 0,
                n >= 2,
                m == n / 2,
        ;
        lemma_bit_trick_is_pow2(m);
    }
}


/// Number of trailing zero bits of `n` (`usize::BITS` for zero).
pub open spec fn spec_trailing_zeros(n: usize) -> u32 {
    if n == 0 { usize::BITS } else { u64_trailing_zeros(n as u64) }
}

/// Number of trailing zero bits of `n` (`usize::BITS` for zero); for a power of two this is its base-2 logarithm.
pub fn trailing_zeros(n: usize) -> (r: u32)
    ensures
        r == spec_trailing_zeros(n),
{
    if n == 0 {
        usize::BITS
    } else {
        (n as u64).trailing_zeros()
    }
}

/// The trailing-zero count of `2^k` is `k`.
proof fn lemma_trailing_zeros_of_pow2(k: nat)
    requires
        k < 64,
    ensures
        u64_trailing_zeros(pow2(k) as u64) == k,
{
    lemma_u64_pow2_no_overflow(k);
    let kk: u64 = k as u64;
    lemma_u64_shl_is_mul(1u64, kk);
    let x: u64 = pow2(k) as u64;
    assert(x == 1u64 << kk);
    axiom_u64_trailing_zeros(x);
    let t: u64 = u64_trailing_zeros(x) as u64;
    assert(((x >> t) & 1u64) == 1u64 ==> t == kk) by (bit_vector)
        requires
            x == 1u64 << kk,
            kk < 64,
            t < 64,
    ;
}

/// A power of two that fits in a `usize` is `2^k` for a unique `k < 64`, namely its trailing-zero count.
pub proof fn lemma_pow2_log(n: usize)
    requires
        is_pow2(n as int),
    ensures
        u64_trailing_zeros(n as u64) < 64,
        pow2(u64_trailing_zeros(n as u64) as nat) == n,
{
    is_pow2_equiv(n as int);
    assert(is_pow2_exists(n as int));
    let k: nat = choose|i: nat| vstd::arithmetic::power::pow(2, i) == n as int;
    lemma_pow2(k);
    if k >= 64 {
        lemma2_to64();
        if k > 64 {
            lemma_pow2_strictly_increases(64, k);
        }
        assert(false);
    }
    lemma_trailing_zeros_of_pow2(k);
}

/// Validate that the input size is non-zero (arbitrary non-zero sizes are supported).
pub fn validate_input_size(n: usize) -> (r: Result<(), FftError>)
    ensures
        r is Ok <==> n != 0,
        n == 0 ==> (r matches Err(FftError::ValidationError(m)) && m@ == NONZERO_LENGTH_MESSAGE@),
{
    if n == 0 {
        return Err(FftError::ValidationError(NONZERO_LENGTH_MESSAGE.to_owned()));
    }
    Ok(())
}

/// Message of the error returned for a zero transform length.
pub const NONZERO_LENGTH_MESSAGE: &'static str = "Transform length must be non-zero";

/// Message of the error returned for a batch whose vectors differ in length.
pub const SAME_LENGTH_MESSAGE: &'static str = "All input vectors in a batch must have the same length";

/// Every length in the sequence equals the first one.
pub open spec fn lengths_agree(lengths: Seq<usize>) -> bool {
    forall|i: int| 0 <= i < lengths.len() ==> #[trigger] lengths[i] == lengths[0]
}

/// Validate that all vectors of a (non-empty) batch, given by their lengths, have the same non-zero length.
pub fn validate_batch_lengths(lengths: &[usize]) -> (r: Result<(), FftError>)
    requires
        lengths@.len() > 0,
    ensures
        r is Ok <==> (lengths@[0] != 0 && lengths_agree(lengths@)),
        r is Ok <==> (lengths@[0] != 0 && forall|i: int| 0 <= i < lengths@.len() ==> #[trigger] lengths@[i] == lengths@[0]),
        lengths@[0] == 0 ==> (r matches Err(FftError::ValidationError(m)) && m@ == NONZERO_LENGTH_MESSAGE@),
        (lengths@[0] != 0 && !lengths_agree(lengths@)) ==> (r matches Err(FftError::BatchError(m)) && m@ == SAME_LENGTH_MESSAGE@),
{
    let n = lengths[0];
    let mut i: usize = 0;
    while i < lengths.len()
        invariant
            0 <= i <= lengths@.len(),
            n == lengths@[0],
            i > 0 ==> n != 0,
            forall|j: int| 0 <= j < i ==> #[trigger] lengths@[j] == n,
        decreases lengths@.len() - i,
    {
        if lengths[i] != n {
            return Err(FftError::BatchError(SAME_LENGTH_MESSAGE.to_owned()));
        }
        match validate_input_size(lengths[i]) {
            Ok(()) => {},
            Err(e) => {
                return Err(e);
            },
        }
        i += 1;
    }
    Ok(())
}

/// How a batch transform is carried out, as decided from the lengths of its input vectors.
#[derive(Debug, Clone, Copy, PartialEq, Eq, Structural)]
pub enum TransformRoute {
    /// No input vectors: the result is an empty batch.
    Empty,
    /// Power-of-two length `n = 2^log_n`: the Stockham Radix-4/2 GPU path.
    PowerOfTwo { n: usize, log_n: u32, batch_size: u32 },
    /// Any other non-zero length: Bluestein's algorithm.
    Arbitrary { n: usize },
}

/// Decide how a batch of vectors with the given lengths is transformed.
///
/// An empty batch gives an empty result; otherwise all vectors must share one non-zero
/// length, and power-of-two lengths take the Stockham path while all others use Bluestein.
/// A zero length is reported as a `ValidationError` (a transform of empty vectors is an
/// error, not a panic); vectors of different lengths are reported as a `BatchError`, which
/// the GPU engine's `fft` and `ifft` turn into the panic their documentation promises.
pub fn plan_transform(lengths: &[usize]) -> (r: Result<TransformRoute, FftError>)
    ensures
        lengths@.len() == 0 ==> r == Ok::<TransformRoute, FftError>(TransformRoute::Empty),
        lengths@.len() > 0 ==> {
            let n = lengths@[0];
            &&& (r is Ok <==> (n != 0 && lengths_agree(lengths@)))
            &&& (r is Ok <==> (n != 0 && forall|i: int| 0 <= i < lengths@.len() ==> #[trigger] lengths@[i] == n))
            &&& n == 0 ==> (r matches Err(FftError::ValidationError(m)) && m@ == NONZERO_LENGTH_MESSAGE@)
            &&& (n != 0 && !lengths_agree(lengths@)) ==> (r matches Err(FftError::BatchError(m)) && m@ == SAME_LENGTH_MESSAGE@)
            &&& (r is Ok && is_pow2(n as int)) ==> (r matches Ok(TransformRoute::PowerOfTwo { n: rn, log_n, batch_size })
                    && rn == n && pow2(log_n as nat) == n && batch_size == lengths@.len() as u32)
            &&& (r is Ok && !is_pow2(n as int)) ==> r == Ok::<TransformRoute, FftError>(TransformRoute::Arbitrary { n })
        },
{
    if lengths.len() == 0 {
        return Ok(TransformRoute::Empty);
    }
    match validate_batch_lengths(lengths) {
        Ok(()) => {},
        Err(e) => {
            return Err(e);
        },
    }
    let n = lengths[0];
    let batch_size = lengths.len() as u32;
    if is_power_of_two(n) {
        proof {
            lemma_pow2_log(n);
        }
        let log_n = trailing_zeros(n);
        return Ok(TransformRoute::PowerOfTwo { n, log_n, batch_size });
    }
    Ok(TransformRoute::Arbitrary { n })
}


/// Number of components in a complex number (real and imaginary).
pub const COMPLEX_COMPONENT_COUNT: usize = 2;

/// Byte size of an `f32`.
pub const F32_BYTE_SIZE: usize = 4;

/// Number of invocations in every workgroup of the FFT kernels.
pub const WORKGROUP_SIZE: u32 = 256;

/// Largest number of transforms the pre-allocated buffers of one size hold.
pub const MAX_PREALLOCATED_BATCH: u64 = 1024;

/// Byte size of one [`FftUniforms`] entry.
pub const UNIFORM_ENTRY_BYTES: u64 = 16;

/// `a / b` rounded up.
pub open spec fn div_ceil(a: int, b: int) -> int {
    (a + b - 1) / b
}

/// Rounding up `a / b`: the quotient plus one exactly when the division leaves a remainder.
pub proof fn lemma_div_ceil(a: int, b: int)
    requires
        a >= 0,
        b > 0,
    ensures
        div_ceil(a, b) == a / b + (if a % b == 0 { 0int } else { 1int }),
        div_ceil(a, b) >= 0,
        div_ceil(a, b) * b >= a,
        (div_ceil(a, b) - 1) * b < a || a == 0,
        div_ceil(a, b) <= a || a == 0,
{
    lemma_fundamental_div_mod(a, b);
    let q = a / b;
    let r = a % b;
    assert(b * q == q * b) by (nonlinear_arith);
    assert((q + 1) * b == q * b + b) by (nonlinear_arith);
    assert((q - 1) * b == q * b - b) by (nonlinear_arith);
    assert(q >= 0) by (nonlinear_arith)
        requires
            a >= 0,
            b > 0,
            a == q * b + r,
            0 <= r < b,
    ;
    if r == 0 {
        lemma_fundamental_div_mod_converse(a + b - 1, b, q, b - 1);
        assert(q <= q * b) by (nonlinear_arith)
            requires
                q >= 0,
                b >= 1,
        ;
    } else {
        lemma_fundamental_div_mod_converse(a + b - 1, b, q + 1, r - 1);
        assert(q + 1 <= q * b + r) by (nonlinear_arith)
            requires
                q >= 0,
                b >= 1,
                r >= 1,
        ;
    }
}

/// `a / b` rounded up, for 32-bit operands.
pub fn div_ceil_u32(a: u32, b: u32) -> (r: u32)
    requires
        b > 0,
    ensures
        r == div_ceil(a as int, b as int),
{
    proof {
        lemma_div_ceil(a as int, b as int);
    }
    if a % b == 0 {
        a / b
    } else {
        a / b + 1
    }
}

/// `a / b` rounded up, for 64-bit operands.
pub fn div_ceil_u64(a: u64, b: u64) -> (r: u64)
    requires
        b > 0,
    ensures
        r == div_ceil(a as int, b as int),
{
    proof {
        lemma_div_ceil(a as int, b as int);
    }
    if a % b == 0 {
        a / b
    } else {
        a / b + 1
    }
}

/// Number of workgroups needed to run `threads` invocations.
pub fn workgroup_count(threads: u32) -> (r: u32)
    ensures
        r == div_ceil(threads as int, WORKGROUP_SIZE as int),
        r * WORKGROUP_SIZE >= threads,
        threads == 0 || (r - 1) * WORKGROUP_SIZE < threads,
{
    proof {
        lemma_div_ceil(threads as int, WORKGROUP_SIZE as int);
    }
    div_ceil_u32(threads, WORKGROUP_SIZE)
}

/// Uniforms passed to the FFT compute shaders (one 16-byte entry per stage).
#[derive(Debug, Clone, Copy, PartialEq, Eq, Structural)]
pub struct FftUniforms {
    pub n: u32,
    pub stage: u32,
    pub log_n: u32,
    pub _pad: u32,
}

impl FftUniforms {
    /// The four words in shader order `(n, stage, log_n, _pad)`.
    pub open spec fn spec_words(self) -> UniformWords {
        UniformWords { x: self.n, y: self.stage, z: self.log_n, w: self._pad }
    }

    /// The four words in shader order `(n, stage, log_n, _pad)`.
    pub fn to_words(&self) -> (r: UniformWords)
        ensures
            r == self.spec_words(),
    {
        UniformWords { x: self.n, y: self.stage, z: self.log_n, w: self._pad }
    }

    /// The 16 bytes of this entry as written to the uniform buffer (native byte order).
    pub fn to_bytes(&self) -> (r: Vec<u8>)
        ensures
            r@ == words_le_bytes(self.spec_words().spec_words()) || r@ == words_be_bytes(self.spec_words().spec_words()),
            r@.len() == 16,
    {
        self.to_words().to_bytes()
    }
}

/// Number of Radix-4 stages: `log2(N) / 2` in Radix-4 mode, none in the single-kernel (legacy) mode.
pub open spec fn r4_stage_count(is_r4_mode: bool, log_n: u32) -> nat {
    if is_r4_mode {
        (log_n / 2) as nat
    } else {
        0
    }
}

/// Whether a final Radix-2 stage follows the Radix-4 stages (Radix-4 mode with odd `log2(N)`).
pub open spec fn has_r2_stage(is_r4_mode: bool, log_n: u32) -> bool {
    is_r4_mode && log_n % 2 == 1
}

/// Total number of stages: Radix-4 stages plus the optional Radix-2 stage, or `log2(N)` Radix-2 stages in legacy mode.
pub open spec fn total_stage_count(is_r4_mode: bool, log_n: u32) -> nat {
    if is_r4_mode {
        r4_stage_count(is_r4_mode, log_n) + (if has_r2_stage(is_r4_mode, log_n) { 1nat } else { 0nat })
    } else {
        log_n as nat
    }
}

/// Calculate the number of Radix-4 stages.
pub fn calculate_num_r4_stages(is_r4_mode: bool, log_n: u32) -> (r: usize)
    ensures
        r == r4_stage_count(is_r4_mode, log_n),
{
    if is_r4_mode {
        return (log_n / 2) as usize;
    }
    0
}

/// Calculate the total number of stages.
pub fn calculate_total_stages(is_r4_mode: bool, num_r4: usize, has_r2: bool, log_n: u32) -> (r: usize)
    requires
        num_r4 < usize::MAX,
    ensures
        r == (if is_r4_mode { num_r4 as nat + (if has_r2 { 1nat } else { 0nat }) } else { log_n as nat }),
{
    if is_r4_mode {
        return num_r4 + if has_r2 { 1 } else { 0 };
    }
    log_n as usize
}

/// Calculate the number of twiddle factors: `N` in Radix-4 mode, `N / 2` in legacy mode.
pub fn calculate_twiddle_count(is_r4_mode: bool, n: usize) -> (r: usize)
    ensures
        r == (if is_r4_mode { n as nat } else { (n / 2) as nat }),
{
    if is_r4_mode {
        return n;
    }
    n / 2
}

/// Sizes of the data buffers of one FFT size.
#[derive(Debug, Clone, Copy, PartialEq, Eq, Structural)]
pub struct DataBufferPlan {
    /// Bytes of one transform (`N` interleaved complex `f32` values).
    pub single_fft_bytes: u64,
    /// Number of transforms the data buffers hold.
    pub max_batch_size: u32,
    /// Byte size of each data buffer.
    pub data_bytes: u64,
}

/// Number of transforms of `n` complex `f32` values that pre-allocated buffers hold: as many as
/// fit in one storage binding, but at most [`MAX_PREALLOCATED_BATCH`].
pub open spec fn batch_capacity(n: usize, max_storage_binding_size: u64) -> int {
    if max_storage_binding_size as int / (n as int * 8) < MAX_PREALLOCATED_BATCH {
        max_storage_binding_size as int / (n as int * 8)
    } else {
        MAX_PREALLOCATED_BATCH as int
    }
}

/// Size the data buffers of transforms of length `n` for a device whose storage bindings hold
/// at most `max_storage_binding_size` bytes.
pub fn plan_data_buffers(n: usize, max_storage_binding_size: u64) -> (r: DataBufferPlan)
    requires
        n > 0,
        n as int * 8 <= u64::MAX,
    ensures
        r.single_fft_bytes == n as int * 8,
        r.max_batch_size == batch_capacity(n, max_storage_binding_size),
        r.data_bytes == r.single_fft_bytes * r.max_batch_size,
        r.data_bytes <= max_storage_binding_size,
{
    assert(n as u64 * 2 <= n as int * 8);
    let single_fft_bytes = n as u64 * COMPLEX_COMPONENT_COUNT as u64 * F32_BYTE_SIZE as u64;
    let capacity = max_storage_binding_size / single_fft_bytes;
    let max_batch_size = capacity.min(MAX_PREALLOCATED_BATCH) as u32;
    proof {
        lemma_fundamental_div_mod(max_storage_binding_size as int, single_fft_bytes as int);
        assert(max_batch_size * single_fft_bytes <= capacity * single_fft_bytes) by (nonlinear_arith)
            requires
                max_batch_size <= capacity,
        ;
        assert(capacity * single_fft_bytes <= max_storage_binding_size) by (nonlinear_arith)
            requires
                max_storage_binding_size == single_fft_bytes * capacity + max_storage_binding_size % single_fft_bytes,
                max_storage_binding_size % single_fft_bytes >= 0,
        ;
        assert(single_fft_bytes * max_batch_size == max_batch_size * single_fft_bytes) by (nonlinear_arith);
    }
    let data_bytes = single_fft_bytes * max_batch_size as u64;
    DataBufferPlan { single_fft_bytes, max_batch_size, data_bytes }
}

/// Distance between consecutive uniform entries: the entry size rounded up to a multiple of
/// the device's uniform offset alignment.
pub fn uniform_stride(alignment: u64) -> (r: u64)
    requires
        0 < alignment <= u32::MAX,
    ensures
        r == uniform_stride_for(alignment),
        r % alignment == 0,
        UNIFORM_ENTRY_BYTES <= r < UNIFORM_ENTRY_BYTES + alignment,
{
    proof {
        lemma_div_ceil(UNIFORM_ENTRY_BYTES as int, alignment as int);
        let d = div_ceil(UNIFORM_ENTRY_BYTES as int, alignment as int);
        assert(d <= UNIFORM_ENTRY_BYTES);
        assert(d * alignment <= UNIFORM_ENTRY_BYTES * u32::MAX) by (nonlinear_arith)
            requires
                d <= UNIFORM_ENTRY_BYTES,
                0 < alignment <= u32::MAX,
                d >= 0,
        ;
        assert((d - 1) * alignment == d * alignment - alignment) by (nonlinear_arith);
        vstd::arithmetic::div_mod::lemma_mod_multiples_basic(d, alignment as int);
    }
    div_ceil_u64(UNIFORM_ENTRY_BYTES, alignment) * alignment
}

/// The bind group of one stage: which uniform slot it reads its parameters from, and
/// whether it reads buffer A (writing B) or reads buffer B (writing A).
#[derive(Debug, Clone, Copy, PartialEq, Eq, Structural)]
pub struct StageBinding {
    /// Index of the uniform entry of this stage.
    pub slot: usize,
    /// Byte offset of that entry in the uniform buffer.
    pub uniform_offset: u64,
    /// `true`: read A, write B; `false`: read B, write A.
    pub reads_a: bool,
}

/// The binding of the stage with uniform slot `slot`: even slots read A, odd slots read B.
pub open spec fn binding_at(slot: nat, stride: u64) -> StageBinding {
    StageBinding { slot: slot as usize, uniform_offset: (stride * slot) as u64, reads_a: slot % 2 == 0 }
}

/// One uniform entry and the byte offset at which it is written.
#[derive(Debug, Clone, Copy, PartialEq, Eq, Structural)]
pub struct UniformWrite {
    pub offset: u64,
    pub uniforms: FftUniforms,
}

/// Everything about the GPU resources of one FFT size that does not need a device:
/// buffer sizes, the per-stage uniforms, the ping-pong bindings of the stages, the
/// buffer that holds the result and the workgroup counts.
#[derive(Debug)]
pub struct SizeCachePlan {
    /// Bytes of one transform (`N` interleaved complex `f32` values).
    pub single_fft_bytes: u64,
    /// Number of transforms the data buffers hold.
    pub max_batch_size: u32,
    /// Byte size of each data buffer (A, B and the staging buffer).
    pub data_bytes: u64,
    /// Number of twiddle factors.
    pub twiddle_count: usize,
    /// Distance between two uniform entries, respecting the device's offset alignment.
    pub uniform_stride: u64,
    /// Byte size of the uniform buffer.
    pub uniform_buffer_size: u64,
    /// The uniform entries, one per stage, in stage order.
    pub uniforms: Vec<UniformWrite>,
    /// Radix-4 stages (Radix-4 mode) or Radix-2 stages (legacy mode).
    pub stage_bindings: Vec<StageBinding>,
    /// Final Radix-2 stage when `log2(N)` is odd (Radix-4 mode only).
    pub r2_binding: Option<StageBinding>,
    /// Whether the result ends up in buffer B.
    pub result_in_b: bool,
    /// Workgroup count for `N / 2` butterflies.
    pub wg_n2: u32,
    /// Workgroup count for `N / 4` butterflies; 0 in legacy mode.
    pub wg_r4: u32,
}

/// Uniform stride for a device whose uniform offsets must be multiples of `alignment`.
pub open spec fn uniform_stride_for(alignment: u64) -> int {
    div_ceil(UNIFORM_ENTRY_BYTES as int, alignment as int) * alignment
}

/// Number of uniform entries the uniform buffer is sized for (at least one).
pub open spec fn uniform_slot_count(is_r4_mode: bool, log_n: u32) -> nat {
    if total_stage_count(is_r4_mode, log_n) > 1 { total_stage_count(is_r4_mode, log_n) } else { 1 }
}

/// The uniforms of the stage with stride (Radix-4 mode) or index (legacy mode) `stage`.
pub open spec fn stage_uniforms(n: usize, log_n: u32, stage: u32) -> FftUniforms {
    FftUniforms { n: n as u32, stage, log_n, _pad: 0 }
}

/// The requirements under which a size plan can be computed without overflow.
pub open spec fn size_plan_inputs_ok(n: usize, log_n: u32, is_r4_mode: bool, alignment: u64) -> bool {
    &&& n > 0
    &&& n as int * 8 <= u64::MAX
    &&& 0 < alignment <= u32::MAX
    &&& is_r4_mode ==> log_n <= 32
    &&& uniform_stride_for(alignment) * uniform_slot_count(is_r4_mode, log_n) <= u64::MAX
}

/// `p` is the resource plan that [`plan_size_cache`] computes for these inputs.
pub open spec fn is_size_plan(
    p: SizeCachePlan,
    n: usize,
    log_n: u32,
    is_r4_mode: bool,
    max_storage_binding_size: u64,
    uniform_offset_alignment: u64,
) -> bool {
    &&& p.single_fft_bytes == n as int * 8
    &&& p.max_batch_size == batch_capacity(n, max_storage_binding_size)
    &&& p.data_bytes == p.single_fft_bytes * p.max_batch_size
    &&& p.data_bytes <= max_storage_binding_size
    &&& p.twiddle_count == (if is_r4_mode { n as nat } else { (n / 2) as nat })
    &&& p.uniform_stride == uniform_stride_for(uniform_offset_alignment)
    &&& p.uniform_stride % uniform_offset_alignment == 0
    &&& p.uniform_stride >= UNIFORM_ENTRY_BYTES
    &&& p.uniform_buffer_size == p.uniform_stride * uniform_slot_count(is_r4_mode, log_n)
    &&& p.uniforms@.len() == total_stage_count(is_r4_mode, log_n)
    &&& forall|s: int| 0 <= s < p.uniforms@.len() ==> #[trigger] p.uniforms@[s].offset == p.uniform_stride * s
    &&& is_r4_mode ==> forall|s: int| 0 <= s < r4_stage_count(is_r4_mode, log_n)
        ==> #[trigger] p.uniforms@[s].uniforms == stage_uniforms(n, log_n, pow2(2 * s as nat) as u32)
    &&& has_r2_stage(is_r4_mode, log_n) ==> p.uniforms@[r4_stage_count(is_r4_mode, log_n) as int].uniforms
        == stage_uniforms(n, log_n, pow2(2 * r4_stage_count(is_r4_mode, log_n)) as u32)
    &&& !is_r4_mode ==> forall|s: int| 0 <= s < log_n
        ==> #[trigger] p.uniforms@[s].uniforms == stage_uniforms(n, log_n, s as u32)
    &&& p.stage_bindings@.len() == (if is_r4_mode { r4_stage_count(is_r4_mode, log_n) } else { log_n as nat })
    &&& forall|s: int| 0 <= s < p.stage_bindings@.len()
        ==> #[trigger] p.stage_bindings@[s] == binding_at(s as nat, p.uniform_stride)
    &&& p.r2_binding == (if has_r2_stage(is_r4_mode, log_n) {
        Some(binding_at(r4_stage_count(is_r4_mode, log_n), p.uniform_stride))
    } else {
        None
    })
    &&& p.result_in_b == (total_stage_count(is_r4_mode, log_n) % 2 == 1)
    &&& p.wg_n2 == div_ceil(((n as u32) / 2) as int, WORKGROUP_SIZE as int)
    &&& p.wg_r4 == (if is_r4_mode { div_ceil(((n as u32) / 4) as int, WORKGROUP_SIZE as int) } else { 0 })
}

/// Plan the GPU resources of one FFT size: buffer sizes, the uniform entry of every
/// stage, which ping-pong buffer each stage reads, where the result ends up and how many
/// workgroups each dispatch needs.
///
/// In Radix-4 mode there are `log2(N) / 2` Radix-4 stages, stage `s` with stride `4^s`,
/// followed (for odd `log2(N)`) by one Radix-2 stage with stride `4^(log2(N) / 2)`.
/// In legacy mode there are `log2(N)` stages whose uniforms carry the stage index.
pub fn plan_size_cache(
    n: usize,
    log_n: u32,
    is_r4_mode: bool,
    max_storage_binding_size: u64,
    uniform_offset_alignment: u64,
) -> (p: SizeCachePlan)
    requires
        size_plan_inputs_ok(n, log_n, is_r4_mode, uniform_offset_alignment),
    ensures
        is_size_plan(p, n, log_n, is_r4_mode, max_storage_binding_size, uniform_offset_alignment),
{
    let num_r4 = calculate_num_r4_stages(is_r4_mode, log_n);
    let has_r2 = is_r4_mode && log_n % 2 == 1;
    let total_stages = calculate_total_stages(is_r4_mode, num_r4, has_r2, log_n);

    let buffers = plan_data_buffers(n, max_storage_binding_size);
    let single_fft_bytes = buffers.single_fft_bytes;
    let max_batch_size = buffers.max_batch_size;
    let data_bytes = buffers.data_bytes;
    let twiddle_count = calculate_twiddle_count(is_r4_mode, n);
    let uniform_stride = uniform_stride(uniform_offset_alignment);
    let slot_count = if total_stages > 1 { total_stages } else { 1 };
    let uniform_buffer_size = uniform_stride * slot_count as u64;

    let n32 = n as u32;
    let mut uniforms: Vec<UniformWrite> = Vec::new();
    let mut stage_bindings: Vec<StageBinding> = Vec::new();
    let r2_binding: Option<StageBinding>;
    let result_in_b: bool;
    let wg_r4: u32;
    if is_r4_mode {
        let mut s: usize = 0;
        while s < num_r4
            invariant
                is_r4_mode,
                log_n <= 32,
                num_r4 == r4_stage_count(is_r4_mode, log_n),
                slot_count >= total_stages,
                total_stages == total_stage_count(is_r4_mode, log_n),
                uniform_stride * slot_count <= u64::MAX,
                n32 == n as u32,
                0 <= s <= num_r4,
                uniforms@.len() == s,
                stage_bindings@.len() == s,
                forall|j: int| 0 <= j < s ==> #[trigger] uniforms@[j].offset == uniform_stride * j,
                forall|j: int| 0 <= j < s ==> #[trigger] uniforms@[j].uniforms == stage_uniforms(n, log_n, pow2(2 * j as nat) as u32),
                forall|j: int| 0 <= j < s ==> #[trigger] stage_bindings@[j] == binding_at(j as nat, uniform_stride),
            decreases num_r4 - s,
        {
            let shift = (s as u32) * 2;
            proof {
                lemma_u32_pow2_no_overflow(shift as nat);
                lemma_u32_shl_is_mul(1u32, shift);
                assert(uniform_stride * s <= uniform_stride * slot_count) by (nonlinear_arith)
                    requires
                        s < slot_count,
                ;
            }
            let p = 1u32 << shift;
            let offset = uniform_stride * s as u64;
            uniforms.push(UniformWrite { offset, uniforms: FftUniforms { n: n32, stage: p, log_n, _pad: 0 } });
            stage_bindings.push(StageBinding { slot: s, uniform_offset: offset, reads_a: s % 2 == 0 });
            s += 1;
        }
        if has_r2 {
            let shift = (num_r4 as u32) * 2;
            proof {
                lemma_u32_pow2_no_overflow(shift as nat);
                lemma_u32_shl_is_mul(1u32, shift);
                assert(uniform_stride * num_r4 <= uniform_stride * slot_count) by (nonlinear_arith)
                    requires
                        num_r4 < slot_count,
                ;
            }
            let p = 1u32 << shift;
            let offset = uniform_stride * num_r4 as u64;
            uniforms.push(UniformWrite { offset, uniforms: FftUniforms { n: n32, stage: p, log_n, _pad: 0 } });
            r2_binding = Some(StageBinding { slot: num_r4, uniform_offset: offset, reads_a: num_r4 % 2 == 0 });
        } else {
            r2_binding = None;
        }
        result_in_b = total_stages % 2 == 1;
        wg_r4 = workgroup_count(n32 / 4);
    } else {
        let mut stage: u32 = 0;
        while stage < log_n
            invariant
                !is_r4_mode,
                slot_count >= total_stages,
                total_stages == log_n,
                uniform_stride * slot_count <= u64::MAX,
                n32 == n as u32,
                0 <= stage <= log_n,
                uniforms@.len() == stage,
                stage_bindings@.len() == stage,
                forall|j: int| 0 <= j < stage ==> #[trigger] uniforms@[j].offset == uniform_stride * j,
                forall|j: int| 0 <= j < stage ==> #[trigger] uniforms@[j].uniforms == stage_uniforms(n, log_n, j as u32),
                forall|j: int| 0 <= j < stage ==> #[trigger] stage_bindings@[j] == binding_at(j as nat, uniform_stride),
            decreases log_n - stage,
        {
            proof {
                assert(uniform_stride * stage <= uniform_stride * slot_count) by (nonlinear_arith)
                    requires
                        stage < slot_count,
                ;
            }
            let offset = uniform_stride * stage as u64;
            uniforms.push(UniformWrite { offset, uniforms: FftUniforms { n: n32, stage, log_n, _pad: 0 } });
            stage_bindings.push(StageBinding { slot: stage as usize, uniform_offset: offset, reads_a: stage % 2 == 0 });
            stage += 1;
        }
        r2_binding = None;
        result_in_b = log_n % 2 == 1;
        wg_r4 = 0;
    }
    let wg_n2 = workgroup_count(n32 / 2);

    SizeCachePlan {
        single_fft_bytes,
        max_batch_size,
        data_bytes,
        twiddle_count,
        uniform_stride,
        uniform_buffer_size,
        uniforms,
        stage_bindings,
        r2_binding,
        result_in_b,
        wg_n2,
        wg_r4,
    }
}


/// Which compute pipeline a dispatch runs.
#[derive(Debug, Clone, Copy, PartialEq, Eq, Structural)]
pub enum ComputeKernel {
    /// The engine's main kernel (Radix-4 in Radix-4 mode, the custom Radix-2 kernel in legacy mode).
    Main,
    /// The Radix-2 kernel of the final stage for odd `log2(N)`.
    Radix2,
}

/// One compute dispatch of a transform: kernel, bind group and number of workgroups along x
/// (the batch index runs along y).
#[derive(Debug, Clone, Copy, PartialEq, Eq, Structural)]
pub struct Dispatch {
    pub kernel: ComputeKernel,
    pub binding: StageBinding,
    pub workgroups_x: u32,
}

impl SizeCachePlan {
    /// The dispatches of one transform, in order.
    ///
    /// Every stage runs the main kernel, with the Radix-4 workgroup count when it is non-zero
    /// (Radix-4 mode) and the `N / 2` workgroup count otherwise (legacy mode); the final Radix-2
    /// stage, when the plan has one, follows with the `N / 2` workgroup count.
    pub open spec fn spec_dispatches(self) -> Seq<Dispatch> {
        let main_wg = if self.wg_r4 > 0 { self.wg_r4 } else { self.wg_n2 };
        let mains = self.stage_bindings@.map_values(
            |b: StageBinding| Dispatch { kernel: ComputeKernel::Main, binding: b, workgroups_x: main_wg },
        );
        if self.r2_binding is Some {
            mains.push(Dispatch { kernel: ComputeKernel::Radix2, binding: self.r2_binding->0, workgroups_x: self.wg_n2 })
        } else {
            mains
        }
    }

    /// The compute dispatches of one transform, in order.
    pub fn dispatches(&self) -> (r: Vec<Dispatch>)
        ensures
            r@ == self.spec_dispatches(),
    {
        let mut r: Vec<Dispatch> = Vec::new();
        let main_wg = if self.wg_r4 > 0 { self.wg_r4 } else { self.wg_n2 };
        let mut i: usize = 0;
        while i < self.stage_bindings.len()
            invariant
                0 <= i <= self.stage_bindings@.len(),
                main_wg == (if self.wg_r4 > 0 { self.wg_r4 } else { self.wg_n2 }),
                r@ == self.stage_bindings@.take(i as int).map_values(
                    |b: StageBinding| Dispatch { kernel: ComputeKernel::Main, binding: b, workgroups_x: main_wg },
                ),
            decreases self.stage_bindings@.len() - i,
        {
            r.push(Dispatch { kernel: ComputeKernel::Main, binding: self.stage_bindings[i], workgroups_x: main_wg });
            i += 1;
            assert(self.stage_bindings@.take(i as int) =~= self.stage_bindings@.take(i - 1).push(self.stage_bindings@[i - 1]));
        }
        assert(self.stage_bindings@.take(i as int) =~= self.stage_bindings@);
        match self.r2_binding {
            Some(b) => {
                r.push(Dispatch { kernel: ComputeKernel::Radix2, binding: b, workgroups_x: self.wg_n2 });
            },
            None => {},
        }
        r
    }
}

/// Base-2 logarithm of the radix of a kernel: the main kernel is Radix-4 in Radix-4 mode and
/// Radix-2 in legacy mode; the final-stage kernel is Radix-2.
pub open spec fn kernel_log2_radix(is_r4_mode: bool, kernel: ComputeKernel) -> nat {
    match kernel {
        ComputeKernel::Main => if is_r4_mode { 2 } else { 1 },
        ComputeKernel::Radix2 => 1,
    }
}

/// Sum of the base-2 logarithms of the radices of a sequence of dispatches, i.e. the
/// base-2 logarithm of the product of their radices.
pub open spec fn dispatched_log2(is_r4_mode: bool, ds: Seq<Dispatch>) -> nat
    decreases ds.len(),
{
    if ds.len() == 0 {
        0
    } else {
        dispatched_log2(is_r4_mode, ds.drop_last()) + kernel_log2_radix(is_r4_mode, ds.last().kernel)
    }
}

/// A run of main-kernel dispatches has radix product `radix^count`.
proof fn lemma_dispatched_log2_mains(is_r4_mode: bool, ds: Seq<Dispatch>)
    requires
        forall|i: int| 0 <= i < ds.len() ==> #[trigger] ds[i].kernel == ComputeKernel::Main,
    ensures
        dispatched_log2(is_r4_mode, ds) == ds.len() * kernel_log2_radix(is_r4_mode, ComputeKernel::Main),
    decreases ds.len(),
{
    if ds.len() > 0 {
        let front = ds.drop_last();
        assert forall|i: int| 0 <= i < front.len() implies #[trigger] front[i].kernel == ComputeKernel::Main by {
            assert(front[i] == ds[i]);
        }
        lemma_dispatched_log2_mains(is_r4_mode, front);
        assert(ds.last().kernel == ComputeKernel::Main);
        assert((ds.len() - 1) * kernel_log2_radix(is_r4_mode, ComputeKernel::Main) + kernel_log2_radix(is_r4_mode, ComputeKernel::Main)
            == ds.len() * kernel_log2_radix(is_r4_mode, ComputeKernel::Main)) by (nonlinear_arith);
    }
}

/// Ping-pong law of the Stockham engine: consecutive dispatches alternate between the two
/// buffers, dispatch `i` reading A (and writing B) exactly when `i` is even, so every
/// dispatch reads what the previous one wrote.
pub proof fn law_dispatches_alternate(
    p: SizeCachePlan,
    n: usize,
    log_n: u32,
    is_r4_mode: bool,
    max_storage_binding_size: u64,
    uniform_offset_alignment: u64,
)
    requires
        is_size_plan(p, n, log_n, is_r4_mode, max_storage_binding_size, uniform_offset_alignment),
    ensures
        forall|i: int| 0 <= i < p.spec_dispatches().len() ==> #[trigger] p.spec_dispatches()[i].binding.reads_a == (i % 2 == 0),
{
    let ds = p.spec_dispatches();
    assert forall|i: int| 0 <= i < ds.len() implies #[trigger] ds[i].binding.reads_a == (i % 2 == 0) by {
        if i < p.stage_bindings@.len() {
            assert(ds[i].binding == p.stage_bindings@[i]);
        } else {
            assert(ds[i].binding == p.r2_binding->0);
        }
    }
}

/// Binding law of the Stockham engine: stage `s` reads buffer A (writing B) exactly when `s` is
/// even, the final Radix-2 stage continues the alternation after the main stages, and the
/// result is read from the buffer the last stage writes (buffer A when there is no stage).
pub proof fn law_bindings_alternate(
    p: SizeCachePlan,
    n: usize,
    log_n: u32,
    is_r4_mode: bool,
    max_storage_binding_size: u64,
    uniform_offset_alignment: u64,
)
    requires
        is_size_plan(p, n, log_n, is_r4_mode, max_storage_binding_size, uniform_offset_alignment),
    ensures
        forall|s: int| 0 <= s < p.stage_bindings@.len() ==> (#[trigger] p.stage_bindings@[s]).reads_a == (s % 2 == 0),
        p.r2_binding is Some ==> p.r2_binding->0.reads_a == (p.stage_bindings@.len() % 2 == 0),
        p.result_in_b == (if p.r2_binding is Some {
            p.r2_binding->0.reads_a
        } else {
            p.stage_bindings@.len() > 0 && p.stage_bindings@.last().reads_a
        }),
{
    let len = p.stage_bindings@.len();
    if len > 0 {
        assert(p.stage_bindings@.last() == p.stage_bindings@[len - 1]);
    }
}

/// Coverage law of the Stockham engine: every dispatch launches one invocation per butterfly
/// of its kernel, in workgroups of 256, and no more workgroups than that needs: `N / 2`
/// butterflies for a Radix-2 stage (the final stage, or every stage in legacy mode) and
/// `N / 4` for a Radix-4 stage.
pub proof fn law_dispatch_workgroups_cover_butterflies(
    p: SizeCachePlan,
    n: usize,
    log_n: u32,
    is_r4_mode: bool,
    max_storage_binding_size: u64,
    uniform_offset_alignment: u64,
)
    requires
        is_size_plan(p, n, log_n, is_r4_mode, max_storage_binding_size, uniform_offset_alignment),
    ensures
        forall|i: int| 0 <= i < p.spec_dispatches().len() ==> {
            let d = #[trigger] p.spec_dispatches()[i];
            let half = ((n as u32) / 2) as int;
            let quarter = ((n as u32) / 4) as int;
            &&& (d.kernel == ComputeKernel::Radix2 || !is_r4_mode) ==> {
                &&& d.workgroups_x * 256 >= half
                &&& half > 0 ==> (d.workgroups_x - 1) * 256 < half
            }
            &&& (d.kernel == ComputeKernel::Main && is_r4_mode) ==> {
                &&& d.workgroups_x * 256 >= quarter
                &&& quarter > 0 ==> (d.workgroups_x - 1) * 256 < quarter
            }
        },
{
    let half = ((n as u32) / 2) as int;
    let quarter = ((n as u32) / 4) as int;
    lemma_div_ceil(half, 256);
    lemma_div_ceil(quarter, 256);
    let ds = p.spec_dispatches();
    assert forall|i: int| 0 <= i < ds.len() implies {
        let d = #[trigger] ds[i];
        &&& (d.kernel == ComputeKernel::Radix2 || !is_r4_mode) ==> {
            &&& d.workgroups_x * 256 >= half
            &&& half > 0 ==> (d.workgroups_x - 1) * 256 < half
        }
        &&& (d.kernel == ComputeKernel::Main && is_r4_mode) ==> {
            &&& d.workgroups_x * 256 >= quarter
            &&& quarter > 0 ==> (d.workgroups_x - 1) * 256 < quarter
        }
    } by {
        if i < p.stage_bindings@.len() {
            assert(ds[i].kernel == ComputeKernel::Main);
            if is_r4_mode && quarter == 0 {
                assert(ds[i].workgroups_x == p.wg_n2 || ds[i].workgroups_x == p.wg_r4);
            }
        } else {
            assert(ds[i].kernel == ComputeKernel::Radix2);
            assert(ds[i].workgroups_x == p.wg_n2);
        }
    }
}

/// Uniform law of the Stockham engine: every dispatch binds the uniform entry written for its
/// own stage, the entries of different stages do not overlap, and each lies inside the uniform
/// buffer at an offset the device accepts (a multiple of its offset alignment).
pub proof fn law_stages_read_their_own_uniforms(
    p: SizeCachePlan,
    n: usize,
    log_n: u32,
    is_r4_mode: bool,
    max_storage_binding_size: u64,
    uniform_offset_alignment: u64,
)
    requires
        is_size_plan(p, n, log_n, is_r4_mode, max_storage_binding_size, uniform_offset_alignment),
        uniform_offset_alignment > 0,
    ensures
        forall|i: int| 0 <= i < p.spec_dispatches().len() ==> {
            let d = #[trigger] p.spec_dispatches()[i];
            &&& d.binding.slot < p.uniforms@.len()
            &&& d.binding.uniform_offset == p.uniforms@[d.binding.slot as int].offset
        },
        forall|s: int, t: int| 0 <= s < t < p.uniforms@.len()
            ==> #[trigger] p.uniforms@[s].offset + UNIFORM_ENTRY_BYTES <= #[trigger] p.uniforms@[t].offset,
        forall|s: int| 0 <= s < p.uniforms@.len() ==> {
            &&& (#[trigger] p.uniforms@[s]).offset % uniform_offset_alignment == 0
            &&& p.uniforms@[s].offset + UNIFORM_ENTRY_BYTES <= p.uniform_buffer_size
        },
{
    let stride = p.uniform_stride;
    let ds = p.spec_dispatches();
    assert forall|i: int| 0 <= i < ds.len() implies {
        let d = #[trigger] ds[i];
        &&& d.binding.slot < p.uniforms@.len()
        &&& d.binding.uniform_offset == p.uniforms@[d.binding.slot as int].offset
    } by {
        if i < p.stage_bindings@.len() {
            assert(ds[i].binding == p.stage_bindings@[i]);
            assert(p.uniforms@[i].offset == stride * i);
        } else {
            let k = r4_stage_count(is_r4_mode, log_n) as int;
            assert(ds[i].binding == p.r2_binding->0);
            assert(p.uniforms@[k].offset == stride * k);
        }
    }
    assert forall|s: int, t: int| 0 <= s < t < p.uniforms@.len()
        implies #[trigger] p.uniforms@[s].offset + UNIFORM_ENTRY_BYTES <= #[trigger] p.uniforms@[t].offset by {
        assert(stride * s + stride <= stride * t) by (nonlinear_arith)
            requires
                s + 1 <= t,
                stride >= 0,
        ;
    }
    assert forall|s: int| 0 <= s < p.uniforms@.len() implies {
        &&& (#[trigger] p.uniforms@[s]).offset % uniform_offset_alignment == 0
        &&& p.uniforms@[s].offset + UNIFORM_ENTRY_BYTES <= p.uniform_buffer_size
    } by {
        let slots = uniform_slot_count(is_r4_mode, log_n) as int;
        assert(s + 1 <= slots);
        assert(stride * s + stride <= stride * slots) by (nonlinear_arith)
            requires
                s + 1 <= slots,
                stride >= 0,
        ;
        let q = stride as int / uniform_offset_alignment as int;
        vstd::arithmetic::div_mod::lemma_fundamental_div_mod(stride as int, uniform_offset_alignment as int);
        assert(stride * s == (q * s) * uniform_offset_alignment) by (nonlinear_arith)
            requires
                stride == uniform_offset_alignment * q,
        ;
        vstd::arithmetic::div_mod::lemma_mod_multiples_basic(q * s, uniform_offset_alignment as int);
    }
}

/// Radix law of the Stockham engine: the radices of the dispatched stages multiply to `N`.
#[verifier::spinoff_prover]
pub proof fn law_dispatched_radices_cover_n(
    p: SizeCachePlan,
    n: usize,
    log_n: u32,
    is_r4_mode: bool,
    max_storage_binding_size: u64,
    uniform_offset_alignment: u64,
)
    requires
        is_size_plan(p, n, log_n, is_r4_mode, max_storage_binding_size, uniform_offset_alignment),
        n == pow2(log_n as nat),
    ensures
        dispatched_log2(is_r4_mode, p.spec_dispatches()) == log_n,
        pow2(dispatched_log2(is_r4_mode, p.spec_dispatches())) == n,
{
    lemma_stage_count_facts(p, n, log_n, is_r4_mode, max_storage_binding_size, uniform_offset_alignment);
    let ds = p.spec_dispatches();
    let mains = ds.take(p.stage_bindings@.len() as int);
    assert forall|i: int| 0 <= i < mains.len() implies #[trigger] mains[i].kernel == ComputeKernel::Main by {}
    lemma_dispatched_log2_mains(is_r4_mode, mains);
    if ds.len() == p.stage_bindings@.len() {
        assert(mains =~= ds);
    } else {
        assert(ds.drop_last() =~= mains);
    }
}

/// A plan dispatches one stage per planned stage: its main stages, then the Radix-2 stage.
proof fn lemma_stage_count_facts(
    p: SizeCachePlan,
    n: usize,
    log_n: u32,
    is_r4_mode: bool,
    max_storage_binding_size: u64,
    uniform_offset_alignment: u64,
)
    requires
        is_size_plan(p, n, log_n, is_r4_mode, max_storage_binding_size, uniform_offset_alignment),
    ensures
        p.spec_dispatches().len() == total_stage_count(is_r4_mode, log_n),
{
}


/// Result law of the Stockham engine: the result is read from the buffer the last dispatch
/// wrote (buffer A when nothing is dispatched, i.e. for `N = 1`).
pub proof fn law_result_is_last_write(
    p: SizeCachePlan,
    n: usize,
    log_n: u32,
    is_r4_mode: bool,
    max_storage_binding_size: u64,
    uniform_offset_alignment: u64,
)
    requires
        is_size_plan(p, n, log_n, is_r4_mode, max_storage_binding_size, uniform_offset_alignment),
    ensures
        p.spec_dispatches().len() == 0 ==> !p.result_in_b,
        p.spec_dispatches().len() > 0 ==> p.result_in_b == p.spec_dispatches().last().binding.reads_a,
{
    lemma_stage_count_facts(p, n, log_n, is_r4_mode, max_storage_binding_size, uniform_offset_alignment);
    law_dispatches_alternate(p, n, log_n, is_r4_mode, max_storage_binding_size, uniform_offset_alignment);
    let ds = p.spec_dispatches();
    if ds.len() > 0 {
        assert(ds.last() == ds[ds.len() - 1]);
    }
}

/// Stride law of the Radix-4 mode: the stride `p` in the uniforms of every dispatched stage is
/// the product of the radices of the stages dispatched before it (`4^s` for Radix-4 stage `s`,
/// `4^(log2(N) / 2)` for the final Radix-2 stage), and every dispatch reads a uniform entry that
/// lies inside the uniform buffer.
pub proof fn law_stage_strides(
    p: SizeCachePlan,
    n: usize,
    log_n: u32,
    max_storage_binding_size: u64,
    uniform_offset_alignment: u64,
)
    requires
        is_size_plan(p, n, log_n, true, max_storage_binding_size, uniform_offset_alignment),
        size_plan_inputs_ok(n, log_n, true, uniform_offset_alignment),
    ensures
        forall|i: int| 0 <= i < p.spec_dispatches().len() ==> {
            let d = #[trigger] p.spec_dispatches()[i];
            &&& d.binding.slot < p.uniforms@.len()
            &&& p.uniforms@[d.binding.slot as int].uniforms.stage == pow2(dispatched_log2(true, p.spec_dispatches().take(i))) as u32
            &&& d.binding.uniform_offset + UNIFORM_ENTRY_BYTES <= p.uniform_buffer_size
        },
{
    let ds = p.spec_dispatches();
    assert forall|i: int| 0 <= i < ds.len() implies {
        let d = #[trigger] ds[i];
        &&& d.binding.slot < p.uniforms@.len()
        &&& p.uniforms@[d.binding.slot as int].uniforms.stage == pow2(dispatched_log2(true, ds.take(i))) as u32
        &&& d.binding.uniform_offset + UNIFORM_ENTRY_BYTES <= p.uniform_buffer_size
    } by {
        let prefix = ds.take(i);
        assert forall|j: int| 0 <= j < prefix.len() implies #[trigger] prefix[j].kernel == ComputeKernel::Main by {
            assert(prefix[j] == ds[j]);
        }
        lemma_dispatched_log2_mains(true, prefix);
        let slot = ds[i].binding.slot as int;
        assert(slot == i);
        assert(slot + 1 <= uniform_slot_count(true, log_n));
        assert(p.uniform_stride * slot + p.uniform_stride <= p.uniform_stride * uniform_slot_count(true, log_n)) by (nonlinear_arith)
            requires
                slot + 1 <= uniform_slot_count(true, log_n),
                p.uniform_stride >= 0,
        ;
    }
}


/// Capacity law of the Stockham engine: a batch of at most `max_batch_size` transforms, which
/// is uploaded into buffer A and copied from the result buffer into the staging buffer, fits
/// in those buffers.
pub proof fn law_batch_fits_buffers(
    p: SizeCachePlan,
    n: usize,
    log_n: u32,
    is_r4_mode: bool,
    max_storage_binding_size: u64,
    uniform_offset_alignment: u64,
    batch_size: u32,
)
    requires
        is_size_plan(p, n, log_n, is_r4_mode, max_storage_binding_size, uniform_offset_alignment),
        batch_size <= p.max_batch_size,
    ensures
        n as int * 8 * batch_size <= p.data_bytes,
{
    assert(n as int * 8 * batch_size <= n as int * 8 * p.max_batch_size) by (nonlinear_arith)
        requires
            batch_size <= p.max_batch_size,
            n >= 0,
    ;
}

/// Capacity law of the data buffers: they hold `max_batch_size` transforms of `N` complex `f32`
/// values exactly, as many as fit in one storage binding of the device but never more than
/// [`MAX_PREALLOCATED_BATCH`]; one more transform would either exceed that cap or not fit.
pub proof fn law_batch_capacity(
    p: SizeCachePlan,
    n: usize,
    log_n: u32,
    is_r4_mode: bool,
    max_storage_binding_size: u64,
    uniform_offset_alignment: u64,
)
    requires
        is_size_plan(p, n, log_n, is_r4_mode, max_storage_binding_size, uniform_offset_alignment),
        n > 0,
    ensures
        p.single_fft_bytes == n as int * 2 * 4,
        p.data_bytes == n as int * 8 * p.max_batch_size,
        p.max_batch_size <= 1024,
        n as int * 8 * p.max_batch_size <= max_storage_binding_size,
        p.max_batch_size == 1024 || n as int * 8 * (p.max_batch_size + 1) > max_storage_binding_size,
{
    let b = n as int * 8;
    let m = max_storage_binding_size as int;
    vstd::arithmetic::div_mod::lemma_fundamental_div_mod(m, b);
    let q = m / b;
    assert(b * (q + 1) > m) by (nonlinear_arith)
        requires
            m == b * q + m % b,
            0 <= m % b < b,
    ;
    assert(b * q <= m) by (nonlinear_arith)
        requires
            m == b * q + m % b,
            0 <= m % b,
    ;
    assert(b * p.max_batch_size == p.single_fft_bytes * p.max_batch_size);
    if q >= 1024 {
        assert(b * 1024 <= b * q) by (nonlinear_arith)
            requires
                q >= 1024,
                b > 0,
        ;
    }
}

/// Uniform contents law of the Stockham engine: every uniform entry carries the transform
/// length `N` (as the kernels' 32-bit word), `log2(N)` and a zero pad word; in legacy mode the
/// stage word of the entry of stage `s` is `s` itself.
pub proof fn law_uniforms_name_the_transform(
    p: SizeCachePlan,
    n: usize,
    log_n: u32,
    is_r4_mode: bool,
    max_storage_binding_size: u64,
    uniform_offset_alignment: u64,
)
    requires
        is_size_plan(p, n, log_n, is_r4_mode, max_storage_binding_size, uniform_offset_alignment),
    ensures
        forall|s: int| 0 <= s < p.uniforms@.len() ==> {
            let u = (#[trigger] p.uniforms@[s]).uniforms;
            &&& u.n == n as u32
            &&& u.log_n == log_n
            &&& u._pad == 0
            &&& !is_r4_mode ==> u.stage == s
        },
{
    assert forall|s: int| 0 <= s < p.uniforms@.len() implies {
        let u = (#[trigger] p.uniforms@[s]).uniforms;
        &&& u.n == n as u32
        &&& u.log_n == log_n
        &&& u._pad == 0
        &&& !is_r4_mode ==> u.stage == s
    } by {
        if is_r4_mode && s == r4_stage_count(is_r4_mode, log_n) {
            assert(has_r2_stage(is_r4_mode, log_n));
        }
    }
}

/// Byte count of the results of `batch_size` transforms of length `n` (interleaved complex `f32`).
pub fn result_bytes(n: usize, batch_size: u32) -> (r: u64)
    requires
        n as int * 8 <= usize::MAX,
        n as int * 8 * batch_size <= u64::MAX,
    ensures
        r == n as int * 8 * batch_size,
{
    let single_fft_bytes = (n * COMPLEX_COMPONENT_COUNT * F32_BYTE_SIZE) as u64;
    single_fft_bytes * batch_size as u64
}

/// `k` is the number of `n`-element chunks of a length-`len` sequence when `k` chunks
/// reach the end and `k - 1` do not.
proof fn lemma_chunk_count(len: int, n: int, k: int)
    requires
        len >= 0,
        n > 0,
        k >= 0,
        k * n >= len,
        k == 0 || (k - 1) * n < len,
    ensures
        k == div_ceil(len, n),
{
    lemma_div_ceil(len, n);
    let d = div_ceil(len, n);
    if k > d {
        assert((k - 1) * n >= d * n) by (nonlinear_arith)
            requires
                k - 1 >= d,
                n > 0,
        ;
    }
    if k < d {
        assert(k * n <= (d - 1) * n) by (nonlinear_arith)
            requires
                k <= d - 1,
                n > 0,
        ;
    }
}

/// Shape law of the result split: the flat output of `batch_size` transforms of length `n`
/// splits into exactly `batch_size` results, result `i` being the `n` values from `i * n`.
pub proof fn law_split_one_result_per_transform(len: int, n: int, batch_size: int)
    requires
        n > 0,
        batch_size >= 0,
        len == n * batch_size,
    ensures
        div_ceil(len, n) == batch_size,
        forall|i: int| 0 <= i < batch_size ==> (#[trigger] ((i + 1) * n)) <= len,
{
    assert(batch_size * n >= len) by (nonlinear_arith)
        requires
            len == n * batch_size,
    ;
    if batch_size > 0 {
        assert((batch_size - 1) * n < len) by (nonlinear_arith)
            requires
                len == n * batch_size,
                n > 0,
        ;
    }
    lemma_chunk_count(len, n, batch_size);
    assert forall|i: int| 0 <= i < batch_size implies (#[trigger] ((i + 1) * n)) <= len by {
        assert((i + 1) * n <= batch_size * n) by (nonlinear_arith)
            requires
                i + 1 <= batch_size,
                n > 0,
        ;
        assert(batch_size * n == len) by (nonlinear_arith)
            requires
                len == n * batch_size,
        ;
    }
}

/// Split the flat output of a batch into one vector of `n` elements per transform (the
/// last one shorter when the length is not a multiple of `n`).
pub fn split_results<T: Copy>(output: Vec<T>, n: usize) -> (r: Vec<Vec<T>>)
    requires
        n > 0,
    ensures
        r@.len() == div_ceil(output@.len() as int, n as int),
        forall|i: int| 0 <= i < r@.len() ==> #[trigger] r@[i]@ == output@.subrange(
            i * n,
            if (i + 1) * n <= output@.len() { (i + 1) * n } else { output@.len() as int },
        ),
{
    let len = output.len();
    let mut r: Vec<Vec<T>> = Vec::new();
    let mut start: usize = 0;
    assert(r@.len() * n == 0) by (nonlinear_arith)
        requires
            r@.len() == 0,
    ;
    while start < len
        invariant
            n > 0,
            len == output@.len(),
            start <= len,
            start as int == (if r@.len() * n <= len { r@.len() * n } else { len as int }),
            r@.len() == 0 || (r@.len() - 1) * n < len,
            forall|i: int| 0 <= i < r@.len() ==> #[trigger] r@[i]@ == output@.subrange(
                i * n,
                if (i + 1) * n <= output@.len() { (i + 1) * n } else { output@.len() as int },
            ),
        decreases len - start,
    {
        let k = Ghost(r@.len() as int);
        assert(start as int == k@ * n);
        let end = if len - start < n { len } else { start + n };
        let mut chunk: Vec<T> = Vec::new();
        let mut j = start;
        while j < end
            invariant
                start <= j <= end <= output@.len(),
                chunk@ == output@.subrange(start as int, j as int),
            decreases end - j,
        {
            chunk.push(output[j]);
            j += 1;
            assert(chunk@ =~= output@.subrange(start as int, j as int));
        }
        assert((k@ + 1) * n == k@ * n + n) by (nonlinear_arith);
        r.push(chunk);
        start = end;
    }
    proof {
        let k = r@.len() as int;
        lemma_chunk_count(len as int, n as int, k);
    }
    r
}

} // verus!
