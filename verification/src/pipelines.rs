//! Planning of the pre-compiled Cooley-Tukey Radix-2 FFT passes that can be embedded in a
//! larger GPU pipeline: a bit-reversal pass followed by `log2(N)` butterfly passes over an
//! output buffer and an internal scratch buffer, plus an in-place normalization pass.

use vstd::prelude::*;

use crate::fft::div_ceil;
use crate::fft::lemma_div_ceil;
use crate::fft::spec_trailing_zeros;
use crate::fft::trailing_zeros;
use crate::fft::workgroup_count;
use crate::fft::WORKGROUP_SIZE;
use crate::uniforms::UniformWords;

verus! {

/// Direction of an FFT.
#[derive(Debug, Clone, Copy, PartialEq, Eq, Structural)]
pub enum FftDirection {
    /// Forward FFT
    Forward,
    /// Inverse FFT
    Inverse,
}

impl FftDirection {
    /// The code the kernels receive for this direction: 0 forward, 1 inverse.
    pub open spec fn spec_code(self) -> u32 {
        match self {
            FftDirection::Forward => 0,
            FftDirection::Inverse => 1,
        }
    }

    /// The code the kernels receive for this direction: 0 forward, 1 inverse.
    pub fn code(&self) -> (r: u32)
        ensures
            r == self.spec_code(),
    {
        match self {
            FftDirection::Forward => 0,
            FftDirection::Inverse => 1,
        }
    }
}

/// A buffer a pass reads or writes.
#[derive(Debug, Clone, Copy, PartialEq, Eq, Structural)]
pub enum BufferRole {
    /// The caller's input buffer.
    Input,
    /// The caller's output buffer.
    Output,
    /// The internal scratch buffer of the transform size.
    Scratch,
}

/// Kernel of a Cooley-Tukey pass.
#[derive(Debug, Clone, Copy, PartialEq, Eq, Structural)]
pub enum CtKernel {
    /// Permute the input into bit-reversed order.
    BitReversal,
    /// One Radix-2 butterfly stage.
    Butterfly,
}

/// One compute pass: its kernel, the buffers it reads and writes, its parameter words and
/// its workgroup count.
#[derive(Debug, Clone, Copy, PartialEq, Eq, Structural)]
pub struct CtPass {
    pub kernel: CtKernel,
    pub src: BufferRole,
    pub dst: BufferRole,
    pub params: UniformWords,
    pub workgroups_x: u32,
}

/// The first and second buffer of the butterfly ping-pong: the bit-reversal pass writes the
/// first one and the stages alternate from there, so the output buffer comes first exactly
/// when `log2(N)` is even.
pub fn get_buffer_pair_for_mode<'a, B>(log2_n: u32, output_buf: &'a B, scratch_buf: &'a B) -> (r: (&'a B, &'a B))
    ensures
        log2_n % 2 == 0 ==> r == (output_buf, scratch_buf),
        log2_n % 2 == 1 ==> r == (scratch_buf, output_buf),
{
    if log2_n % 2 == 0 {
        return (output_buf, scratch_buf);
    }
    (scratch_buf, output_buf)
}

/// The buffer the butterfly stage `stage` reads: the first buffer for even stages.
pub open spec fn butterfly_src(log2_n: u32, stage: int) -> BufferRole {
    let first = if log2_n % 2 == 0 { BufferRole::Output } else { BufferRole::Scratch };
    let second = if log2_n % 2 == 0 { BufferRole::Scratch } else { BufferRole::Output };
    if stage % 2 == 0 { first } else { second }
}

/// The buffer the butterfly stage `stage` writes: the one it does not read.
pub open spec fn butterfly_dst(log2_n: u32, stage: int) -> BufferRole {
    butterfly_src(log2_n, stage + 1)
}

/// The passes of one transform of size `n` in the given direction, as [`plan_fft_passes`] computes them.
pub open spec fn is_fft_pass_plan(passes: Seq<CtPass>, n: usize, direction: FftDirection) -> bool {
    let log2_n = spec_trailing_zeros(n);
    &&& passes.len() == log2_n + 1
    &&& passes[0] == (CtPass {
        kernel: CtKernel::BitReversal,
        src: BufferRole::Input,
        dst: butterfly_src(log2_n, 0),
        params: UniformWords { x: n as u32, y: log2_n, z: 0, w: 0 },
        workgroups_x: div_ceil((n as u32) as int, WORKGROUP_SIZE as int) as u32,
    })
    &&& forall|s: int| 0 <= s < log2_n ==> #[trigger] passes[s + 1] == (CtPass {
        kernel: CtKernel::Butterfly,
        src: butterfly_src(log2_n, s),
        dst: butterfly_dst(log2_n, s),
        params: UniformWords { x: n as u32, y: s as u32, z: direction.spec_code(), w: 0 },
        workgroups_x: div_ceil(((n / 2) as u32) as int, WORKGROUP_SIZE as int) as u32,
    })
}

/// Plan the passes of one FFT of size `n` (`log2(N)` is the trailing-zero count of `n`): the
/// bit-reversal pass from the input into the first ping-pong buffer, then one butterfly pass
/// per stage alternating between the output and the scratch buffer.
pub fn plan_fft_passes(n: usize, direction: FftDirection) -> (r: Vec<CtPass>)
    ensures
        is_fft_pass_plan(r@, n, direction),
{
    let log2_n = trailing_zeros(n);
    let (buf0, buf1) = get_buffer_pair_for_mode(log2_n, &BufferRole::Output, &BufferRole::Scratch);
    let bufs = [*buf0, *buf1];
    let n32 = n as u32;
    let dir = direction.code();
    let mut passes: Vec<CtPass> = Vec::new();
    passes.push(CtPass {
        kernel: CtKernel::BitReversal,
        src: BufferRole::Input,
        dst: *buf0,
        params: UniformWords { x: n32, y: log2_n, z: 0, w: 0 },
        workgroups_x: workgroup_count(n32),
    });
    let butterfly_workgroups = workgroup_count((n / 2) as u32);
    let mut stage: u32 = 0;
    while stage < log2_n
        invariant
            log2_n == spec_trailing_zeros(n),
            bufs@ == seq![butterfly_src(log2_n, 0), butterfly_src(log2_n, 1)],
            n32 == n as u32,
            dir == direction.spec_code(),
            butterfly_workgroups == div_ceil(((n / 2) as u32) as int, WORKGROUP_SIZE as int),
            0 <= stage <= log2_n,
            passes@.len() == stage + 1,
            passes@[0] == (CtPass {
                kernel: CtKernel::BitReversal,
                src: BufferRole::Input,
                dst: butterfly_src(log2_n, 0),
                params: UniformWords { x: n as u32, y: log2_n, z: 0, w: 0 },
                workgroups_x: div_ceil((n as u32) as int, WORKGROUP_SIZE as int) as u32,
            }),
            forall|s: int| 0 <= s < stage ==> #[trigger] passes@[s + 1] == (CtPass {
                kernel: CtKernel::Butterfly,
                src: butterfly_src(log2_n, s),
                dst: butterfly_dst(log2_n, s),
                params: UniformWords { x: n as u32, y: s as u32, z: direction.spec_code(), w: 0 },
                workgroups_x: div_ceil(((n / 2) as u32) as int, WORKGROUP_SIZE as int) as u32,
            }),
        decreases log2_n - stage,
    {
        let src = bufs[(stage % 2) as usize];
        let dst = bufs[((stage + 1) % 2) as usize];
        passes.push(CtPass {
            kernel: CtKernel::Butterfly,
            src,
            dst,
            params: UniformWords { x: n32, y: stage, z: dir, w: 0 },
            workgroups_x: butterfly_workgroups,
        });
        stage += 1;
    }
    passes
}

/// Byte size of the scratch buffer of size `n`: `N` interleaved complex `f32` values.
pub fn scratch_bytes(n: usize) -> (r: u64)
    requires
        n as int * 8 <= usize::MAX,
    ensures
        r == n as int * 8,
{
    (n * 8) as u64
}

/// Plan the in-place normalization (divide by `N`) pass of size `n`: its parameter words and
/// workgroup count.
pub fn plan_normalize(n: usize) -> (r: (UniformWords, u32))
    ensures
        r.0 == (UniformWords { x: n as u32, y: 0, z: 0, w: 0 }),
        r.1 == div_ceil((n as u32) as int, WORKGROUP_SIZE as int),
{
    let n32 = n as u32;
    (UniformWords { x: n32, y: 0, z: 0, w: 0 }, workgroup_count(n32))
}

/// Coverage law of the FFT passes: the bit-reversal pass launches one invocation per element
/// (`N`) and every butterfly pass one per butterfly (`N / 2`), in workgroups of 256, with no
/// more workgroups than that needs.
pub proof fn law_passes_cover_elements(passes: Seq<CtPass>, n: usize, direction: FftDirection)
    requires
        is_fft_pass_plan(passes, n, direction),
    ensures
        passes[0].kernel == CtKernel::BitReversal,
        passes[0].workgroups_x * 256 >= (n as u32) as int,
        (n as u32) > 0 ==> (passes[0].workgroups_x - 1) * 256 < (n as u32) as int,
        forall|s: int| 0 < s < passes.len() ==> {
            let half = ((n / 2) as u32) as int;
            &&& (#[trigger] passes[s]).kernel == CtKernel::Butterfly
            &&& passes[s].workgroups_x * 256 >= half
            &&& half > 0 ==> (passes[s].workgroups_x - 1) * 256 < half
        },
{
    let half = ((n / 2) as u32) as int;
    lemma_div_ceil((n as u32) as int, 256);
    lemma_div_ceil(half, 256);
    assert forall|s: int| 0 < s < passes.len() implies {
        &&& (#[trigger] passes[s]).kernel == CtKernel::Butterfly
        &&& passes[s].workgroups_x * 256 >= half
        &&& half > 0 ==> (passes[s].workgroups_x - 1) * 256 < half
    } by {
        assert(passes[(s - 1) + 1] == passes[s]);
    }
}

/// Parameter law of the FFT passes: every pass carries the transform length `N`; the
/// bit-reversal pass carries the number of butterfly passes, which is `log2(N)` (so the
/// last butterfly spans all `N` points when `N` is a power of two); butterfly pass `s` runs
/// stage `s - 1` and carries direction 1 exactly for the inverse transform.
pub proof fn law_pass_parameters(passes: Seq<CtPass>, n: usize, direction: FftDirection)
    requires
        is_fft_pass_plan(passes, n, direction),
    ensures
        passes[0].params == (UniformWords { x: n as u32, y: (passes.len() - 1) as u32, z: 0, w: 0 }),
        vstd::arithmetic::power2::is_pow2(n as int) ==> vstd::arithmetic::power2::pow2((passes.len() - 1) as nat) == n,
        forall|s: int| 0 < s < passes.len() ==> (#[trigger] passes[s]).params == (UniformWords {
            x: n as u32,
            y: (s - 1) as u32,
            z: if direction == FftDirection::Inverse { 1 } else { 0 },
            w: 0,
        }),
{
    if vstd::arithmetic::power2::is_pow2(n as int) {
        crate::fft::lemma_pow2_log(n);
    }
    assert forall|s: int| 0 < s < passes.len() implies (#[trigger] passes[s]).params == (UniformWords {
        x: n as u32,
        y: (s - 1) as u32,
        z: if direction == FftDirection::Inverse { 1 } else { 0 },
        w: 0,
    }) by {
        assert(passes[(s - 1) + 1] == passes[s]);
    }
}

/// Pass `i` writes the `i`-th ping-pong buffer and reads the input (first pass) or the
/// buffer the previous pass wrote.
proof fn lemma_pass_buffers(passes: Seq<CtPass>, n: usize, direction: FftDirection, i: int)
    requires
        is_fft_pass_plan(passes, n, direction),
        0 <= i < passes.len(),
    ensures
        passes[i].dst == butterfly_src(spec_trailing_zeros(n), i),
        i == 0 ==> passes[i].src == BufferRole::Input,
        i > 0 ==> passes[i].src == butterfly_src(spec_trailing_zeros(n), i - 1),
{
    if i > 0 {
        let s = i - 1;
        assert(passes[s + 1].dst == butterfly_dst(spec_trailing_zeros(n), s));
    }
}

/// Output law of the FFT passes: the last pass writes the caller's output buffer (as the
/// documentation promises), no pass writes the input buffer, no pass reads the buffer it
/// writes, and every pass reads what the previous one wrote.
pub proof fn law_fft_passes_write_output(passes: Seq<CtPass>, n: usize, direction: FftDirection)
    requires
        is_fft_pass_plan(passes, n, direction),
    ensures
        passes.last().dst == BufferRole::Output,
        forall|i: int| 0 <= i < passes.len() ==> (#[trigger] passes[i]).dst != BufferRole::Input && passes[i].src != passes[i].dst,
        forall|i: int, j: int| #![trigger passes[i], passes[j]] 0 < i < passes.len() && j == i - 1 ==> passes[i].src == passes[j].dst,
{
    let log2_n = spec_trailing_zeros(n);
    lemma_pass_buffers(passes, n, direction, log2_n as int);
    assert forall|i: int| 0 <= i < passes.len() implies (#[trigger] passes[i]).dst != BufferRole::Input && passes[i].src
        != passes[i].dst by {
        lemma_pass_buffers(passes, n, direction, i);
    }
    assert forall|i: int, j: int| #![trigger passes[i], passes[j]] 0 < i < passes.len() && j == i - 1 implies passes[i].src
        == passes[j].dst by {
        lemma_pass_buffers(passes, n, direction, i);
        lemma_pass_buffers(passes, n, direction, j);
    }
}

} // verus!
