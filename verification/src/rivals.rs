//! Stage planning of the alternative (rival) Stockham FFT engines: mixed Radix-8/4/2
//! pipelines and the single-dispatch local-memory paths.

use vstd::prelude::*;
use vstd::arithmetic::power2::pow2;
use vstd::bits::lemma_u32_shl_is_mul;
use vstd::bits::lemma_u32_pow2_no_overflow;

use crate::fft::div_ceil;
use crate::fft::lemma_div_ceil;
use crate::fft::lengths_agree;
use crate::fft::spec_trailing_zeros;
use crate::fft::workgroup_count;
use crate::fft::WORKGROUP_SIZE;
use crate::uniforms::UniformWords;

verus! {

/// Kernel run by one dispatch of a rival engine.
#[derive(Debug, Clone, Copy, PartialEq, Eq, Structural)]
pub enum RivalKernel {
    /// Radix-8 Stockham stage.
    Radix8,
    /// Radix-4 Stockham stage.
    Radix4,
    /// Radix-2 Stockham stage.
    Radix2,
    /// Whole transform in workgroup memory in one dispatch.
    Local,
}

/// One dispatch: its kernel, the uniform slot it reads, whether it reads buffer A (writing B)
/// or buffer B (writing A), and its workgroup count.
#[derive(Debug, Clone, Copy, PartialEq, Eq, Structural)]
pub struct KernelDispatch {
    pub kernel: RivalKernel,
    pub slot: usize,
    pub reads_a: bool,
    /// Workgroups along x when the batch runs along y.
    pub workgroups_x: u32,
    /// When set, the dispatch is `(batch_size, 1, 1)`: one workgroup per transform.
    pub batch_on_x: bool,
}

impl KernelDispatch {
    /// Workgroup counts `(x, y, z)` of this dispatch for a batch of `batch_size` transforms.
    pub fn dimensions(&self, batch_size: u32) -> (r: (u32, u32, u32))
        ensures
            r == (if self.batch_on_x { (batch_size, 1u32, 1u32) } else { (self.workgroups_x, batch_size, 1u32) }),
    {
        if self.batch_on_x {
            (batch_size, 1, 1)
        } else {
            (self.workgroups_x, batch_size, 1)
        }
    }
}

/// Uniform entries and dispatches of one transform size of a rival engine.
#[derive(Debug)]
pub struct RivalPlan {
    /// Uniform entries, slot by slot.
    pub uniforms: Vec<UniformWords>,
    /// Dispatches of one transform, in order.
    pub dispatches: Vec<KernelDispatch>,
    /// Whether the result ends up in buffer B.
    pub result_in_b: bool,
}

/// Base-2 logarithm of the radix of a staged kernel (0 for the local kernel).
pub open spec fn kernel_log2(kernel: RivalKernel) -> nat {
    match kernel {
        RivalKernel::Radix8 => 3,
        RivalKernel::Radix4 => 2,
        RivalKernel::Radix2 => 1,
        RivalKernel::Local => 0,
    }
}

/// Base-2 logarithm of the product of the radices of a kernel sequence.
pub open spec fn kernels_log2(ks: Seq<RivalKernel>) -> nat
    decreases ks.len(),
{
    if ks.len() == 0 {
        0
    } else {
        kernels_log2(ks.drop_last()) + kernel_log2(ks.last())
    }
}

/// `num_r8` Radix-8 stages, then `num_r4` Radix-4 stages, then `num_r2` Radix-2 stages.
pub open spec fn mixed_radix_kernels(num_r8: nat, num_r4: nat, num_r2: nat) -> Seq<RivalKernel> {
    Seq::new(num_r8, |i: int| RivalKernel::Radix8) + Seq::new(num_r4, |i: int| RivalKernel::Radix4) + Seq::new(
        num_r2,
        |i: int| RivalKernel::Radix2,
    )
}

/// Workgroups needed by a staged kernel: one invocation per butterfly, `N / radix` butterflies.
pub open spec fn staged_workgroups(n: usize, kernel: RivalKernel) -> int {
    match kernel {
        RivalKernel::Radix8 => div_ceil(((n as u32) / 8) as int, WORKGROUP_SIZE as int),
        RivalKernel::Radix4 => div_ceil(((n as u32) / 4) as int, WORKGROUP_SIZE as int),
        RivalKernel::Radix2 => div_ceil(((n as u32) / 2) as int, WORKGROUP_SIZE as int),
        RivalKernel::Local => 1,
    }
}

/// The dispatches run the kernels `ks` in order, dispatch `i` reading uniform slot `i` and
/// buffer A exactly when `i` is even, each with the workgroups its kernel needs.
pub open spec fn staged_dispatches(ds: Seq<KernelDispatch>, ks: Seq<RivalKernel>, n: usize) -> bool {
    &&& ds.len() == ks.len()
    &&& forall|i: int| 0 <= i < ds.len() ==> {
        &&& (#[trigger] ds[i]).kernel == ks[i]
        &&& ds[i].slot == i
        &&& ds[i].reads_a == (i % 2 == 0)
        &&& ds[i].workgroups_x == staged_workgroups(n, ks[i]) as u32
        &&& !ds[i].batch_on_x
    }
}

/// Split of `log2(N)` into Radix-8 stages and a Radix-4 or Radix-2 remainder stage.
pub open spec fn r8_count(log_n: u32) -> nat {
    (log_n / 3) as nat
}

/// Whether `log2(N)` leaves a remainder of two (one Radix-4 stage) after the Radix-8 stages.
pub open spec fn r8_has_r4(log_n: u32) -> bool {
    log_n % 3 == 2
}

/// Whether `log2(N)` leaves a remainder of one (one Radix-2 stage) after the Radix-8 stages.
pub open spec fn r8_has_r2(log_n: u32) -> bool {
    log_n % 3 == 1
}

/// The kernels of a mixed Radix-8/4/2 pipeline for `N = 2^log_n`.
pub open spec fn r842_kernels(log_n: u32) -> Seq<RivalKernel> {
    mixed_radix_kernels(
        r8_count(log_n),
        if r8_has_r4(log_n) { 1 } else { 0 },
        if r8_has_r2(log_n) { 1 } else { 0 },
    )
}

/// `2^e` for `e < 32`, by shifting.
fn pow2_u32(e: u32) -> (r: u32)
    requires
        e < 32,
    ensures
        r == pow2(e as nat),
        r > 0,
{
    proof {
        vstd::arithmetic::power2::lemma_pow2_pos(e as nat);
        lemma_u32_pow2_no_overflow(e as nat);
        lemma_u32_shl_is_mul(1u32, e);
    }
    1u32 << e
}

/// Append a staged dispatch that reads the next uniform slot and alternates buffers.
fn push_staged(dispatches: &mut Vec<KernelDispatch>, kernel: RivalKernel, n: usize)
    ensures
        final(dispatches)@ == old(dispatches)@.push(KernelDispatch {
            kernel,
            slot: old(dispatches)@.len() as usize,
            reads_a: old(dispatches)@.len() % 2 == 0,
            workgroups_x: staged_workgroups(n, kernel) as u32,
            batch_on_x: false,
        }),
{
    let n32 = n as u32;
    let workgroups_x = match kernel {
        RivalKernel::Radix8 => workgroup_count(n32 / 8),
        RivalKernel::Radix4 => workgroup_count(n32 / 4),
        RivalKernel::Radix2 => workgroup_count(n32 / 2),
        RivalKernel::Local => 1,
    };
    let slot = dispatches.len();
    dispatches.push(KernelDispatch { kernel, slot, reads_a: slot % 2 == 0, workgroups_x, batch_on_x: false });
}

/// Append the staged dispatches of a mixed-radix pipeline: `num_r8` Radix-8 stages, then
/// `num_r4` Radix-4 stages, then `num_r2` Radix-2 stages.
fn push_mixed_dispatches(dispatches: &mut Vec<KernelDispatch>, n: usize, num_r8: usize, num_r4: usize, num_r2: usize)
    requires
        old(dispatches)@.len() == 0,
        num_r8 + num_r4 + num_r2 <= usize::MAX,
    ensures
        staged_dispatches(final(dispatches)@, mixed_radix_kernels(num_r8 as nat, num_r4 as nat, num_r2 as nat), n),
{
    let ghost ks = mixed_radix_kernels(num_r8 as nat, num_r4 as nat, num_r2 as nat);
    let mut s: usize = 0;
    while s < num_r8
        invariant
            ks == mixed_radix_kernels(num_r8 as nat, num_r4 as nat, num_r2 as nat),
            0 <= s <= num_r8,
            staged_dispatches(dispatches@, ks.take(s as int), n),
        decreases num_r8 - s,
    {
        assert(ks[s as int] == RivalKernel::Radix8);
        push_staged(dispatches, RivalKernel::Radix8, n);
        s += 1;
        assert(ks.take(s as int) =~= ks.take(s - 1).push(RivalKernel::Radix8));
    }
    let mut s: usize = 0;
    while s < num_r4
        invariant
            ks == mixed_radix_kernels(num_r8 as nat, num_r4 as nat, num_r2 as nat),
            num_r8 + num_r4 + num_r2 <= usize::MAX,
            0 <= s <= num_r4,
            staged_dispatches(dispatches@, ks.take(num_r8 + s), n),
        decreases num_r4 - s,
    {
        assert(ks[num_r8 + s] == RivalKernel::Radix4);
        push_staged(dispatches, RivalKernel::Radix4, n);
        s += 1;
        assert(ks.take(num_r8 + s) =~= ks.take(num_r8 + s - 1).push(RivalKernel::Radix4));
    }
    let mut s: usize = 0;
    while s < num_r2
        invariant
            ks == mixed_radix_kernels(num_r8 as nat, num_r4 as nat, num_r2 as nat),
            num_r8 + num_r4 + num_r2 <= usize::MAX,
            0 <= s <= num_r2,
            staged_dispatches(dispatches@, ks.take(num_r8 + num_r4 + s), n),
        decreases num_r2 - s,
    {
        assert(ks[num_r8 + num_r4 + s] == RivalKernel::Radix2);
        push_staged(dispatches, RivalKernel::Radix2, n);
        s += 1;
        assert(ks.take(num_r8 + num_r4 + s) =~= ks.take(num_r8 + num_r4 + s - 1).push(RivalKernel::Radix2));
    }
    assert(ks.take(num_r8 + num_r4 + num_r2) =~= ks);
}

/// Radix-8/4/2 split of a transform of `2^log_n` points: `log_n / 3` Radix-8 stages and one
/// Radix-4 (remainder two) or Radix-2 (remainder one) stage.
fn push_r842_dispatches(dispatches: &mut Vec<KernelDispatch>, n: usize, log_n: u32)
    requires
        old(dispatches)@.len() == 0,
    ensures
        staged_dispatches(final(dispatches)@, r842_kernels(log_n), n),
{
    let num_r8 = (log_n / 3) as usize;
    let num_r4: usize = if log_n % 3 == 2 { 1 } else { 0 };
    let num_r2: usize = if log_n % 3 == 1 { 1 } else { 0 };
    push_mixed_dispatches(dispatches, n, num_r8, num_r4, num_r2);
}

/// The local (single-dispatch) path: the whole transform runs in workgroup memory.
pub open spec fn local_dispatch(batch_on_x: bool) -> KernelDispatch {
    KernelDispatch { kernel: RivalKernel::Local, slot: 0, reads_a: true, workgroups_x: 1, batch_on_x }
}

/// Number of stages of a mixed Radix-8/4/2 pipeline for `N = 2^log_n`.
pub open spec fn r842_stage_count(log_n: u32) -> nat {
    r8_count(log_n) + (if r8_has_r4(log_n) || r8_has_r2(log_n) { 1nat } else { 0nat })
}

/// Uniforms of a Codex stage with stride `p` whose kernel runs `N / radix` butterflies:
/// `(N, p, (N / radix) / p, 0)` (the last but one word is the twiddle stride).
pub open spec fn codex_uniforms(n: usize, radix: u32, p: nat) -> UniformWords {
    UniformWords { x: n as u32, y: p as u32, z: (((n as u32) / radix) / (p as u32)) as u32, w: 0 }
}

/// `p` is the plan that [`codex_plan`] computes for `N = n`, `log2(N) = log_n`.
pub open spec fn is_codex_plan(p: RivalPlan, n: usize, log_n: u32) -> bool {
    let num_r8 = r8_count(log_n);
    &&& p.uniforms@.len() == r842_stage_count(log_n)
    &&& forall|i: int| 0 <= i < num_r8 ==> #[trigger] p.uniforms@[i] == codex_uniforms(n, 8, pow2(3 * i as nat))
    &&& r8_has_r4(log_n) ==> p.uniforms@[num_r8 as int] == codex_uniforms(n, 4, pow2(3 * num_r8))
    &&& r8_has_r2(log_n) ==> p.uniforms@[num_r8 as int] == codex_uniforms(n, 2, pow2(3 * num_r8))
    &&& n == 256 ==> p.dispatches@ == seq![local_dispatch(false)]
    &&& n != 256 ==> staged_dispatches(p.dispatches@, r842_kernels(log_n), n)
    &&& p.result_in_b == (n == 256 || r842_stage_count(log_n) % 2 == 1)
}

/// Plan the Codex engine for `N = 2^log_n`: `log2(N) / 3` Radix-8 stages with strides `8^s`,
/// then one Radix-4 or Radix-2 stage with stride `8^(log2(N) / 3)`; the uniforms of every stage
/// also carry its twiddle stride. `N = 256` runs as a single local dispatch instead.
pub fn codex_plan(n: usize, log_n: u32) -> (p: RivalPlan)
    requires
        log_n <= 33,
    ensures
        is_codex_plan(p, n, log_n),
{
    let n32 = n as u32;
    let num_r8 = (log_n / 3) as usize;
    let rem = log_n % 3;
    let mut uniforms: Vec<UniformWords> = Vec::new();
    let mut s: usize = 0;
    while s < num_r8
        invariant
            num_r8 == r8_count(log_n),
            log_n <= 33,
            n32 == n as u32,
            0 <= s <= num_r8,
            uniforms@.len() == s,
            forall|i: int| 0 <= i < s ==> #[trigger] uniforms@[i] == codex_uniforms(n, 8, pow2(3 * i as nat)),
        decreases num_r8 - s,
    {
        let p = pow2_u32(3 * s as u32);
        uniforms.push(UniformWords { x: n32, y: p, z: (n32 / 8) / p, w: 0 });
        s += 1;
    }
    if rem == 2 {
        let p = pow2_u32(3 * num_r8 as u32);
        uniforms.push(UniformWords { x: n32, y: p, z: (n32 / 4) / p, w: 0 });
    }
    if rem == 1 {
        let p = pow2_u32(3 * num_r8 as u32);
        uniforms.push(UniformWords { x: n32, y: p, z: (n32 / 2) / p, w: 0 });
    }
    let mut dispatches: Vec<KernelDispatch> = Vec::new();
    let result_in_b: bool;
    if n == 256 {
        dispatches.push(KernelDispatch { kernel: RivalKernel::Local, slot: 0, reads_a: true, workgroups_x: 1, batch_on_x: false });
        result_in_b = true;
    } else {
        push_r842_dispatches(&mut dispatches, n, log_n);
        let total = num_r8 + if rem == 0 { 0 } else { 1 };
        result_in_b = total % 2 == 1;
    }
    RivalPlan { uniforms, dispatches, result_in_b }
}

/// Uniforms of a Gemini stage with stride `p`: `(N, p, log2(N), 0)`.
pub open spec fn gemini_uniforms(n: usize, p: nat, log_n: u32) -> UniformWords {
    UniformWords { x: n as u32, y: p as u32, z: log_n, w: 0 }
}

/// Largest size Gemini transforms in workgroup memory in a single dispatch.
pub const GEMINI_LOCAL_MAX: usize = 1024;

/// `p` is the plan that [`gemini_plan`] computes for `N = n` with `log2(N) = log_n`.
pub open spec fn is_gemini_plan(p: RivalPlan, n: usize, log_n: u32) -> bool {
    let num_r8 = r8_count(log_n);
    &&& n <= GEMINI_LOCAL_MAX ==> {
        &&& p.uniforms@ == seq![gemini_uniforms(n, 0, log_n)]
        &&& p.dispatches@ == seq![local_dispatch(true)]
        &&& p.result_in_b
    }
    &&& n > GEMINI_LOCAL_MAX ==> {
        &&& p.uniforms@.len() == r842_stage_count(log_n)
        &&& forall|i: int| 0 <= i < num_r8 ==> #[trigger] p.uniforms@[i] == gemini_uniforms(n, pow2(3 * i as nat), log_n)
        &&& (r8_has_r4(log_n) || r8_has_r2(log_n)) ==> p.uniforms@[num_r8 as int] == gemini_uniforms(n, pow2(3 * num_r8), log_n)
        &&& staged_dispatches(p.dispatches@, r842_kernels(log_n), n)
        &&& p.result_in_b == (r842_stage_count(log_n) % 2 == 1)
    }
}

/// Plan the Gemini engine for size `n` (with `log2(N)` taken as its trailing-zero count):
/// sizes up to [`GEMINI_LOCAL_MAX`] run as one local dispatch per transform; larger sizes run
/// `log2(N) / 3` Radix-8 stages with strides `8^s` and one Radix-4 or Radix-2 stage.
pub fn gemini_plan(n: usize) -> (p: RivalPlan)
    requires
        n > GEMINI_LOCAL_MAX ==> vstd::std_specs::bits::u64_trailing_zeros(n as u64) <= 33,
    ensures
        is_gemini_plan(p, n, crate::fft::spec_trailing_zeros(n)),
{
    let log_n = crate::fft::trailing_zeros(n);
    let n32 = n as u32;
    let mut uniforms: Vec<UniformWords> = Vec::new();
    let mut dispatches: Vec<KernelDispatch> = Vec::new();
    if n <= GEMINI_LOCAL_MAX {
        uniforms.push(UniformWords { x: n32, y: 0, z: log_n, w: 0 });
        dispatches.push(KernelDispatch { kernel: RivalKernel::Local, slot: 0, reads_a: true, workgroups_x: 1, batch_on_x: true });
        return RivalPlan { uniforms, dispatches, result_in_b: true };
    }
    let num_r8 = (log_n / 3) as usize;
    let rem = log_n % 3;
    let mut s: usize = 0;
    while s < num_r8
        invariant
            num_r8 == r8_count(log_n),
            log_n <= 33,
            n32 == n as u32,
            0 <= s <= num_r8,
            uniforms@.len() == s,
            forall|i: int| 0 <= i < s ==> #[trigger] uniforms@[i] == gemini_uniforms(n, pow2(3 * i as nat), log_n),
        decreases num_r8 - s,
    {
        let p = pow2_u32(3 * s as u32);
        uniforms.push(UniformWords { x: n32, y: p, z: log_n, w: 0 });
        s += 1;
    }
    if rem == 2 {
        let p = pow2_u32(3 * num_r8 as u32);
        uniforms.push(UniformWords { x: n32, y: p, z: log_n, w: 0 });
    }
    if rem == 1 {
        let p = pow2_u32(3 * num_r8 as u32 + if rem == 2 { 2 } else { 0 });
        uniforms.push(UniformWords { x: n32, y: p, z: log_n, w: 0 });
    }
    push_r842_dispatches(&mut dispatches, n, log_n);
    let total = num_r8 + if rem == 0 { 0 } else { 1 };
    RivalPlan { uniforms, dispatches, result_in_b: total % 2 == 1 }
}

/// Uniforms of a stage of the engines whose kernels derive the stride from a stage index:
/// `(N, stage, log2(N), 0)`.
pub open spec fn indexed_uniforms(n: usize, stage: nat, log_n: u32) -> UniformWords {
    UniformWords { x: n as u32, y: stage as u32, z: log_n, w: 0 }
}

/// `p` is the plan that [`mistral_plan`] computes for `N = n`, `log2(N) = log_n`.
pub open spec fn is_mistral_plan(p: RivalPlan, n: usize, log_n: u32) -> bool {
    let num_r8 = r8_count(log_n);
    &&& p.uniforms@.len() == r842_stage_count(log_n)
    &&& forall|i: int| 0 <= i < num_r8 ==> #[trigger] p.uniforms@[i] == indexed_uniforms(n, i as nat, log_n)
    &&& r8_has_r4(log_n) ==> p.uniforms@[num_r8 as int] == indexed_uniforms(n, 3 * num_r8, log_n)
    &&& r8_has_r2(log_n) ==> p.uniforms@[num_r8 as int] == indexed_uniforms(n, 3 * num_r8, log_n)
    &&& staged_dispatches(p.dispatches@, r842_kernels(log_n), n)
    &&& p.result_in_b == (r842_stage_count(log_n) % 2 == 1)
}

/// Plan the Mistral engine for `N = 2^log_n`: `log2(N) / 3` Radix-8 stages with stage index
/// `s` (the kernel's stride is `8^s`), then one Radix-4 or one Radix-2 stage whose uniform
/// carries `3 * (log2(N) / 3)`, the base-2 logarithm of the stride `8^(log2(N) / 3)` reached
/// after the Radix-8 stages (both of these kernels take the stride as `2^U.y`).
pub fn mistral_plan(n: usize, log_n: u32) -> (p: RivalPlan)
    ensures
        is_mistral_plan(p, n, log_n),
{
    let n32 = n as u32;
    let num_r8 = (log_n / 3) as usize;
    let rem = log_n % 3;
    let num_r4: usize = if rem == 2 { 1 } else { 0 };
    let has_r2 = rem == 1;
    let mut uniforms: Vec<UniformWords> = Vec::new();
    let mut s: usize = 0;
    while s < num_r8
        invariant
            num_r8 == r8_count(log_n),
            n32 == n as u32,
            0 <= s <= num_r8,
            uniforms@.len() == s,
            forall|i: int| 0 <= i < s ==> #[trigger] uniforms@[i] == indexed_uniforms(n, i as nat, log_n),
        decreases num_r8 - s,
    {
        uniforms.push(UniformWords { x: n32, y: s as u32, z: log_n, w: 0 });
        s += 1;
    }
    let mut s: usize = 0;
    while s < num_r4
        invariant
            num_r8 == r8_count(log_n),
            num_r4 == (if r8_has_r4(log_n) { 1nat } else { 0nat }),
            n32 == n as u32,
            0 <= s <= num_r4,
            uniforms@.len() == num_r8 + s,
            forall|i: int| 0 <= i < num_r8 ==> #[trigger] uniforms@[i] == indexed_uniforms(n, i as nat, log_n),
            s == 1 ==> uniforms@[num_r8 as int] == indexed_uniforms(n, 3 * num_r8 as nat, log_n),
        decreases num_r4 - s,
    {
        let r4_stage = 3 * num_r8 as u32 + 2 * s as u32;
        uniforms.push(UniformWords { x: n32, y: r4_stage, z: log_n, w: 0 });
        s += 1;
    }
    if has_r2 {
        let r2_stage = 3 * num_r8 as u32 + num_r4 as u32;
        uniforms.push(UniformWords { x: n32, y: r2_stage, z: log_n, w: 0 });
    }
    let mut dispatches: Vec<KernelDispatch> = Vec::new();
    push_r842_dispatches(&mut dispatches, n, log_n);
    let total = num_r8 + num_r4 + if has_r2 { 1 } else { 0 };
    RivalPlan { uniforms, dispatches, result_in_b: total % 2 == 1 }
}

/// The kernels of the Radix-4 pipeline with an optional final Radix-2 stage.
pub open spec fn r42_kernels(log_n: u32) -> Seq<RivalKernel> {
    mixed_radix_kernels(0, (log_n / 2) as nat, if log_n % 2 == 1 { 1 } else { 0 })
}

/// `p` is the plan that [`radix4_proper_plan`] computes for `N = n`, `log2(N) = log_n`.
pub open spec fn is_radix4_proper_plan(p: RivalPlan, n: usize, log_n: u32) -> bool {
    let num_r4 = (log_n / 2) as nat;
    &&& p.uniforms@.len() == num_r4 + (if log_n % 2 == 1 { 1nat } else { 0nat })
    &&& forall|i: int| 0 <= i < num_r4 ==> #[trigger] p.uniforms@[i] == indexed_uniforms(n, i as nat, log_n)
    &&& log_n % 2 == 1 ==> p.uniforms@[num_r4 as int] == indexed_uniforms(n, 2 * num_r4, log_n)
    &&& staged_dispatches(p.dispatches@, r42_kernels(log_n), n)
    &&& p.result_in_b == ((num_r4 + (if log_n % 2 == 1 { 1nat } else { 0nat })) % 2 == 1)
}

/// Plan the Radix-4 engine with a final Radix-2 stage for `N = 2^log_n`: `log2(N) / 2` Radix-4
/// stages with stage index `s` (stride `4^s`), then for odd `log2(N)` one Radix-2 stage whose
/// uniform carries `2 * (log2(N) / 2)`, so that its kernel's stride `2^U.y` is `4^(log2(N) / 2)`.
pub fn radix4_proper_plan(n: usize, log_n: u32) -> (p: RivalPlan)
    ensures
        is_radix4_proper_plan(p, n, log_n),
{
    let n32 = n as u32;
    let num_r4 = (log_n / 2) as usize;
    let has_r2 = log_n % 2 == 1;
    let mut uniforms: Vec<UniformWords> = Vec::new();
    let mut s: usize = 0;
    while s < num_r4
        invariant
            num_r4 == log_n / 2,
            n32 == n as u32,
            0 <= s <= num_r4,
            uniforms@.len() == s,
            forall|i: int| 0 <= i < s ==> #[trigger] uniforms@[i] == indexed_uniforms(n, i as nat, log_n),
        decreases num_r4 - s,
    {
        uniforms.push(UniformWords { x: n32, y: s as u32, z: log_n, w: 0 });
        s += 1;
    }
    if has_r2 {
        uniforms.push(UniformWords { x: n32, y: 2 * num_r4 as u32, z: log_n, w: 0 });
    }
    let mut dispatches: Vec<KernelDispatch> = Vec::new();
    push_mixed_dispatches(&mut dispatches, n, 0, num_r4, if has_r2 { 1 } else { 0 });
    let total = num_r4 + if has_r2 { 1 } else { 0 };
    RivalPlan { uniforms, dispatches, result_in_b: total % 2 == 1 }
}


/// Why a batch is refused by the engines that take power-of-two transforms only.
#[derive(Debug, Clone, Copy, PartialEq, Eq, Structural)]
pub enum BatchShapeError {
    /// The first vector's length is zero or not a power of two.
    NotPowerOfTwo,
    /// Some vector's length differs from the first one's.
    UnequalLengths,
}

/// Shape of a batch for the engines that take power-of-two transforms only: `None` for an
/// empty batch, otherwise the common length `n` and `log2(n)`. A first length that is not a
/// power of two is refused first; then a batch whose lengths differ.
pub fn power_of_two_batch_shape(lengths: &[usize]) -> (r: Result<Option<(usize, u32)>, BatchShapeError>)
    ensures
        lengths@.len() == 0 ==> r == Ok::<Option<(usize, u32)>, BatchShapeError>(None),
        lengths@.len() > 0 && !vstd::arithmetic::power2::is_pow2(lengths@[0] as int)
            ==> r == Err::<Option<(usize, u32)>, BatchShapeError>(BatchShapeError::NotPowerOfTwo),
        lengths@.len() > 0 && vstd::arithmetic::power2::is_pow2(lengths@[0] as int) && !lengths_agree(lengths@)
            ==> r == Err::<Option<(usize, u32)>, BatchShapeError>(BatchShapeError::UnequalLengths),
        lengths@.len() > 0 && vstd::arithmetic::power2::is_pow2(lengths@[0] as int) && lengths_agree(lengths@)
            ==> (r matches Ok(Some((n, log_n))) && n == lengths@[0] && log_n == spec_trailing_zeros(n)
            && pow2(log_n as nat) == n),
{
    if lengths.len() == 0 {
        return Ok(None);
    }
    let n = lengths[0];
    if !crate::fft::is_power_of_two(n) {
        return Err(BatchShapeError::NotPowerOfTwo);
    }
    let mut i: usize = 0;
    while i < lengths.len()
        invariant
            0 <= i <= lengths@.len(),
            n == lengths@[0],
            vstd::arithmetic::power2::is_pow2(n as int),
            forall|j: int| 0 <= j < i ==> #[trigger] lengths@[j] == n,
        decreases lengths@.len() - i,
    {
        if lengths[i] != n {
            return Err(BatchShapeError::UnequalLengths);
        }
        i += 1;
    }
    proof {
        crate::fft::lemma_pow2_log(n);
    }
    Ok(Some((n, crate::fft::trailing_zeros(n))))
}

/// The rival engines whose stage plans this module computes.
#[derive(Debug, Clone, Copy, PartialEq, Eq, Structural)]
pub enum RivalEngine {
    Codex,
    Gemini,
    Mistral,
    Radix4Proper,
}

/// `p` is the plan the given engine computes for `N = n`, `log2(N) = log_n`.
pub open spec fn is_rival_plan(p: RivalPlan, engine: RivalEngine, n: usize, log_n: u32) -> bool {
    match engine {
        RivalEngine::Codex => is_codex_plan(p, n, log_n),
        RivalEngine::Gemini => is_gemini_plan(p, n, log_n),
        RivalEngine::Mistral => is_mistral_plan(p, n, log_n),
        RivalEngine::Radix4Proper => is_radix4_proper_plan(p, n, log_n),
    }
}

/// Whether the engine runs size `n` as a single local dispatch.
pub open spec fn runs_locally(engine: RivalEngine, n: usize) -> bool {
    match engine {
        RivalEngine::Codex => n == 256,
        RivalEngine::Gemini => n <= GEMINI_LOCAL_MAX,
        _ => false,
    }
}

/// The kernels of the dispatches of a plan, in order.
pub open spec fn dispatch_kernels(p: RivalPlan) -> Seq<RivalKernel> {
    p.dispatches@.map_values(|d: KernelDispatch| d.kernel)
}

/// Base-2 logarithm of the product of the radices of a prefix of `num_r8` Radix-8, `num_r4`
/// Radix-4 and `num_r2` Radix-2 stages.
proof fn lemma_mixed_prefix_log2(num_r8: nat, num_r4: nat, num_r2: nat, i: int)
    requires
        0 <= i <= num_r8 + num_r4 + num_r2,
    ensures
        kernels_log2(mixed_radix_kernels(num_r8, num_r4, num_r2).take(i)) == (if i <= num_r8 {
            3 * i
        } else if i <= num_r8 + num_r4 {
            3 * num_r8 + 2 * (i - num_r8)
        } else {
            3 * num_r8 + 2 * num_r4 + (i - num_r8 - num_r4)
        }),
    decreases i,
{
    let ks = mixed_radix_kernels(num_r8, num_r4, num_r2);
    if i > 0 {
        lemma_mixed_prefix_log2(num_r8, num_r4, num_r2, i - 1);
        assert(ks.take(i).drop_last() =~= ks.take(i - 1));
        assert(ks.take(i).last() == ks[i - 1]);
    } else {
        assert(ks.take(0).len() == 0);
    }
}

/// The dispatches of a staged plan: dispatch `i` runs kernel `ks[i]`, reads slot `i` and reads A
/// exactly when `i` is even.
proof fn lemma_staged_facts(ds: Seq<KernelDispatch>, ks: Seq<RivalKernel>, n: usize)
    requires
        staged_dispatches(ds, ks, n),
    ensures
        ds.map_values(|d: KernelDispatch| d.kernel) == ks,
        forall|i: int| 0 <= i < ds.len() ==> (#[trigger] ds[i]).slot == i && ds[i].reads_a == (i % 2 == 0),
{
    assert forall|i: int| 0 <= i < ds.len() implies (#[trigger] ds[i]).slot == i && ds[i].reads_a == (i % 2 == 0) by {
        assert(ds[i] == ds[i]);
    }
    assert(ds.map_values(|d: KernelDispatch| d.kernel) =~= ks);
}

/// Ping-pong law of the rival engines: dispatch `i` reads buffer A exactly when `i` is even
/// (so every dispatch reads what the previous one wrote) and reads a uniform slot that exists,
/// and the result is read from the buffer the last dispatch wrote (buffer A if nothing is
/// dispatched).
pub proof fn law_rival_ping_pong(p: RivalPlan, engine: RivalEngine, n: usize, log_n: u32)
    requires
        is_rival_plan(p, engine, n, log_n),
        engine == RivalEngine::Codex ==> n == pow2(log_n as nat),
    ensures
        forall|i: int| 0 <= i < p.dispatches@.len() ==> {
            &&& (#[trigger] p.dispatches@[i]).reads_a == (i % 2 == 0)
            &&& p.dispatches@[i].slot < p.uniforms@.len()
        },
        p.dispatches@.len() == 0 ==> !p.result_in_b,
        p.dispatches@.len() > 0 ==> p.result_in_b == p.dispatches@.last().reads_a,
{
    let ds = p.dispatches@;
    if runs_locally(engine, n) {
        assert(ds.len() == 1);
        assert(ds.last() == ds[0]);
        if engine == RivalEngine::Codex {
            vstd::arithmetic::power2::lemma2_to64();
            if log_n < 8 {
                vstd::arithmetic::power2::lemma_pow2_strictly_increases(log_n as nat, 8);
            } else if log_n > 8 {
                vstd::arithmetic::power2::lemma_pow2_strictly_increases(8, log_n as nat);
            }
            assert(log_n == 8);
        }
    } else {
        let ks = match engine {
            RivalEngine::Radix4Proper => r42_kernels(log_n),
            _ => r842_kernels(log_n),
        };
        let r4c: nat = if r8_has_r4(log_n) { 1 } else { 0 };
        let r2c: nat = if r8_has_r2(log_n) { 1 } else { 0 };
        assert(staged_dispatches(ds, ks, n));
        lemma_staged_facts(ds, ks, n);
        assert(ks.len() == p.uniforms@.len());
        if ds.len() > 0 {
            assert(ds.last() == ds[ds.len() - 1]);
        }
    }
}

/// Coverage law of the staged rival pipelines: every dispatch runs a Radix-8, Radix-4 or
/// Radix-2 kernel with one transform per workgroup row, and launches one invocation per
/// butterfly of its kernel (`N / 8`, `N / 4` or `N / 2`) in workgroups of 256, with no more
/// workgroups than that needs.
pub proof fn law_rival_workgroups_cover_butterflies(p: RivalPlan, engine: RivalEngine, n: usize, log_n: u32)
    requires
        is_rival_plan(p, engine, n, log_n),
        !runs_locally(engine, n),
    ensures
        forall|i: int| 0 <= i < p.dispatches@.len() ==> {
            let d = #[trigger] p.dispatches@[i];
            let butterflies = match d.kernel {
                RivalKernel::Radix8 => ((n as u32) / 8) as int,
                RivalKernel::Radix4 => ((n as u32) / 4) as int,
                _ => ((n as u32) / 2) as int,
            };
            &&& d.kernel != RivalKernel::Local
            &&& !d.batch_on_x
            &&& d.workgroups_x * 256 >= butterflies
            &&& butterflies > 0 ==> (d.workgroups_x - 1) * 256 < butterflies
        },
{
    let ds = p.dispatches@;
    let ks = match engine {
        RivalEngine::Radix4Proper => r42_kernels(log_n),
        _ => r842_kernels(log_n),
    };
    assert(staged_dispatches(ds, ks, n));
    lemma_div_ceil(((n as u32) / 8) as int, 256);
    lemma_div_ceil(((n as u32) / 4) as int, 256);
    lemma_div_ceil(((n as u32) / 2) as int, 256);
    assert forall|i: int| 0 <= i < ds.len() implies {
        let d = #[trigger] ds[i];
        let butterflies = match d.kernel {
            RivalKernel::Radix8 => ((n as u32) / 8) as int,
            RivalKernel::Radix4 => ((n as u32) / 4) as int,
            _ => ((n as u32) / 2) as int,
        };
        &&& d.kernel != RivalKernel::Local
        &&& !d.batch_on_x
        &&& d.workgroups_x * 256 >= butterflies
        &&& butterflies > 0 ==> (d.workgroups_x - 1) * 256 < butterflies
    } by {
        assert(ds[i].kernel == ks[i]);
        assert(ks[i] != RivalKernel::Local);
    }
}

/// Uniform contents law of the staged rival pipelines: the uniform entry every dispatch reads
/// exists and carries the transform length `N` (as the kernels' 32-bit word) and a zero last
/// word; its third word is `log2(N)`, except for Codex, where it is the twiddle stride
/// `(N / radix) / p` of the dispatch's kernel radix and stride `p`.
pub proof fn law_rival_uniforms_name_the_transform(p: RivalPlan, engine: RivalEngine, n: usize, log_n: u32)
    requires
        is_rival_plan(p, engine, n, log_n),
        !runs_locally(engine, n),
        engine == RivalEngine::Codex ==> log_n <= 33,
    ensures
        forall|i: int| 0 <= i < p.dispatches@.len() ==> {
            let d = #[trigger] p.dispatches@[i];
            let u = p.uniforms@[d.slot as int];
            let radix: u32 = match d.kernel {
                RivalKernel::Radix8 => 8,
                RivalKernel::Radix4 => 4,
                _ => 2,
            };
            &&& d.slot < p.uniforms@.len()
            &&& u.x == n as u32
            &&& u.w == 0
            &&& engine != RivalEngine::Codex ==> u.z == log_n
            &&& engine == RivalEngine::Codex ==> u.z == ((n as u32) / radix) / u.y
        },
{
    let ds = p.dispatches@;
    let ks = match engine {
        RivalEngine::Radix4Proper => r42_kernels(log_n),
        _ => r842_kernels(log_n),
    };
    assert(staged_dispatches(ds, ks, n));
    lemma_staged_facts(ds, ks, n);
    let a = r8_count(log_n);
    assert forall|i: int| 0 <= i < ds.len() implies {
        let d = #[trigger] ds[i];
        let u = p.uniforms@[d.slot as int];
        let radix: u32 = match d.kernel {
            RivalKernel::Radix8 => 8,
            RivalKernel::Radix4 => 4,
            _ => 2,
        };
        &&& d.slot < p.uniforms@.len()
        &&& u.x == n as u32
        &&& u.w == 0
        &&& engine != RivalEngine::Codex ==> u.z == log_n
        &&& engine == RivalEngine::Codex ==> u.z == ((n as u32) / radix) / u.y
    } by {
        assert(ds[i].slot == i);
        assert(ds[i].kernel == ks[i]);
        if engine == RivalEngine::Radix4Proper {
            let b = (log_n / 2) as int;
            if i < b {
                assert(p.uniforms@[i] == indexed_uniforms(n, i as nat, log_n));
            } else {
                assert(p.uniforms@[b] == indexed_uniforms(n, 2 * b as nat, log_n));
            }
        } else if i < a {
            assert(ks[i] == RivalKernel::Radix8);
            match engine {
                RivalEngine::Codex => {
                    vstd::arithmetic::power2::lemma_pow2_pos(3 * i as nat);
                    lemma_u32_pow2_no_overflow(3 * i as nat);
                    assert(p.uniforms@[i] == codex_uniforms(n, 8, pow2(3 * i as nat)));
                    assert(p.uniforms@[i].z == ((n as u32) / 8u32) / p.uniforms@[i].y);
                },
                RivalEngine::Gemini => {
                    assert(p.uniforms@[i] == gemini_uniforms(n, pow2(3 * i as nat), log_n));
                },
                _ => {
                    assert(p.uniforms@[i] == indexed_uniforms(n, i as nat, log_n));
                },
            }
        } else {
            assert(i == a);
            if r8_has_r4(log_n) {
                assert(ks[i] == RivalKernel::Radix4);
                match engine {
                    RivalEngine::Codex => {
                        vstd::arithmetic::power2::lemma_pow2_pos(3 * a);
                        lemma_u32_pow2_no_overflow(3 * a);
                        assert(p.uniforms@[i] == codex_uniforms(n, 4, pow2(3 * a)));
                        assert(p.uniforms@[i].z == ((n as u32) / 4u32) / p.uniforms@[i].y);
                    },
                    RivalEngine::Gemini => {
                        assert(p.uniforms@[i] == gemini_uniforms(n, pow2(3 * a), log_n));
                    },
                    _ => {
                        assert(p.uniforms@[i] == indexed_uniforms(n, 3 * a, log_n));
                    },
                }
            } else {
                assert(r8_has_r2(log_n));
                assert(ks[i] == RivalKernel::Radix2);
                match engine {
                    RivalEngine::Codex => {
                        vstd::arithmetic::power2::lemma_pow2_pos(3 * a);
                        lemma_u32_pow2_no_overflow(3 * a);
                        assert(p.uniforms@[i] == codex_uniforms(n, 2, pow2(3 * a)));
                        assert(p.uniforms@[i].z == ((n as u32) / 2u32) / p.uniforms@[i].y);
                    },
                    RivalEngine::Gemini => {
                        assert(p.uniforms@[i] == gemini_uniforms(n, pow2(3 * a), log_n));
                    },
                    _ => {
                        assert(p.uniforms@[i] == indexed_uniforms(n, 3 * a, log_n));
                    },
                }
            }
        }
    }
}

/// Radix law of the staged rival pipelines: the radices of the dispatched stages multiply to
/// `N = 2^log_n` (the local paths transform the whole signal in one dispatch instead).
pub proof fn law_rival_radices_cover_n(p: RivalPlan, engine: RivalEngine, n: usize, log_n: u32)
    requires
        is_rival_plan(p, engine, n, log_n),
        !runs_locally(engine, n),
    ensures
        kernels_log2(dispatch_kernels(p)) == log_n,
{
    let ds = p.dispatches@;
    match engine {
        RivalEngine::Radix4Proper => {
            let (a, b, c) = (0nat, (log_n / 2) as nat, if log_n % 2 == 1 { 1nat } else { 0nat });
            lemma_staged_facts(ds, r42_kernels(log_n), n);
            lemma_mixed_prefix_log2(a, b, c, (a + b + c) as int);
            assert(mixed_radix_kernels(a, b, c).take((a + b + c) as int) =~= mixed_radix_kernels(a, b, c));
        },
        _ => {
            let (a, b, c) = (
                r8_count(log_n),
                if r8_has_r4(log_n) { 1nat } else { 0nat },
                if r8_has_r2(log_n) { 1nat } else { 0nat },
            );
            lemma_staged_facts(ds, r842_kernels(log_n), n);
            lemma_mixed_prefix_log2(a, b, c, (a + b + c) as int);
            assert(mixed_radix_kernels(a, b, c).take((a + b + c) as int) =~= mixed_radix_kernels(a, b, c));
        },
    }
}

/// Stride law of the Codex and Gemini pipelines: the stride `p` in the uniforms of every
/// dispatched stage is the product of the radices of the stages dispatched before it.
pub proof fn law_rival_strides(p: RivalPlan, engine: RivalEngine, n: usize, log_n: u32)
    requires
        is_rival_plan(p, engine, n, log_n),
        engine == RivalEngine::Codex || engine == RivalEngine::Gemini,
        !runs_locally(engine, n),
    ensures
        forall|i: int| 0 <= i < p.dispatches@.len()
            ==> p.uniforms@[(#[trigger] p.dispatches@[i]).slot as int].y == pow2(kernels_log2(dispatch_kernels(p).take(i))) as u32,
{
    let ds = p.dispatches@;
    let (a, b, c) = (
        r8_count(log_n),
        if r8_has_r4(log_n) { 1nat } else { 0nat },
        if r8_has_r2(log_n) { 1nat } else { 0nat },
    );
    lemma_staged_facts(ds, r842_kernels(log_n), n);
    assert forall|i: int| 0 <= i < ds.len()
        implies p.uniforms@[(#[trigger] ds[i]).slot as int].y == pow2(kernels_log2(dispatch_kernels(p).take(i))) as u32 by {
        lemma_mixed_prefix_log2(a, b, c, i);
    }
}

/// Base-2 logarithm of the stride a kernel of the stage-indexed engines derives from the `y` word
/// of its uniforms: the Radix-8 kernel computes `p = 8^y`, the Radix-2 kernels `p = 2^y`, the
/// Radix-4 kernel of the Radix-4 engine `p = 4^y`, and the Radix-4 kernel of the Mistral engine,
/// which runs once after the Radix-8 stages, takes `y` as the base-2 logarithm of `p`.
pub open spec fn indexed_stride_log2(engine: RivalEngine, kernel: RivalKernel, y: u32) -> nat {
    match kernel {
        RivalKernel::Radix8 => 3 * y as nat,
        RivalKernel::Radix4 => if engine == RivalEngine::Mistral { y as nat } else { 2 * y as nat },
        RivalKernel::Radix2 => y as nat,
        RivalKernel::Local => 0,
    }
}

/// Stride law of the stage-indexed pipelines (Mistral, Radix-4 with final Radix-2): the stride
/// each kernel derives from its uniforms is the product of the radices of the stages
/// dispatched before it.
#[verifier::spinoff_prover]
pub proof fn law_indexed_strides(p: RivalPlan, engine: RivalEngine, n: usize, log_n: u32)
    requires
        is_rival_plan(p, engine, n, log_n),
        engine == RivalEngine::Mistral || engine == RivalEngine::Radix4Proper,
    ensures
        forall|i: int| 0 <= i < p.dispatches@.len()
            ==> indexed_stride_log2(engine, (#[trigger] p.dispatches@[i]).kernel, p.uniforms@[p.dispatches@[i].slot as int].y)
                == kernels_log2(dispatch_kernels(p).take(i)),
{
    let ds = p.dispatches@;
    if engine == RivalEngine::Mistral {
        let (a, b, c) = (
            r8_count(log_n),
            if r8_has_r4(log_n) { 1nat } else { 0nat },
            if r8_has_r2(log_n) { 1nat } else { 0nat },
        );
        lemma_staged_facts(ds, r842_kernels(log_n), n);
        assert forall|i: int| 0 <= i < ds.len() implies indexed_stride_log2(
            engine,
            (#[trigger] ds[i]).kernel,
            p.uniforms@[ds[i].slot as int].y,
        ) == kernels_log2(dispatch_kernels(p).take(i)) by {
            lemma_mixed_prefix_log2(a, b, c, i);
            let ks = r842_kernels(log_n);
            assert(ds[i].slot == i);
            assert(ds[i].kernel == ks[i]);
            if i < a {
                assert(ks[i] == RivalKernel::Radix8);
                assert(p.uniforms@[i] == indexed_uniforms(n, i as nat, log_n));
                assert(p.uniforms@[i].y == i);
            } else if b == 1 {
                assert(i == a);
                assert(ks[i] == RivalKernel::Radix4);
                assert(p.uniforms@[i].y == 3 * a);
            } else {
                assert(i == a && c == 1);
                assert(ks[i] == RivalKernel::Radix2);
                assert(p.uniforms@[i].y == 3 * a);
            }
        }
    } else {
        let (a, b, c) = (0nat, (log_n / 2) as nat, if log_n % 2 == 1 { 1nat } else { 0nat });
        lemma_staged_facts(ds, r42_kernels(log_n), n);
        assert forall|i: int| 0 <= i < ds.len() implies indexed_stride_log2(
            engine,
            (#[trigger] ds[i]).kernel,
            p.uniforms@[ds[i].slot as int].y,
        ) == kernels_log2(dispatch_kernels(p).take(i)) by {
            lemma_mixed_prefix_log2(a, b, c, i);
            assert(ds[i].slot == i);
            if i < b {
                assert(ds[i].kernel == RivalKernel::Radix4);
                assert(p.uniforms@[i] == indexed_uniforms(n, i as nat, log_n));
                assert(p.uniforms@[i].y == i);
            } else {
                assert(i == b && c == 1);
                assert(ds[i].kernel == RivalKernel::Radix2);
                assert(p.uniforms@[i].y == 2 * b);
            }
        }
    }
}

} // verus!
