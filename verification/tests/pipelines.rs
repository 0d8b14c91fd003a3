use wgsl_fft::pipelines::{get_buffer_pair_for_mode, plan_fft_passes, plan_normalize, scratch_bytes, BufferRole, CtKernel};
use wgsl_fft::uniforms::UniformWords;
use wgsl_fft::FftDirection;

#[test]
fn direction_codes() {
    assert_eq!(FftDirection::Forward.code(), 0);
    assert_eq!(FftDirection::Inverse.code(), 1);
}

#[test]
fn buffer_pair_depends_on_parity() {
    let (a, b) = get_buffer_pair_for_mode(4, &"out", &"scratch");
    assert_eq!((*a, *b), ("out", "scratch"));
    let (a, b) = get_buffer_pair_for_mode(3, &"out", &"scratch");
    assert_eq!((*a, *b), ("scratch", "out"));
}

#[test]
fn passes_for_odd_log2() {
    let passes = plan_fft_passes(8, FftDirection::Forward);
    assert_eq!(passes.len(), 4);
    assert_eq!(passes[0].kernel, CtKernel::BitReversal);
    assert_eq!((passes[0].src, passes[0].dst), (BufferRole::Input, BufferRole::Scratch));
    assert_eq!(passes[0].params, UniformWords { x: 8, y: 3, z: 0, w: 0 });
    assert_eq!(passes[0].workgroups_x, 1);
    assert_eq!((passes[1].src, passes[1].dst), (BufferRole::Scratch, BufferRole::Output));
    assert_eq!((passes[2].src, passes[2].dst), (BufferRole::Output, BufferRole::Scratch));
    assert_eq!((passes[3].src, passes[3].dst), (BufferRole::Scratch, BufferRole::Output));
    assert_eq!(passes[2].params, UniformWords { x: 8, y: 1, z: 0, w: 0 });
    assert_eq!(passes[3].kernel, CtKernel::Butterfly);
}

#[test]
fn passes_for_even_log2_inverse() {
    let passes = plan_fft_passes(1024, FftDirection::Inverse);
    assert_eq!(passes.len(), 11);
    assert_eq!(passes[0].dst, BufferRole::Output);
    assert_eq!(passes[0].workgroups_x, 4);
    assert_eq!(passes[1].params, UniformWords { x: 1024, y: 0, z: 1, w: 0 });
    assert_eq!(passes[1].workgroups_x, 2);
    assert_eq!(passes[10].dst, BufferRole::Output);
    assert!(passes.iter().all(|p| p.dst != BufferRole::Input && p.src != p.dst));
}

#[test]
fn single_point_transform_is_bit_reversal_only() {
    let passes = plan_fft_passes(1, FftDirection::Forward);
    assert_eq!(passes.len(), 1);
    assert_eq!(passes[0].dst, BufferRole::Output);
}

#[test]
fn normalize_and_scratch() {
    assert_eq!(plan_normalize(1024), (UniformWords { x: 1024, y: 0, z: 0, w: 0 }, 4));
    assert_eq!(plan_normalize(100), (UniformWords { x: 100, y: 0, z: 0, w: 0 }, 1));
    assert_eq!(scratch_bytes(1024), 8192);
}

#[test]
fn uniform_words_to_bytes() {
    let w = UniformWords { x: 0x0102_0304, y: 1, z: 0, w: 0xff };
    assert_eq!(w.to_array(), [0x0102_0304, 1, 0, 0xff]);
    let bytes = w.to_bytes();
    assert_eq!(bytes.len(), 16);
    if 1u32.to_ne_bytes()[0] == 1 {
        assert_eq!(&bytes[0..4], &[4u8, 3, 2, 1]);
        assert_eq!(&bytes[12..16], &[0xffu8, 0, 0, 0]);
    } else {
        assert_eq!(&bytes[0..4], &[1u8, 2, 3, 4]);
    }
}
