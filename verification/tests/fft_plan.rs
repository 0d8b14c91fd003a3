use wgsl_fft::fft::{
    calculate_num_r4_stages, calculate_total_stages, calculate_twiddle_count, div_ceil_u32, div_ceil_u64,
    is_power_of_two, plan_data_buffers, plan_size_cache, plan_transform, result_bytes, split_results,
    trailing_zeros, uniform_stride, validate_batch_lengths, validate_input_size, workgroup_count, ComputeKernel,
    TransformRoute,
};
use wgsl_fft::{FftError, FftUniforms};

const MAX_BINDING: u64 = 128 * 1024 * 1024;

#[test]
fn power_of_two_detection() {
    assert!(!is_power_of_two(0));
    assert!(is_power_of_two(1));
    assert!(is_power_of_two(2));
    assert!(!is_power_of_two(3));
    assert!(is_power_of_two(4));
    assert!(!is_power_of_two(6));
    assert!(is_power_of_two(1024));
    assert!(!is_power_of_two(1023));
    assert!(!is_power_of_two(150));
    assert!(is_power_of_two(1 << 40));
}

#[test]
fn trailing_zero_count_is_log2_of_powers_of_two() {
    assert_eq!(trailing_zeros(0), usize::BITS);
    assert_eq!(trailing_zeros(1), 0);
    assert_eq!(trailing_zeros(8), 3);
    assert_eq!(trailing_zeros(1024), 10);
    assert_eq!(trailing_zeros(12), 2);
}

#[test]
fn zero_length_is_rejected() {
    assert!(validate_input_size(1).is_ok());
    match validate_input_size(0) {
        Err(FftError::ValidationError(m)) => assert_eq!(m, "Transform length must be non-zero"),
        other => panic!("unexpected {:?}", other),
    }
}

#[test]
fn batch_lengths_must_agree() {
    assert!(validate_batch_lengths(&[16, 16, 16]).is_ok());
    match validate_batch_lengths(&[16, 16, 8]) {
        Err(FftError::BatchError(m)) => assert_eq!(m, "All input vectors in a batch must have the same length"),
        other => panic!("unexpected {:?}", other),
    }
    match validate_batch_lengths(&[0, 0]) {
        Err(FftError::ValidationError(m)) => assert_eq!(m, "Transform length must be non-zero"),
        other => panic!("unexpected {:?}", other),
    }
    match validate_batch_lengths(&[0, 4]) {
        Err(FftError::ValidationError(_)) => {}
        other => panic!("unexpected {:?}", other),
    }
}

#[test]
fn transform_routes() {
    assert_eq!(plan_transform(&[]).unwrap(), TransformRoute::Empty);
    assert_eq!(
        plan_transform(&[1024, 1024]).unwrap(),
        TransformRoute::PowerOfTwo { n: 1024, log_n: 10, batch_size: 2 }
    );
    assert_eq!(plan_transform(&[1]).unwrap(), TransformRoute::PowerOfTwo { n: 1, log_n: 0, batch_size: 1 });
    assert_eq!(plan_transform(&[150]).unwrap(), TransformRoute::Arbitrary { n: 150 });
    assert_eq!(plan_transform(&[15, 15, 15]).unwrap(), TransformRoute::Arbitrary { n: 15 });
    assert!(matches!(plan_transform(&[0]), Err(FftError::ValidationError(_))));
    assert!(matches!(plan_transform(&[4, 8]), Err(FftError::BatchError(_))));
}

#[test]
fn stage_counts() {
    assert_eq!(calculate_num_r4_stages(true, 10), 5);
    assert_eq!(calculate_num_r4_stages(true, 11), 5);
    assert_eq!(calculate_num_r4_stages(false, 11), 0);
    assert_eq!(calculate_total_stages(true, 5, true, 11), 6);
    assert_eq!(calculate_total_stages(false, 0, false, 11), 11);
    assert_eq!(calculate_twiddle_count(true, 1024), 1024);
    assert_eq!(calculate_twiddle_count(false, 1024), 512);
}

#[test]
fn rounding_helpers() {
    assert_eq!(div_ceil_u32(0, 256), 0);
    assert_eq!(div_ceil_u32(256, 256), 1);
    assert_eq!(div_ceil_u32(257, 256), 2);
    assert_eq!(div_ceil_u64(16, 256), 1);
    assert_eq!(div_ceil_u64(16, 4), 4);
    assert_eq!(workgroup_count(512), 2);
    assert_eq!(workgroup_count(1), 1);
    assert_eq!(uniform_stride(256), 256);
    assert_eq!(uniform_stride(4), 16);
    assert_eq!(uniform_stride(12), 24);
}

#[test]
fn data_buffers_are_capped() {
    let b = plan_data_buffers(1024, MAX_BINDING);
    assert_eq!(b.single_fft_bytes, 8192);
    assert_eq!(b.max_batch_size, 1024);
    assert_eq!(b.data_bytes, 8192 * 1024);
    let small = plan_data_buffers(1024, 20000);
    assert_eq!(small.max_batch_size, 2);
    assert_eq!(small.data_bytes, 16384);
}

#[test]
fn radix4_plan_for_1024() {
    let p = plan_size_cache(1024, 10, true, MAX_BINDING, 256);
    assert_eq!(p.single_fft_bytes, 8192);
    assert_eq!(p.max_batch_size, 1024);
    assert_eq!(p.twiddle_count, 1024);
    assert_eq!(p.uniform_stride, 256);
    assert_eq!(p.uniform_buffer_size, 256 * 5);
    let strides: Vec<u32> = p.uniforms.iter().map(|u| u.uniforms.stage).collect();
    assert_eq!(strides, vec![1, 4, 16, 64, 256]);
    let offsets: Vec<u64> = p.uniforms.iter().map(|u| u.offset).collect();
    assert_eq!(offsets, vec![0, 256, 512, 768, 1024]);
    assert_eq!(p.uniforms[0].uniforms, FftUniforms { n: 1024, stage: 1, log_n: 10, _pad: 0 });
    assert!(p.r2_binding.is_none());
    assert!(p.result_in_b);
    assert_eq!(p.wg_n2, 2);
    assert_eq!(p.wg_r4, 1);
    let d = p.dispatches();
    assert_eq!(d.len(), 5);
    for (i, x) in d.iter().enumerate() {
        assert_eq!(x.kernel, ComputeKernel::Main);
        assert_eq!(x.binding.reads_a, i % 2 == 0);
        assert_eq!(x.binding.slot, i);
        assert_eq!(x.workgroups_x, 1);
    }
    // With five stages the last one reads A and writes B, where the result is read.
    assert!(d[4].binding.reads_a);
}

#[test]
fn radix4_plan_with_final_radix2_stage() {
    let p = plan_size_cache(8, 3, true, MAX_BINDING, 256);
    let strides: Vec<u32> = p.uniforms.iter().map(|u| u.uniforms.stage).collect();
    assert_eq!(strides, vec![1, 4]);
    let r2 = p.r2_binding.unwrap();
    assert_eq!(r2.slot, 1);
    assert_eq!(r2.uniform_offset, 256);
    assert!(!r2.reads_a);
    assert!(!p.result_in_b);
    let d = p.dispatches();
    assert_eq!(d.len(), 2);
    assert_eq!(d[0].kernel, ComputeKernel::Main);
    assert_eq!(d[1].kernel, ComputeKernel::Radix2);
    assert_eq!(d[1].workgroups_x, 1);
    assert_eq!(p.uniform_buffer_size, 512);
}

#[test]
fn radix4_plan_for_two_points_dispatches_the_radix2_stage() {
    let p = plan_size_cache(2, 1, true, MAX_BINDING, 256);
    assert_eq!(p.wg_r4, 0);
    assert!(p.r2_binding.is_some());
    let d = p.dispatches();
    assert_eq!(d.len(), 1);
    assert_eq!(d[0].kernel, ComputeKernel::Radix2);
    assert_eq!(d[0].workgroups_x, 1);
    assert!(d[0].binding.reads_a);
    assert_eq!(p.uniforms[0].uniforms.stage, 1);
    assert!(p.result_in_b);
    let one = plan_size_cache(1, 0, true, MAX_BINDING, 256);
    assert!(one.dispatches().is_empty());
    assert!(!one.result_in_b);
    assert_eq!(one.uniform_buffer_size, 256);
}

#[test]
fn legacy_plan_uses_stage_indices() {
    let p = plan_size_cache(8, 3, false, MAX_BINDING, 64);
    let stages: Vec<u32> = p.uniforms.iter().map(|u| u.uniforms.stage).collect();
    assert_eq!(stages, vec![0, 1, 2]);
    assert_eq!(p.twiddle_count, 4);
    assert_eq!(p.uniform_stride, 64);
    assert_eq!(p.wg_r4, 0);
    assert!(p.result_in_b);
    let d = p.dispatches();
    assert_eq!(d.len(), 3);
    assert!(d.iter().all(|x| x.kernel == ComputeKernel::Main && x.workgroups_x == 1));
    assert!(d[2].binding.reads_a);
}

#[test]
fn uniforms_serialize_in_native_byte_order() {
    let u = FftUniforms { n: 1024, stage: 4, log_n: 10, _pad: 0 };
    let bytes = u.to_bytes();
    let little = vec![0u8, 4, 0, 0, 4, 0, 0, 0, 10, 0, 0, 0, 0, 0, 0, 0];
    let big = vec![0u8, 0, 4, 0, 0, 0, 0, 4, 0, 0, 0, 10, 0, 0, 0, 0];
    if 1u32.to_ne_bytes()[0] == 1 {
        assert_eq!(bytes, little);
    } else {
        assert_eq!(bytes, big);
    }
}

#[test]
fn results_split_into_transforms() {
    let out = vec![1, 2, 3, 4, 5, 6, 7];
    let parts = split_results(out, 3);
    assert_eq!(parts, vec![vec![1, 2, 3], vec![4, 5, 6], vec![7]]);
    let exact = split_results(vec![1u8; 8], 4);
    assert_eq!(exact.len(), 2);
    let empty: Vec<Vec<u8>> = split_results(Vec::new(), 4);
    assert!(empty.is_empty());
}

#[test]
fn result_byte_counts() {
    assert_eq!(result_bytes(1024, 4), 32768);
    assert_eq!(result_bytes(16, 0), 0);
}

#[test]
fn largest_batch_fits_the_data_buffers() {
    let p = plan_size_cache(64, 6, true, 20000, 256);
    assert_eq!(p.max_batch_size, 39);
    assert!(result_bytes(64, p.max_batch_size) <= p.data_bytes);
    assert_eq!(result_bytes(64, p.max_batch_size), p.data_bytes);
}

#[test]
fn full_batches_split_into_one_result_each() {
    let out: Vec<u32> = (0..12).collect();
    let parts = split_results(out, 4);
    assert_eq!(parts.len(), 3);
    assert!(parts.iter().all(|p| p.len() == 4));
    assert_eq!(parts[2], vec![8, 9, 10, 11]);
}

#[test]
fn bindings_alternate_and_result_follows_last_stage() {
    let p = plan_size_cache(128, 7, true, MAX_BINDING, 256);
    let reads: Vec<bool> = p.stage_bindings.iter().map(|b| b.reads_a).collect();
    assert_eq!(reads, vec![true, false, true]);
    assert!(!p.r2_binding.unwrap().reads_a);
    assert!(!p.result_in_b);
    let q = plan_size_cache(64, 6, true, MAX_BINDING, 256);
    assert!(q.r2_binding.is_none());
    assert!(q.stage_bindings.last().unwrap().reads_a);
    assert!(q.result_in_b);
}
