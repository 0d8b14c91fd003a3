use wgsl_fft::ping_pong_integration::{FftPipelineStage, MultiplyPipelineStage};
use wgsl_fft::pipelines::FftDirection;

#[test]
fn ping_pong_integration_test_fft_stage_creation() {
    let stage = FftPipelineStage::forward(1024, 1);
    assert_eq!(stage.name(), "fft_forward");
    assert_eq!(stage.vector_dim(), 2);
    assert_eq!(stage.batch_size(), 1024 * 1);
}

#[test]
fn test_ifft_stage_creation() {
    let stage = FftPipelineStage::inverse(1024, 1);
    assert_eq!(stage.name(), "fft_inverse");
    assert_eq!(stage.vector_dim(), 2);
    assert_eq!(stage.batch_size(), 1024 * 1);
}

#[test]
fn test_multiply_stage_creation() {
    let stage = MultiplyPipelineStage::new(1024, 1);
    assert_eq!(stage.name(), "multiply_complex");
    assert_eq!(stage.vector_dim(), 2);
    // Multiply receives [A_freq][B_freq] concatenated, so batch_size is 2 * n * batch_size
    assert_eq!(stage.batch_size(), 2 * 1024 * 1);
}

#[test]
fn test_fft_pipeline_stage_properties() {
    let forward_stage = FftPipelineStage::forward(1024, 1);
    assert_eq!(forward_stage.name(), "fft_forward");
    assert_eq!(forward_stage.vector_dim(), 2);
    assert_eq!(forward_stage.batch_size(), 1024 * 1);

    let inverse_stage = FftPipelineStage::inverse(1024, 1);
    assert_eq!(inverse_stage.name(), "fft_inverse");
    assert_eq!(inverse_stage.vector_dim(), 2);
    assert_eq!(inverse_stage.batch_size(), 1024 * 1);
}

#[test]
fn test_multiply_pipeline_stage_properties() {
    let multiply_stage = MultiplyPipelineStage::new(1024, 1);
    assert_eq!(multiply_stage.name(), "multiply_complex");
    assert_eq!(multiply_stage.vector_dim(), 2);
    assert_eq!(multiply_stage.batch_size(), 2 * 1024 * 1);
}

#[test]
fn combined_stages_are_named_and_sized_for_two_inputs() {
    let forward = FftPipelineStage::forward_combined(256, 3);
    assert_eq!(forward.name(), "fft_forward_combined");
    assert_eq!(forward.batch_size(), 2 * 256 * 3);
    assert!(forward.is_combined());
    let inverse = FftPipelineStage::inverse_combined(256, 3);
    assert_eq!(inverse.name(), "fft_inverse_combined");
    assert_eq!(inverse.direction(), FftDirection::Inverse);
    assert_eq!(inverse.n(), 256);
    assert_eq!(inverse.fft_batch_size(), 3);
}

#[test]
fn fft_stage_resize_checks_dimension_and_divisibility() {
    let mut stage = FftPipelineStage::forward(1024, 1);
    assert_eq!(stage.resize(4096, 2), Ok(()));
    assert_eq!(stage.fft_batch_size(), 4);
    assert_eq!(
        stage.resize(1000, 2),
        Err("New batch size 1000 is not a multiple of FFT size 1024".to_string())
    );
    assert_eq!(stage.fft_batch_size(), 4);
    assert_eq!(
        stage.resize(4096, 3),
        Err("FftPipelineStage requires vector_dim of 2 for complex numbers".to_string())
    );

    let mut combined = FftPipelineStage::forward_combined(1024, 1);
    assert_eq!(combined.resize(8192, 2), Ok(()));
    assert_eq!(combined.fft_batch_size(), 4);
    assert_eq!(
        combined.resize(3072, 2),
        Err("New batch size 3072 is not a multiple of 2 * FFT size 1024 (combined mode)".to_string())
    );
    assert_eq!(combined.update_n(512), Ok(()));
    assert_eq!(combined.n(), 512);
}

#[test]
fn fft_stage_effective_batch_counts_output_elements() {
    let stage = FftPipelineStage::forward_combined(1024, 1);
    assert_eq!(stage.effective_batch_size(8 * 2048), 2);
    let single = FftPipelineStage::inverse(1024, 1);
    assert_eq!(single.effective_batch_size(8 * 1024), 1);
}

#[test]
fn multiply_stage_resize_and_dispatch() {
    let mut stage = MultiplyPipelineStage::new(1024, 1);
    assert_eq!(stage.resize(6144, 2), Ok(()));
    assert_eq!(stage.batch_size(), 6144);
    assert_eq!(
        stage.resize(1024, 2),
        Err("New batch size 1024 is not a multiple of 2 * n 1024".to_string())
    );
    assert_eq!(
        stage.resize(2048, 4),
        Err("MultiplyPipelineStage requires vector_dim of 2 for complex numbers".to_string())
    );
    assert_eq!(stage.dispatch_count(8 * 1000), 4);
    assert_eq!(stage.dispatch_count(8 * 1024), 4);
    assert_eq!(stage.update_n(16), Ok(()));
    assert_eq!(stage.batch_size(), 2 * 16 * 3);
}

#[test]
fn resized_stage_reports_the_new_element_count() {
    let mut stage = FftPipelineStage::inverse(256, 1);
    assert_eq!(stage.resize(256 * 6, 2), Ok(()));
    assert_eq!(stage.batch_size(), 256 * 6);

    let mut combined = FftPipelineStage::inverse_combined(256, 1);
    assert_eq!(combined.resize(512 * 3, 2), Ok(()));
    assert_eq!(combined.batch_size(), 512 * 3);

    let mut multiply = MultiplyPipelineStage::new(128, 1);
    assert_eq!(multiply.resize(256 * 5, 2), Ok(()));
    assert_eq!(multiply.batch_size(), 256 * 5);
    assert_eq!(multiply.n(), 128);
    assert_eq!(multiply.mul_batch_size(), 5);
}
