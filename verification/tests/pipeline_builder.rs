use wgsl_fft::pipeline_builder::{FftStage, NormalizeStage, PingPongState};
use wgsl_fft::pipelines::FftDirection;

#[test]
fn test_ping_pong_state_default() {
    let state = PingPongState::default();
    assert_eq!(state, PingPongState::Read0Write1);
}

#[test]
fn test_ping_pong_state_read_write_indices() {
    let state = PingPongState::Read0Write1;
    assert_eq!(state.read_index(), 0);
    assert_eq!(state.write_index(), 1);

    let state = PingPongState::Read1Write0;
    assert_eq!(state.read_index(), 1);
    assert_eq!(state.write_index(), 0);
}

#[test]
fn test_ping_pong_state_toggle() {
    let mut state = PingPongState::Read0Write1;
    assert_eq!(state, PingPongState::Read0Write1);

    state.toggle();
    assert_eq!(state, PingPongState::Read1Write0);

    state.toggle();
    assert_eq!(state, PingPongState::Read0Write1);
}

#[test]
fn test_ping_pong_state_equality() {
    assert_eq!(PingPongState::Read0Write1, PingPongState::Read0Write1);
    assert_eq!(PingPongState::Read1Write0, PingPongState::Read1Write0);
    assert_ne!(PingPongState::Read0Write1, PingPongState::Read1Write0);
}

#[test]
fn pipeline_builder_test_fft_stage_creation() {
    let fft_stage = FftStage::new(FftDirection::Forward);
    assert_eq!(fft_stage.direction(), FftDirection::Forward);
    assert_eq!(fft_stage.name(), "fft");

    let ifft_stage = FftStage::new(FftDirection::Inverse);
    assert_eq!(ifft_stage.direction(), FftDirection::Inverse);
    assert_eq!(ifft_stage.name(), "ifft");
}

#[test]
fn test_fft_stage_convenience_constructors() {
    let forward = FftStage::forward();
    assert_eq!(forward.direction(), FftDirection::Forward);

    let inverse = FftStage::inverse();
    assert_eq!(inverse.direction(), FftDirection::Inverse);
}

#[test]
fn test_normalize_stage() {
    let stage = NormalizeStage;
    assert_eq!(stage.name(), "normalize");
}

#[test]
fn test_pipeline_stage_names() {
    let fft_stage = FftStage::forward();
    let normalize_stage = NormalizeStage;
    let ifft_stage = FftStage::inverse();

    assert_eq!(fft_stage.name(), "fft");
    assert_eq!(normalize_stage.name(), "normalize");
    assert_eq!(ifft_stage.name(), "ifft");
}

#[test]
fn test_pipeline_builder_basic() {
    // This is a compile-time test to verify the API
    assert!(true);
}

#[test]
fn stage_on_add_rejects_zero_sizes() {
    let mut stage = FftStage::forward();
    assert_eq!(stage.on_add(1024, 4), Ok(()));
    assert_eq!(stage.on_add(0, 4), Err("FFT size must be greater than 0".to_string()));
    assert_eq!(stage.on_add(1024, 0), Err("Batch size must be greater than 0".to_string()));
    assert_eq!(stage.on_add(0, 0), Err("FFT size must be greater than 0".to_string()));
    assert_eq!(stage.direction(), FftDirection::Forward);

    let mut normalize = NormalizeStage::new();
    assert_eq!(normalize.on_add(8, 1), Ok(()));
    assert_eq!(normalize.on_add(8, 0), Err("Batch size must be greater than 0".to_string()));
}

#[test]
fn toggle_swaps_read_and_write_buffers() {
    let mut state = PingPongState::Read0Write1;
    let written = state.write_index();
    state.toggle();
    assert_eq!(state.read_index(), written);
    let pair = ["a", "b"];
    let (read, write) = state.buffers(&pair);
    assert_eq!((*read, *write), ("b", "a"));
    state.toggle();
    let (read, write) = state.buffers(&pair);
    assert_eq!((*read, *write), ("a", "b"));
}
