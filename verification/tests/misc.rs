use wgsl_fft::benchmark::{sweep_batch_sizes, MAX_TOTAL_SAMPLES};
use wgsl_fft::buffer::{PingPongBuffers, PingPongState};
use wgsl_fft::cufft_wrapper::{ensure_input_size, validate_batch_inputs, validate_fft_size};
use wgsl_fft::hipfft_wrapper::{check, HipFftError};
use wgsl_fft::pipeline::{advance_stage_params, complex_elements, noise_seed, FftStage, NormalizeStage};
use wgsl_fft::{FftDirection, FftError};

#[test]
fn ping_pong_buffers_follow_state() {
    let pair = PingPongBuffers { buffers: [10, 20] };
    assert_eq!(pair.get(PingPongState::Read0Write1), (&10, &20));
    assert_eq!(pair.get(PingPongState::Read1Write0), (&20, &10));
    assert_eq!(*pair.get_by_index(1), 20);
    let mut s = PingPongState::default();
    s.toggle();
    s.toggle();
    assert_eq!(s, PingPongState::Read0Write1);
}

#[test]
fn stage_parameters_advance_with_the_data() {
    let mut params = vec!["a", "b", "c"];
    advance_stage_params(&mut params, "d");
    assert_eq!(params, vec!["d", "a", "b"]);
    advance_stage_params(&mut params, "e");
    advance_stage_params(&mut params, "f");
    assert_eq!(params, vec!["f", "e", "d"]);
}

#[test]
fn streaming_stage_helpers() {
    assert_eq!(noise_seed(7, 3), 10);
    assert_eq!(noise_seed(u32::MAX, 1), 0);
    assert_eq!(complex_elements(8192), 1024);
    assert_eq!(FftStage::forward().name(), "fft");
    assert_eq!(FftStage::inverse().name(), "fft");
    assert_eq!(FftStage::inverse().direction(), FftDirection::Inverse);
    assert_eq!(NormalizeStage.name(), "normalize");
}

#[test]
fn hip_status_codes() {
    assert_eq!(check(0), Ok(()));
    assert_eq!(check(-3), Err(HipFftError(-3)));
    match HipFftError(-3).to_fft_error() {
        FftError::BackendError(m) => assert_eq!(m, "hipFFT error: -3"),
        other => panic!("unexpected {:?}", other),
    }
    match HipFftError(42).to_fft_error() {
        FftError::BackendError(m) => assert_eq!(m, "hipFFT error: 42"),
        other => panic!("unexpected {:?}", other),
    }
}

#[test]
fn cufft_validation() {
    assert!(validate_fft_size(16).is_ok());
    match validate_fft_size(0) {
        Err(FftError::InvalidSize(m)) => assert_eq!(m, "fft_size must be > 0"),
        other => panic!("unexpected {:?}", other),
    }
    assert!(ensure_input_size(16, 16).is_ok());
    match ensure_input_size(10, 16) {
        Err(FftError::ValidationError(m)) => assert_eq!(m, "input length 10 does not match planned fft_size 16"),
        other => panic!("unexpected {:?}", other),
    }
    assert_eq!(validate_batch_inputs(&[]).unwrap(), 0);
    assert_eq!(validate_batch_inputs(&[8, 8]).unwrap(), 8);
    match validate_batch_inputs(&[4, 4, 3, 5]) {
        Err(FftError::BatchError(m)) => {
            assert_eq!(m, "all batch inputs must have the same length; input[0]=4, input[2]=3")
        }
        other => panic!("unexpected {:?}", other),
    }
    match validate_batch_inputs(&[0, 0]) {
        Err(FftError::ValidationError(m)) => assert_eq!(m, "batch input vectors must be non-empty"),
        other => panic!("unexpected {:?}", other),
    }
}

#[test]
fn error_messages() {
    assert_eq!(FftError::NoDevice.message(), "No GPU device available");
    assert_eq!(FftError::ValidationError("x".to_string()).message(), "Input validation error: x");
    assert_eq!(FftError::BatchError("b".to_string()).message(), "Batch processing error: b");
    assert_eq!(FftError::Other("plain".to_string()).message(), "plain");
    let io = FftError::IoError(std::io::Error::new(std::io::ErrorKind::Other, "disk"));
    assert_eq!(io.message(), "I/O error: disk");
}

#[test]
fn sweep_skips_sizes_over_the_sample_cap() {
    let n = 1 << 20;
    assert_eq!(sweep_batch_sizes(n, &[1, 4, 16, 32]), vec![1, 4, 16]);
    assert_eq!(sweep_batch_sizes(MAX_TOTAL_SAMPLES * 2, &[1, 2]), vec![1]);
    assert_eq!(sweep_batch_sizes(1024, &[]), vec![1]);
}
