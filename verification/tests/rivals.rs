use wgsl_fft::rivals::{
    codex_plan, gemini_plan, mistral_plan, power_of_two_batch_shape, radix4_proper_plan, BatchShapeError,
    RivalKernel,
};
use wgsl_fft::uniforms::UniformWords;

fn words(x: u32, y: u32, z: u32, w: u32) -> UniformWords {
    UniformWords { x, y, z, w }
}

#[test]
fn codex_mixed_radix_plan() {
    let p = codex_plan(1024, 10);
    assert_eq!(
        p.uniforms,
        vec![words(1024, 1, 128, 0), words(1024, 8, 16, 0), words(1024, 64, 2, 0), words(1024, 512, 1, 0)]
    );
    let kernels: Vec<RivalKernel> = p.dispatches.iter().map(|d| d.kernel).collect();
    assert_eq!(kernels, vec![RivalKernel::Radix8, RivalKernel::Radix8, RivalKernel::Radix8, RivalKernel::Radix2]);
    let wgs: Vec<u32> = p.dispatches.iter().map(|d| d.workgroups_x).collect();
    assert_eq!(wgs, vec![1, 1, 1, 2]);
    for (i, d) in p.dispatches.iter().enumerate() {
        assert_eq!(d.slot, i);
        assert_eq!(d.reads_a, i % 2 == 0);
        assert_eq!(d.dimensions(5), (d.workgroups_x, 5, 1));
    }
    assert!(!p.result_in_b);
}

#[test]
fn codex_local_path_for_256() {
    let p = codex_plan(256, 8);
    assert_eq!(p.dispatches.len(), 1);
    assert_eq!(p.dispatches[0].kernel, RivalKernel::Local);
    assert_eq!(p.dispatches[0].dimensions(7), (1, 7, 1));
    assert!(p.result_in_b);
    assert_eq!(p.uniforms.len(), 3);
    assert_eq!(p.uniforms[2], words(256, 64, 1, 0));
}

#[test]
fn codex_radix4_remainder() {
    let p = codex_plan(32, 5);
    assert_eq!(p.uniforms, vec![words(32, 1, 4, 0), words(32, 8, 1, 0)]);
    let kernels: Vec<RivalKernel> = p.dispatches.iter().map(|d| d.kernel).collect();
    assert_eq!(kernels, vec![RivalKernel::Radix8, RivalKernel::Radix4]);
    assert!(!p.result_in_b);
}

#[test]
fn gemini_local_and_staged_plans() {
    let local = gemini_plan(512);
    assert_eq!(local.uniforms, vec![words(512, 0, 9, 0)]);
    assert_eq!(local.dispatches.len(), 1);
    assert_eq!(local.dispatches[0].dimensions(3), (3, 1, 1));
    assert!(local.result_in_b);

    let staged = gemini_plan(4096);
    assert_eq!(
        staged.uniforms,
        vec![words(4096, 1, 12, 0), words(4096, 8, 12, 0), words(4096, 64, 12, 0), words(4096, 512, 12, 0)]
    );
    assert!(staged.dispatches.iter().all(|d| d.kernel == RivalKernel::Radix8 && d.workgroups_x == 2));
    assert!(!staged.result_in_b);

    let odd = gemini_plan(2048);
    assert_eq!(odd.uniforms.last(), Some(&words(2048, 512, 11, 0)));
    assert_eq!(odd.dispatches.last().unwrap().kernel, RivalKernel::Radix4);
    assert!(!odd.result_in_b);
}

#[test]
fn mistral_stage_indices() {
    let p = mistral_plan(32, 5);
    assert_eq!(p.uniforms, vec![words(32, 0, 5, 0), words(32, 3, 5, 0)]);
    let q = mistral_plan(16, 4);
    assert_eq!(q.uniforms, vec![words(16, 0, 4, 0), words(16, 3, 4, 0)]);
    let r = mistral_plan(2048, 11);
    assert_eq!(
        r.uniforms,
        vec![words(2048, 0, 11, 0), words(2048, 1, 11, 0), words(2048, 2, 11, 0), words(2048, 9, 11, 0)]
    );
    assert!(!r.result_in_b);
}

#[test]
fn radix4_proper_stage_indices() {
    let p = radix4_proper_plan(8, 3);
    assert_eq!(p.uniforms, vec![words(8, 0, 3, 0), words(8, 2, 3, 0)]);
    let kernels: Vec<RivalKernel> = p.dispatches.iter().map(|d| d.kernel).collect();
    assert_eq!(kernels, vec![RivalKernel::Radix4, RivalKernel::Radix2]);
    let q = radix4_proper_plan(16, 4);
    assert_eq!(q.uniforms, vec![words(16, 0, 4, 0), words(16, 1, 4, 0)]);
    assert!(!q.result_in_b);
    let odd = radix4_proper_plan(512, 9);
    assert_eq!(odd.uniforms.len(), 5);
    assert_eq!(odd.uniforms[4], words(512, 8, 9, 0));
    assert!(odd.result_in_b);
    let one = radix4_proper_plan(1, 0);
    assert!(one.dispatches.is_empty());
    assert!(!one.result_in_b);
}

#[test]
fn power_of_two_batch_shapes() {
    assert_eq!(power_of_two_batch_shape(&[]), Ok(None));
    assert_eq!(power_of_two_batch_shape(&[1024, 1024, 1024]), Ok(Some((1024, 10))));
    assert_eq!(power_of_two_batch_shape(&[1]), Ok(Some((1, 0))));
    assert_eq!(power_of_two_batch_shape(&[0, 0]), Err(BatchShapeError::NotPowerOfTwo));
    assert_eq!(power_of_two_batch_shape(&[12, 12]), Err(BatchShapeError::NotPowerOfTwo));
    assert_eq!(power_of_two_batch_shape(&[16, 16, 8]), Err(BatchShapeError::UnequalLengths));
}
