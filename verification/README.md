# wgsl_fft

GPU FFT on wgpu compute shaders (Stockham Radix-4/2, mixed Radix-8/4/2 engines,
Cooley-Tukey passes for embedding in larger pipelines, Bluestein for arbitrary sizes),
with its planning core verified in Verus.

## Layout

- `src/` — the verified library. It decides everything that needs no device:
  - `fft`: the route of a batch (empty, power of two, arbitrary size), the stage plan of the
    Stockham engine (uniforms, ping-pong bindings, result buffer, buffer sizes, workgroup
    counts, dispatch order), and the split of the flat output into one result per transform;
  - `rivals`: the stage plans of the alternative mixed-radix engines;
  - `pipelines`: the passes of the Cooley-Tukey pipelines and the normalization pass;
  - `buffer`, `pipeline`, `pipeline_builder`, `ping_pong_integration`: ping-pong state,
    parameter flow of the streaming pipeline, stage configuration, sizes and validation;
  - `cufft_wrapper`, `hipfft_wrapper`, `error`, `text`, `uniforms`, `benchmark`: input
    validation of the reference backends, error messages, uniform byte layout, sweep sizes.

  Laws (public `law_*` / `lemma_*` proof functions) state what holds across calls: the
  stages alternate buffers and read what the previous one wrote, the result is read where
  the last stage wrote it, the radices multiply to `N`, strides are the products of the
  preceding radices, the last Cooley-Tukey pass writes the output buffer, parameters travel
  with their data, and a batch fits its buffers.

- `tests/` — tests of the library on concrete values.

- `app/` — the wgpu side: devices, buffers, bind groups, compute passes, readback, the
  floating-point pre- and post-processing, the CPU Bluestein path (rustfft), the cuFFT and
  hipFFT reference backends, and the `wgsl-ping-pong-pipeline` stage implementations. It
  takes every plan from the library.
