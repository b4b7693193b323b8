# jxl_bench

The fixed inputs of the render-stage benchmarks of a JPEG XL decoder, with
their integer structure verified by Verus.

- `src/layout.rs`: buffer widths and the positions a run sums for its checksum.
- `src/spline.rs`: the quantized spline scene and the row layout of the
  drawing target.
- `src/blend.rs`: the integer levels behind the foreground and background
  planes of the blending benchmark.
- `src/epf.rs`: sigma steps, input taps and row layout of the edge-preserving
  filter benchmark.
- `app/lib.rs`: the floating-point planes, checksums and smoke checks built on
  top of the library.
