//! Verified construction of the fixed inputs that drive the render-stage
//! benchmarks of a JPEG XL decoder: buffer geometry, the positions sampled
//! for the checksums, the quantized spline scene, and the integer patterns
//! behind the floating-point pixel planes.

pub mod layout;
pub mod blend;
pub mod epf;
pub mod spline;
