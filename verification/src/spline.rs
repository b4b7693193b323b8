//! The spline scene of the spline-drawing benchmark: one quantized spline
//! with five control-point deltas, started at a fixed point, to be drawn into
//! a `SPLINE_WIDTH` x `SPLINE_HEIGHT` image one row at a time.

use vstd::prelude::*;

use crate::layout::{SPLINE_HEIGHT, SPLINE_WIDTH};

verus! {

/// A spline as a frame header carries it: integer control-point deltas and
/// quantized DCT coefficients for the three colour channels and for the
/// spline's width (sigma).
pub struct QuantizedSpline {
    pub control_points: Vec<(i64, i64)>,
    pub color_dct: [[i32; 32]; 3],
    pub sigma_dct: [i32; 32],
}

/// A whole-pixel position at which a spline starts.
#[derive(Clone, Copy, Debug, PartialEq, Eq, Structural)]
pub struct SplinePoint {
    pub x: i64,
    pub y: i64,
}

/// The splines of a frame: their shared quantization adjustment, the
/// quantized splines, and the point at which each of them starts.
pub struct Splines {
    pub quantization_adjustment: i32,
    pub splines: Vec<QuantizedSpline>,
    pub starting_points: Vec<SplinePoint>,
}

/// The spline benchmark: the scene and the size of the image it is drawn into.
pub struct SplineBenchmark {
    pub splines: Splines,
    pub image_width: u64,
    pub image_height: u64,
}

/// Control-point deltas of the benchmark's spline.
pub open spec fn benchmark_control_points() -> Seq<(i64, i64)> {
    seq![(109i64, 105i64), (-130i64, -261i64), (-66i64, 193i64), (227i64, -52i64), (-170i64, 290i64)]
}

/// Quantized DCT coefficients of colour channel `c` of the benchmark's spline.
pub open spec fn benchmark_color_dct(c: int) -> Seq<i32> {
    if c == 0 {
        seq![168i32, 119, 0, 0, 0, 0, 0, 0, 0, 0, 0, 0, 0, 0, 0, 0,
             0, 0, 0, 0, 0, 0, 0, 0, 0, 0, 0, 0, 0, 0, 0, 0]
    } else if c == 1 {
        seq![9i32, 0, 7, 0, 0, 0, 0, 0, 0, 0, 0, 0, 0, 0, 0, 0,
             0, 0, 0, 0, 0, 0, 0, 0, 0, 0, 0, 0, 0, 0, 0, 0]
    } else {
        seq![-10i32, 7, 0, 0, 0, 0, 0, 0, 0, 0, 0, 0, 0, 0, 0, 0,
             0, 0, 0, 0, 0, 0, 0, 0, 0, 0, 0, 0, 0, 0, 0, 0]
    }
}

/// Quantized DCT coefficients of the width of the benchmark's spline.
pub open spec fn benchmark_sigma_dct() -> Seq<i32> {
    seq![4i32, 0, 0, 0, 0, 0, 0, 2, 0, 0, 0, 0, 0, 0, 0, 0,
         0, 0, 0, 0, 0, 0, 0, 0, 0, 0, 0, 0, 0, 0, 0, 0]
}

impl QuantizedSpline {
    /// Whether this is the benchmark's spline.
    pub open spec fn is_benchmark_spline(&self) -> bool {
        &&& self.control_points@ == benchmark_control_points()
        &&& self.color_dct[0]@ == benchmark_color_dct(0)
        &&& self.color_dct[1]@ == benchmark_color_dct(1)
        &&& self.color_dct[2]@ == benchmark_color_dct(2)
        &&& self.sigma_dct@ == benchmark_sigma_dct()
    }
}

impl SplineBenchmark {
    /// Whether this is the benchmark's scene: no quantization adjustment,
    /// exactly the benchmark spline, starting at (9, 54), drawn into a
    /// `SPLINE_WIDTH` x `SPLINE_HEIGHT` image.
    pub open spec fn is_benchmark_scene(&self) -> bool {
        &&& self.splines.quantization_adjustment == 0
        &&& self.splines.splines@.len() == 1
        &&& self.splines.splines@[0].is_benchmark_spline()
        &&& self.splines.starting_points@ == seq![SplinePoint { x: 9, y: 54 }]
        &&& self.image_width == SPLINE_WIDTH
        &&& self.image_height == SPLINE_HEIGHT
    }

    /// Builds the benchmark's scene.
    pub fn new() -> (r: Self)
        ensures
            r.is_benchmark_scene(),
    {
        let spline = QuantizedSpline {
            control_points: vec![(109, 105), (-130, -261), (-66, 193), (227, -52), (-170, 290)],
            color_dct: [
                [
                    168, 119, 0, 0, 0, 0, 0, 0, 0, 0, 0, 0, 0, 0, 0, 0, 0, 0, 0, 0, 0, 0, 0, 0, 0,
                    0, 0, 0, 0, 0, 0, 0,
                ],
                [
                    9, 0, 7, 0, 0, 0, 0, 0, 0, 0, 0, 0, 0, 0, 0, 0, 0, 0, 0, 0, 0, 0, 0, 0, 0, 0,
                    0, 0, 0, 0, 0, 0,
                ],
                [
                    -10, 7, 0, 0, 0, 0, 0, 0, 0, 0, 0, 0, 0, 0, 0, 0, 0, 0, 0, 0, 0, 0, 0, 0, 0, 0,
                    0, 0, 0, 0, 0, 0,
                ],
            ],
            sigma_dct: [
                4, 0, 0, 0, 0, 0, 0, 2, 0, 0, 0, 0, 0, 0, 0, 0, 0, 0, 0, 0, 0, 0, 0, 0, 0, 0, 0, 0,
                0, 0, 0, 0,
            ],
        };
        let splines = Splines {
            quantization_adjustment: 0,
            splines: vec![spline],
            starting_points: vec![SplinePoint { x: 9, y: 54 }],
        };
        let r = SplineBenchmark {
            splines,
            image_width: SPLINE_WIDTH as u64,
            image_height: SPLINE_HEIGHT as u64,
        };
        assert(r.splines.splines@[0].control_points@ =~= benchmark_control_points());
        assert(r.splines.splines@[0].color_dct[0]@ =~= benchmark_color_dct(0));
        assert(r.splines.splines@[0].color_dct[1]@ =~= benchmark_color_dct(1));
        assert(r.splines.splines@[0].color_dct[2]@ =~= benchmark_color_dct(2));
        assert(r.splines.splines@[0].sigma_dct@ =~= benchmark_sigma_dct());
        assert(r.splines.starting_points@ =~= seq![SplinePoint { x: 9, y: 54 }]);
        r
    }
}

/// First sample of image row `y` in a channel plane stored row after row.
pub open spec fn row_start(y: int) -> int {
    y * SPLINE_WIDTH
}

/// One past the last sample of image row `y` in a channel plane.
pub open spec fn row_end(y: int) -> int {
    (y + 1) * SPLINE_WIDTH
}

/// The range of samples that hold image row `y` in each channel plane of
/// the drawing target: the slice a run hands to the spline renderer for
/// that row.
pub fn row_range(y: usize) -> (r: (usize, usize))
    requires
        y < SPLINE_HEIGHT,
    ensures
        r.0 == row_start(y as int),
        r.1 == row_end(y as int),
{
    (y * SPLINE_WIDTH, (y + 1) * SPLINE_WIDTH)
}

/// The rows of a channel plane tile it: each row holds `SPLINE_WIDTH`
/// samples, row `y + 1` starts where row `y` ends, the first row starts at
/// the first sample and the last row ends at the end of the plane.
pub proof fn rows_are_consecutive(y: int)
    requires
        0 <= y < SPLINE_HEIGHT,
    ensures
        row_end(y) - row_start(y) == SPLINE_WIDTH,
        y + 1 < SPLINE_HEIGHT ==> row_end(y) == row_start(y + 1),
        row_start(0) == 0,
        row_end(SPLINE_HEIGHT - 1) == SPLINE_WIDTH * SPLINE_HEIGHT,
        0 <= row_start(y) < row_end(y) <= SPLINE_WIDTH * SPLINE_HEIGHT,
{
}

/// Every sample `i` of a channel plane lies in exactly one row, the row
/// `i / SPLINE_WIDTH`, so a run that draws every row touches every sample
/// once.
pub proof fn sample_lies_in_one_row(i: int, y: int)
    requires
        0 <= i < SPLINE_WIDTH * SPLINE_HEIGHT,
        0 <= y < SPLINE_HEIGHT,
    ensures
        0 <= i / (SPLINE_WIDTH as int) < SPLINE_HEIGHT,
        row_start(i / (SPLINE_WIDTH as int)) <= i < row_end(i / (SPLINE_WIDTH as int)),
        (row_start(y) <= i < row_end(y)) <==> y == i / (SPLINE_WIDTH as int),
{
}

impl Default for SplineBenchmark {
    fn default() -> (r: Self)
        ensures
            r.is_benchmark_scene(),
    {
        Self::new()
    }
}

} // verus!
