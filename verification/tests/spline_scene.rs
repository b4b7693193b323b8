use jxl_bench::layout::{checksum_positions, SPLINE_HEIGHT, SPLINE_WIDTH};
use jxl_bench::spline::{row_range, SplineBenchmark, SplinePoint};

#[test]
fn new_builds_the_benchmark_scene() {
    let b = SplineBenchmark::new();
    assert_eq!(b.splines.quantization_adjustment, 0);
    assert_eq!(b.splines.splines.len(), 1);
    let s = &b.splines.splines[0];
    assert_eq!(
        s.control_points,
        vec![(109, 105), (-130, -261), (-66, 193), (227, -52), (-170, 290)]
    );
    assert_eq!(s.color_dct[0][0], 168);
    assert_eq!(s.color_dct[0][1], 119);
    assert_eq!(s.color_dct[1][0], 9);
    assert_eq!(s.color_dct[1][2], 7);
    assert_eq!(s.color_dct[2][0], -10);
    assert_eq!(s.color_dct[2][1], 7);
    assert_eq!(s.sigma_dct[0], 4);
    assert_eq!(s.sigma_dct[7], 2);
    let nonzero_color: usize = s.color_dct.iter().flatten().filter(|v| **v != 0).count();
    assert_eq!(nonzero_color, 6);
    let nonzero_sigma: usize = s.sigma_dct.iter().filter(|v| **v != 0).count();
    assert_eq!(nonzero_sigma, 2);
    assert_eq!(b.splines.starting_points, vec![SplinePoint { x: 9, y: 54 }]);
    assert_eq!(b.image_width, 320);
    assert_eq!(b.image_height, 320);
}

#[test]
fn default_equals_new() {
    let a = SplineBenchmark::default();
    let b = SplineBenchmark::new();
    assert_eq!(a.splines.splines[0].control_points, b.splines.splines[0].control_points);
    assert_eq!(a.splines.splines[0].color_dct, b.splines.splines[0].color_dct);
    assert_eq!(a.splines.splines[0].sigma_dct, b.splines.splines[0].sigma_dct);
    assert_eq!(a.splines.starting_points, b.splines.starting_points);
    assert_eq!(a.image_width, b.image_width);
    assert_eq!(a.image_height, b.image_height);
}

#[test]
fn row_ranges_of_first_middle_and_last_rows() {
    assert_eq!(row_range(0), (0, 320));
    assert_eq!(row_range(1), (320, 640));
    assert_eq!(row_range(160), (51200, 51520));
    assert_eq!(row_range(SPLINE_HEIGHT - 1), (102080, 102400));
}

#[test]
fn rows_tile_the_plane() {
    let mut next = 0;
    for y in 0..SPLINE_HEIGHT {
        let (start, end) = row_range(y);
        assert_eq!(start, next);
        assert_eq!(end - start, SPLINE_WIDTH);
        next = end;
    }
    assert_eq!(next, SPLINE_WIDTH * SPLINE_HEIGHT);
}

#[test]
fn spline_checksum_positions() {
    let p = checksum_positions(SPLINE_WIDTH * SPLINE_HEIGHT);
    assert_eq!(p, [0, 51200, 102399]);
    assert!(p.iter().all(|i| *i < SPLINE_WIDTH * SPLINE_HEIGHT));
}
