use jxl_bench::layout::{checksum_positions, BLEND_WIDTH, EPF_WIDTH, SPLINE_HEIGHT, SPLINE_WIDTH, XYB_WIDTH};

#[test]
fn widths() {
    assert_eq!(XYB_WIDTH, 4096);
    assert_eq!(EPF_WIDTH, 1024);
    assert_eq!(SPLINE_WIDTH, 320);
    assert_eq!(SPLINE_HEIGHT, 320);
    assert_eq!(BLEND_WIDTH, 4096);
}

#[test]
fn xyb_checksum_positions() {
    assert_eq!(checksum_positions(XYB_WIDTH), [0, 2048, 4095]);
}

#[test]
fn epf_checksum_positions() {
    assert_eq!(checksum_positions(EPF_WIDTH), [0, 512, 1023]);
}

#[test]
fn checksum_positions_of_single_sample() {
    assert_eq!(checksum_positions(1), [0, 0, 0]);
}

#[test]
fn checksum_positions_of_odd_length() {
    assert_eq!(checksum_positions(7), [0, 3, 6]);
}

#[test]
fn checksum_positions_stay_in_bounds() {
    for len in 1..300usize {
        let p = checksum_positions(len);
        assert!(p.iter().all(|i| *i < len));
    }
}
