use jxl_bench::epf::{center_window, input_rows, input_taps, sigma_steps, sigma_width, EpfTap};
use jxl_bench::layout::EPF_WIDTH;

#[test]
fn sigma_width_covers_the_row() {
    assert_eq!(sigma_width(), 130);
    assert!(8 * (sigma_width() - 2) >= EPF_WIDTH);
    assert!(8 * (sigma_width() - 3) < EPF_WIDTH);
}

#[test]
fn sigma_steps_cycle_through_eight() {
    let s = sigma_steps();
    assert_eq!(s.len(), 130);
    assert_eq!(&s[0..10], &[0, 1, 2, 3, 4, 5, 6, 7, 0, 1]);
    assert_eq!(s[129], 1);
    assert!(s.iter().enumerate().all(|(x, v)| *v as usize == x % 8));
}

#[test]
fn taps_split_at_the_middle_and_ramp_through_seventeen() {
    let t = input_taps();
    assert_eq!(t.len(), EPF_WIDTH + 4);
    assert_eq!(t[0], EpfTap { high_edge: false, ramp: 0 });
    assert_eq!(t[16], EpfTap { high_edge: false, ramp: 16 });
    assert_eq!(t[17], EpfTap { high_edge: false, ramp: 0 });
    assert_eq!(t[511], EpfTap { high_edge: false, ramp: (511 % 17) as u8 });
    assert_eq!(t[512], EpfTap { high_edge: true, ramp: (512 % 17) as u8 });
    assert_eq!(t[1027], EpfTap { high_edge: true, ramp: (1027 % 17) as u8 });
    assert_eq!(t.iter().filter(|t| !t.high_edge).count(), 512);
}

#[test]
fn center_windows_of_each_channel() {
    assert_eq!(center_window(0), (2, 2, 1026));
    assert_eq!(center_window(1), (7, 2, 1026));
    assert_eq!(center_window(2), (12, 2, 1026));
    for c in 0..3 {
        let (row, start, end) = center_window(c);
        assert!(row < 15);
        assert_eq!(end - start, EPF_WIDTH);
        assert!(end <= EPF_WIDTH + 4);
    }
}

#[test]
fn input_rows_are_fifteen_rows_of_taps() {
    let rows = input_rows();
    assert_eq!(rows.len(), 15);
    let taps = input_taps();
    for (i, r) in rows.iter().enumerate() {
        assert_eq!(r.channel, i / 5);
        assert_eq!(r.row, i % 5);
        assert_eq!(r.taps.len(), 1028);
        assert_eq!(r.taps, taps);
    }
    assert_eq!((rows[7].channel, rows[7].row), (1, 2));
    assert_eq!(center_window(1).0, 7);
}
