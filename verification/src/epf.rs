//! The layout and integer patterns behind the edge-preserving filter
//! benchmark.
//!
//! The filter reads five input rows per channel for three channels, each
//! `EPF_WIDTH` samples wide with two border samples on either side, and a
//! row of per-block sigma values. Input sample `x` of row `r` of channel `c`
//! is `edge + 0.07 c + 0.013 r + 0.001 ramp`, where `edge` is `0.15` left of
//! the middle of the row and `0.85` from the middle on, and `ramp` cycles
//! through `0..17`. Sigma value `x` is `-0.6 - 0.04 step` with `step`
//! cycling through `0..8`. This module computes the integer parts.

use vstd::prelude::*;

use crate::layout::EPF_WIDTH;

verus! {

/// Number of channels the filter reads.
pub const EPF_CHANNELS: usize = 3;

/// Number of input rows per channel.
pub const EPF_ROWS_PER_CHANNEL: usize = 5;

/// Number of border samples on either side of an input row.
pub const EPF_BORDER: usize = 2;

/// Length of one input row: the row and its border on both sides.
pub open spec fn input_row_len() -> int {
    EPF_WIDTH + 2 * EPF_BORDER
}

/// Number of sigma values: one per 8-sample block of the row, rounded up,
/// and one more block on either side.
pub open spec fn sigma_len() -> int {
    (EPF_WIDTH as int + 7) / 8 + 2
}

/// Number of sigma values the filter reads.
pub fn sigma_width() -> (r: usize)
    ensures
        r == sigma_len(),
{
    (EPF_WIDTH + 7) / 8 + 2
}

/// The sigma steps, `x % 8` for sigma value `x`.
pub fn sigma_steps() -> (r: Vec<u8>)
    ensures
        r@.len() == sigma_len(),
        forall|x: int| 0 <= x < r@.len() ==> #[trigger] r@[x] == x % 8,
{
    let n: usize = sigma_width();
    let mut r: Vec<u8> = Vec::new();
    for x in 0..n
        invariant
            n == sigma_len(),
            r@.len() == x,
            forall|y: int| 0 <= y < x ==> #[trigger] r@[y] == y % 8,
    {
        r.push((x % 8) as u8);
    }
    r
}

/// The sigma values cover the whole row: the blocks between the two border
/// blocks span at least `EPF_WIDTH` samples, and one block fewer would not.
pub proof fn sigma_covers_row()
    ensures
        8 * (sigma_len() - 2) >= EPF_WIDTH,
        8 * (sigma_len() - 3) < EPF_WIDTH,
{
}

/// The integer parts of an input sample that depend on its position in the
/// row: whether it lies on the bright side of the edge, and its ramp step.
#[derive(Clone, Copy, Debug, PartialEq, Eq, Structural)]
pub struct EpfTap {
    pub high_edge: bool,
    pub ramp: u8,
}

/// The tap of input sample `x`.
pub open spec fn tap_at(x: int) -> EpfTap {
    EpfTap { high_edge: x >= EPF_WIDTH / 2, ramp: (x % 17) as u8 }
}

/// The ramp of the taps is one cycle of period 17 along the whole row,
/// border included: it climbs by one from 0 at the first sample, and every
/// sample has the ramp of the sample 17 places before it.
pub proof fn tap_ramp_cycles(x: int)
    requires
        0 <= x < input_row_len(),
    ensures
        x < 17 ==> tap_at(x).ramp == x,
        x + 17 < input_row_len() ==> tap_at(x + 17).ramp == tap_at(x).ramp,
{
}

/// The edge splits the row once, at its middle: samples left of sample
/// `EPF_WIDTH / 2` are on the dark side, that sample is on the bright side,
/// and the bright side never turns dark again further right.
pub proof fn tap_edge_splits_at_middle(x: int)
    requires
        0 <= x,
        x + 1 < input_row_len(),
    ensures
        !tap_at(EPF_WIDTH as int / 2 - 1).high_edge,
        tap_at(EPF_WIDTH as int / 2).high_edge,
        tap_at(x).high_edge ==> tap_at(x + 1).high_edge,
        !tap_at(x + 1).high_edge ==> !tap_at(x).high_edge,
{
}

/// The taps of every sample of an input row, border included.
pub fn input_taps() -> (r: Vec<EpfTap>)
    ensures
        r@.len() == input_row_len(),
        forall|x: int| 0 <= x < r@.len() ==> #[trigger] r@[x] == tap_at(x),
{
    let n: usize = EPF_WIDTH + 2 * EPF_BORDER;
    let mut r: Vec<EpfTap> = Vec::new();
    for x in 0..n
        invariant
            n == input_row_len(),
            r@.len() == x,
            forall|y: int| 0 <= y < x ==> #[trigger] r@[y] == tap_at(y),
    {
        r.push(EpfTap { high_edge: x >= EPF_WIDTH / 2, ramp: (x % 17) as u8 });
    }
    r
}

/// Index, among all input rows, of row `row` of channel `channel`.
pub open spec fn input_row_index(channel: int, row: int) -> int {
    channel * EPF_ROWS_PER_CHANNEL + row
}

/// One input row of the filter: the channel and the row within that
/// channel it belongs to, and the taps of its samples.
pub struct EpfInputRow {
    pub channel: usize,
    pub row: usize,
    pub taps: Vec<EpfTap>,
}

impl EpfInputRow {
    /// Whether this is the input row at index `i`: row `i % 5` of channel
    /// `i / 5`, holding the tap of every sample, border included.
    pub open spec fn is_row_at(&self, i: int) -> bool {
        &&& self.channel == i / (EPF_ROWS_PER_CHANNEL as int)
        &&& self.row == i % (EPF_ROWS_PER_CHANNEL as int)
        &&& input_row_index(self.channel as int, self.row as int) == i
        &&& self.taps@.len() == input_row_len()
        &&& forall|x: int| 0 <= x < input_row_len() ==> #[trigger] self.taps@[x] == tap_at(x)
    }
}

/// The filter's input rows, channel after channel and five rows per
/// channel: 15 rows of 1028 taps, row `5 c + r` being row `r` of channel `c`.
pub fn input_rows() -> (r: Vec<EpfInputRow>)
    ensures
        r@.len() == EPF_CHANNELS * EPF_ROWS_PER_CHANNEL,
        forall|i: int| 0 <= i < r@.len() ==> #[trigger] r@[i].is_row_at(i),
{
    let mut r: Vec<EpfInputRow> = Vec::new();
    for channel in 0..EPF_CHANNELS
        invariant
            r@.len() == channel * EPF_ROWS_PER_CHANNEL,
            forall|i: int| 0 <= i < r@.len() ==> #[trigger] r@[i].is_row_at(i),
    {
        for row in 0..EPF_ROWS_PER_CHANNEL
            invariant
                channel < EPF_CHANNELS,
                r@.len() == channel * EPF_ROWS_PER_CHANNEL + row,
                forall|i: int| 0 <= i < r@.len() ==> #[trigger] r@[i].is_row_at(i),
        {
            let taps = input_taps();
            r.push(EpfInputRow { channel, row, taps });
            assert(r@[r@.len() - 1].is_row_at(r@.len() - 1));
        }
    }
    r
}

/// The centre row of channel `channel` and the range of its samples that
/// lie inside the row proper, border excluded: the samples that the
/// filtered output row of that channel is compared with.
pub fn center_window(channel: usize) -> (r: (usize, usize, usize))
    requires
        channel < EPF_CHANNELS,
    ensures
        r.0 == input_row_index(channel as int, 2),
        r.1 == EPF_BORDER,
        r.2 == EPF_WIDTH + EPF_BORDER,
{
    (channel * EPF_ROWS_PER_CHANNEL + 2, EPF_BORDER, EPF_WIDTH + EPF_BORDER)
}

/// Rows are laid out channel after channel: every (channel, row) pair has
/// its own index among the input rows, and the indices fill `0..15`.
pub proof fn input_rows_are_distinct(c1: int, r1: int, c2: int, r2: int)
    requires
        0 <= c1 < EPF_CHANNELS,
        0 <= c2 < EPF_CHANNELS,
        0 <= r1 < EPF_ROWS_PER_CHANNEL,
        0 <= r2 < EPF_ROWS_PER_CHANNEL,
    ensures
        0 <= input_row_index(c1, r1) < EPF_CHANNELS * EPF_ROWS_PER_CHANNEL,
        input_row_index(c1, r1) == input_row_index(c2, r2) <==> (c1 == c2 && r1 == r2),
{
}

/// The window of a centre row lies inside that row and is exactly as long
/// as an output row, so the filtered row and the window can be compared
/// sample by sample.
pub proof fn center_window_matches_output(channel: int)
    requires
        0 <= channel < EPF_CHANNELS,
    ensures
        0 <= input_row_index(channel, 2) < EPF_CHANNELS * EPF_ROWS_PER_CHANNEL,
        0 <= EPF_BORDER <= EPF_WIDTH + EPF_BORDER <= input_row_len(),
        (EPF_WIDTH + EPF_BORDER) - EPF_BORDER == EPF_WIDTH,
{
}

} // verus!
