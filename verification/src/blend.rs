//! The integer patterns behind the planes of the patch-blending benchmark.
//!
//! Each benchmark plane holds four channels of `BLEND_WIDTH` samples. A
//! sample is a level over a fixed denominator: the three colour channels are
//! `level / 1023`, the foreground alpha is `level / 256`, and the background
//! alpha is `1 - level / 250`. This module computes the levels.

use vstd::prelude::*;

use crate::layout::{checksum_position, BLEND_WIDTH};
use vstd::arithmetic::div_mod::lemma_add_mod_noop;

verus! {

/// Index of the alpha channel in a plane.
pub const ALPHA_CHANNEL: usize = 3;

/// Level of sample `x` of channel `c` of the foreground plane.
pub open spec fn foreground_level(c: int, x: int) -> int {
    if c < 3 {
        (x * (c + 3) + c * 29) % 1024
    } else {
        x % 257
    }
}

/// Level of sample `x` of channel `c` of the background plane.
pub open spec fn background_level(c: int, x: int) -> int {
    if c < 3 {
        (x * (c + 5) + c * 47) % 1024
    } else {
        x % 251
    }
}

/// The levels of the foreground and the background plane, one vector per
/// channel.
pub struct BlendLevels {
    pub foreground: Vec<Vec<u32>>,
    pub background: Vec<Vec<u32>>,
}

impl BlendLevels {
    /// Whether `planes` holds four channels of `BLEND_WIDTH` samples each,
    /// sample `x` of channel `c` being `level(c, x)`.
    pub open spec fn holds_planes(planes: Seq<Vec<u32>>, foreground: bool) -> bool {
        &&& planes.len() == 4
        &&& forall|c: int| 0 <= c < 4 ==> #[trigger] planes[c]@.len() == BLEND_WIDTH
        &&& forall|c: int, x: int|
            0 <= c < 4 && 0 <= x < BLEND_WIDTH ==> #[trigger] planes[c]@[x] == (if foreground {
                foreground_level(c, x)
            } else {
                background_level(c, x)
            })
    }

    /// Whether these are the benchmark's levels.
    pub open spec fn is_benchmark_levels(&self) -> bool {
        &&& Self::holds_planes(self.foreground@, true)
        &&& Self::holds_planes(self.background@, false)
    }

    /// Computes the levels of both planes.
    pub fn new() -> (r: Self)
        ensures
            r.is_benchmark_levels(),
    {
        BlendLevels { foreground: planes(true), background: planes(false) }
    }
}

/// Level of sample `x` of channel `c` of the foreground plane (`foreground`)
/// or of the background plane.
fn level(c: usize, x: usize, foreground: bool) -> (r: u32)
    requires
        c < 4,
        x < BLEND_WIDTH,
    ensures
        r == (if foreground {
            foreground_level(c as int, x as int)
        } else {
            background_level(c as int, x as int)
        }),
{
    assert(x * (c + 5) <= 4095 * 8) by (nonlinear_arith)
        requires
            c < 4,
            x < 4096,
    ;
    assert(x * (c + 3) <= x * (c + 5)) by (nonlinear_arith);
    let l: usize = if foreground {
        if c < 3 {
            (x * (c + 3) + c * 29) % 1024
        } else {
            x % 257
        }
    } else {
        if c < 3 {
            (x * (c + 5) + c * 47) % 1024
        } else {
            x % 251
        }
    };
    l as u32
}

/// The four channels of the foreground plane (`foreground`) or of the
/// background plane.
fn planes(foreground: bool) -> (r: Vec<Vec<u32>>)
    ensures
        BlendLevels::holds_planes(r@, foreground),
{
    let mut r: Vec<Vec<u32>> = Vec::new();
    for c in 0..4
        invariant
            r@.len() == c,
            forall|d: int| 0 <= d < c ==> #[trigger] r@[d]@.len() == BLEND_WIDTH,
            forall|d: int, x: int|
                0 <= d < c && 0 <= x < BLEND_WIDTH ==> #[trigger] r@[d]@[x] == (if foreground {
                    foreground_level(d, x)
                } else {
                    background_level(d, x)
                }),
    {
        let mut channel: Vec<u32> = Vec::new();
        for x in 0..BLEND_WIDTH
            invariant
                c < 4,
                channel@.len() == x,
                forall|y: int|
                    0 <= y < x ==> #[trigger] channel@[y] == (if foreground {
                        foreground_level(c as int, y)
                    } else {
                        background_level(c as int, y)
                    }),
        {
            channel.push(level(c, x, foreground));
        }
        r.push(channel);
    }
    r
}

/// How a patch is combined with the frame beneath it, one mode per patch
/// blend mode of the JPEG XL format (`Ignore` is the mode that leaves the
/// frame as it is).
#[derive(Clone, Copy, Debug, PartialEq, Eq, Structural)]
pub enum PatchBlendMode {
    Ignore,
    Replace,
    Add,
    Mul,
    BlendAbove,
    BlendBelow,
    AlphaWeightedAddAbove,
    AlphaWeightedAddBelow,
}

/// The blending of one kind of channel: the mode, the extra channel that
/// holds the alpha it blends by, and whether results are clamped to the
/// unit interval.
#[derive(Clone, Copy, Debug, PartialEq, Eq, Structural)]
pub struct PatchBlending {
    pub mode: PatchBlendMode,
    pub alpha_channel: usize,
    pub clamp: bool,
}

/// An alpha extra channel, and whether its alpha is premultiplied into the
/// colour channels.
#[derive(Clone, Copy, Debug, PartialEq, Eq, Structural)]
pub struct AlphaChannelInfo {
    pub alpha_associated: bool,
}

/// The blending configuration of the benchmark: how the colour channels
/// and the one extra channel are blended, and what that extra channel is.
#[derive(Clone, Copy, Debug)]
pub struct BlendConfig {
    pub color_blending: PatchBlending,
    pub extra_channel_blending: [PatchBlending; 1],
    pub extra_channel_info: [AlphaChannelInfo; 1],
}

/// The blending the benchmark uses for every channel: blend above, by the
/// alpha in extra channel 0, clamped.
pub open spec fn benchmark_blending() -> PatchBlending {
    PatchBlending { mode: PatchBlendMode::BlendAbove, alpha_channel: 0, clamp: true }
}

/// The benchmark's blending configuration: colour channels and the extra
/// channel blended above by the alpha in extra channel 0 with clamping, and
/// that extra channel a non-associated (straight) alpha channel.
pub fn blend_configuration() -> (r: BlendConfig)
    ensures
        r.color_blending == benchmark_blending(),
        r.extra_channel_blending[0] == benchmark_blending(),
        r.extra_channel_info[0] == (AlphaChannelInfo { alpha_associated: false }),
{
    let blending = PatchBlending { mode: PatchBlendMode::BlendAbove, alpha_channel: 0, clamp: true };
    BlendConfig {
        color_blending: blending,
        extra_channel_blending: [blending],
        extra_channel_info: [AlphaChannelInfo { alpha_associated: false }],
    }
}

/// The alpha channel that every blending of the benchmark configuration
/// refers to exists among its extra channels, and it holds straight alpha.
pub proof fn blend_alpha_channel_exists(config: BlendConfig)
    requires
        config.color_blending == benchmark_blending(),
        config.extra_channel_blending[0] == benchmark_blending(),
        config.extra_channel_info[0] == (AlphaChannelInfo { alpha_associated: false }),
    ensures
        config.color_blending.alpha_channel < config.extra_channel_info@.len(),
        config.extra_channel_blending[0].alpha_channel < config.extra_channel_info@.len(),
        !config.extra_channel_info[config.color_blending.alpha_channel as int].alpha_associated,
{
}

/// The foreground alpha is one sawtooth of period 257 over the whole row:
/// it climbs by one from 0 at the start of the row, and every sample has the
/// level of the sample 257 places before it.
pub proof fn foreground_alpha_is_sawtooth(x: int)
    requires
        0 <= x < BLEND_WIDTH,
    ensures
        x < 257 ==> foreground_level(3, x) == x,
        x + 257 < BLEND_WIDTH ==> foreground_level(3, x + 257) == foreground_level(3, x),
{
}

/// The background alpha level is one sawtooth of period 251 over the whole
/// row: it climbs by one from 0 at the start of the row, and every sample has
/// the level of the sample 251 places before it.
pub proof fn background_alpha_is_sawtooth(x: int)
    requires
        0 <= x < BLEND_WIDTH,
    ensures
        x < 251 ==> background_level(3, x) == x,
        x + 251 < BLEND_WIDTH ==> background_level(3, x + 251) == background_level(3, x),
{
}

/// Each colour channel of the foreground starts at level `29 c` and steps
/// by `c + 3` per sample, wrapping at 1024, along the whole row.
pub proof fn foreground_color_steps(c: int, x: int)
    requires
        0 <= c < 3,
        0 <= x,
        x + 1 < BLEND_WIDTH,
    ensures
        foreground_level(c, 0) == 29 * c,
        foreground_level(c, x + 1) == (foreground_level(c, x) + c + 3) % 1024,
{
    assert((x + 1) * (c + 3) == x * (c + 3) + (c + 3)) by (nonlinear_arith);
    lemma_add_mod_noop(x * (c + 3) + c * 29, c + 3, 1024);
}

/// Each colour channel of the background starts at level `47 c` and steps
/// by `c + 5` per sample, wrapping at 1024, along the whole row.
pub proof fn background_color_steps(c: int, x: int)
    requires
        0 <= c < 3,
        0 <= x,
        x + 1 < BLEND_WIDTH,
    ensures
        background_level(c, 0) == 47 * c,
        background_level(c, x + 1) == (background_level(c, x) + c + 5) % 1024,
{
    assert((x + 1) * (c + 5) == x * (c + 5) + (c + 5)) by (nonlinear_arith);
    lemma_add_mod_noop(x * (c + 5) + c * 47, c + 5, 1024);
}

/// At no sample are both alphas at their transparent levels: the foreground
/// alpha level is non-zero or the background alpha level (over which the
/// background alpha is `1 - level / 250`) is below 250. So the composite
/// alpha `fa + ba (1 - fa)` that blending divides by is positive everywhere.
pub proof fn composite_alpha_positive(x: int)
    requires
        0 <= x < BLEND_WIDTH,
    ensures
        foreground_level(3, x) > 0 || background_level(3, x) < 250,
{
    if x % 257 == 0 {
        let a: int = x / 257;
        assert(0 <= a <= 15);
        assert(x == 257 * a);
    }
}

/// The position that a run samples in channel `k`: the checksum positions
/// of the colour channels, and a third of the way along the alpha channel,
/// where the smoke test also checks the blended alpha.
pub open spec fn blend_checksum_position(k: int) -> int {
    if k < 3 {
        checksum_position(BLEND_WIDTH as int, k)
    } else {
        BLEND_WIDTH as int / 3
    }
}

/// The four positions a run adds up for its checksum, one per channel.
pub fn blend_checksum_positions() -> (r: [usize; 4])
    ensures
        forall|k: int| 0 <= k < 4 ==> r[k] == blend_checksum_position(k),
{
    let r = [0, BLEND_WIDTH / 2, BLEND_WIDTH - 1, BLEND_WIDTH / 3];
    assert(r@ =~= seq![0usize, 2048usize, 4095usize, 1365usize]);
    r
}

/// Every position sampled for a checksum lies inside its channel.
pub proof fn blend_checksum_positions_in_bounds(k: int)
    requires
        0 <= k < 4,
    ensures
        0 <= blend_checksum_position(k) < BLEND_WIDTH,
{
}

/// Every level lies within its denominator, so every sample of both planes,
/// colour and alpha alike, lies in the unit interval.
pub proof fn levels_in_unit_range(c: int, x: int)
    requires
        0 <= c < 4,
        0 <= x < BLEND_WIDTH,
    ensures
        c < 3 ==> 0 <= foreground_level(c, x) <= 1023,
        c < 3 ==> 0 <= background_level(c, x) <= 1023,
        c == 3 ==> 0 <= foreground_level(c, x) <= 256,
        c == 3 ==> 0 <= background_level(c, x) <= 250,
{
}

} // verus!
