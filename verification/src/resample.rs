//! Windowed-sinc resampler: block layout, output length and tap geometry.
//!
//! The resampler converts an interleaved PCM block from its source rate to
//! the fixed target rate. When the rates agree it returns the input
//! unchanged. Otherwise each output frame `k` draws on a symmetric window of
//! input frames around `floor(k * source_rate / target_rate)`, clipped to
//! the block, and the output holds `round(in_frames * target / source)`
//! frames with the channel count kept.
//!
//! Everything that decides lengths and indices is verified here: the
//! passthrough path, the output frame count, and the clipped tap window of
//! every output frame. The weighted sinc sum inside one window is IEEE-754
//! floating-point arithmetic, which this crate cannot hold, so the caller
//! evaluates the kernel over exactly the taps planned here. Sample values
//! travel as the bit patterns of single-precision numbers, so the
//! passthrough path is exact down to the bit.

use vstd::arithmetic::div_mod::{
    lemma_div_by_multiple,
    lemma_div_is_ordered,
    lemma_div_pos_is_pos,
    lemma_fundamental_div_mod,
    lemma_mod_bound,
    lemma_mod_multiples_basic,
};
use vstd::prelude::*;

verus! {

/// Fixed output rate of the pipeline, in frames per second.
pub const TARGET_SAMPLE_RATE: u32 = 44100;

/// Half-width of the sinc window: each output frame draws on the input
/// frames at most this far on either side of its source position.
pub const WINDOW_HALF_WIDTH: usize = 8;

/// One interleaved PCM block: `samples[f * channels + c]` is the bit
/// pattern of the single-precision sample of frame `f`, channel `c`.
pub struct AudioBlock {
    pub samples: Vec<u32>,
    pub channels: usize,
    pub sample_rate: u32,
}

impl AudioBlock {
    /// A block is well formed when it has at least one channel, a positive
    /// rate, and holds whole frames only.
    pub open spec fn wf(self) -> bool {
        &&& self.channels >= 1
        &&& self.sample_rate >= 1
        &&& self.samples@.len() % (self.channels as nat) == 0
    }

    /// Number of whole frames in the block.
    pub open spec fn frame_count(self) -> int {
        self.samples@.len() as int / self.channels as int
    }

    /// Tag a sample vector as a block. Accepted exactly when the shape is
    /// sound: at least one channel, a positive rate, and a sample count
    /// that is a whole number of frames.
    pub fn new(samples: Vec<u32>, channels: usize, sample_rate: u32) -> (r: Option<AudioBlock>)
        ensures
            match r {
                Some(b) => {
                    &&& b.samples@ == samples@
                    &&& b.channels == channels
                    &&& b.sample_rate == sample_rate
                    &&& b.wf()
                },
                None => channels == 0 || sample_rate == 0 || samples@.len() % (
                channels as nat) != 0,
            },
    {
        if channels >= 1 && sample_rate >= 1 && samples.len() % channels == 0 {
            Some(AudioBlock { samples, channels, sample_rate })
        } else {
            None
        }
    }
}

/// Frame count of the resampled block: `in_frames * target / source`,
/// rounded half-up to the nearest whole frame.
pub open spec fn spec_output_frame_count(in_frames: int, source_rate: int, target_rate: int) -> int
    recommends
        source_rate >= 1,
{
    (2 * in_frames * target_rate + source_rate) / (2 * source_rate)
}

/// Source position of output frame `k`: the input frame under it, namely
/// `floor(k * source_rate / target_rate)`.
pub open spec fn spec_source_position(k: int, source_rate: int, target_rate: int) -> int
    recommends
        target_rate >= 1,
{
    k * source_rate / target_rate
}

/// The planned output frame count is the input frame count scaled by
/// `target / source` and rounded to the nearest whole frame: scaled by
/// `2 * source`, it sits within half a frame of the exact ratio.
pub proof fn lemma_output_frame_count_rounds(in_frames: int, source_rate: int, target_rate: int)
    requires
        in_frames >= 0,
        source_rate >= 1,
        target_rate >= 0,
    ensures
        2 * source_rate * spec_output_frame_count(in_frames, source_rate, target_rate) <= 2
            * in_frames * target_rate + source_rate,
        2 * in_frames * target_rate + source_rate < 2 * source_rate * spec_output_frame_count(
            in_frames,
            source_rate,
            target_rate,
        ) + 2 * source_rate,
{
    let x = 2 * in_frames * target_rate + source_rate;
    let d = 2 * source_rate;
    lemma_fundamental_div_mod(x, d);
    lemma_mod_bound(x, d);
    assert(d * (x / d) <= x);
    assert(x < d * (x / d) + d);
    assert(d * (x / d) == 2 * source_rate * spec_output_frame_count(
        in_frames,
        source_rate,
        target_rate,
    )) by (nonlinear_arith)
        requires
            d == 2 * source_rate,
            x / d == spec_output_frame_count(in_frames, source_rate, target_rate),
    ;
}

/// The source position of every planned output frame lies inside
/// `[0, in_frames]`; with the window clipped to the block it can never
/// reach past the input.
pub proof fn lemma_source_position_bounded(
    k: int,
    in_frames: int,
    source_rate: int,
    target_rate: int,
)
    requires
        in_frames >= 0,
        source_rate >= 1,
        target_rate >= 1,
        0 <= k < spec_output_frame_count(in_frames, source_rate, target_rate),
    ensures
        0 <= spec_source_position(k, source_rate, target_rate) <= in_frames,
{
    let out = spec_output_frame_count(in_frames, source_rate, target_rate);
    lemma_output_frame_count_rounds(in_frames, source_rate, target_rate);
    assert(k * source_rate <= in_frames * target_rate) by (nonlinear_arith)
        requires
            k <= out - 1,
            2 * source_rate * out <= 2 * in_frames * target_rate + source_rate,
            source_rate >= 1,
    ;
    assert(k * source_rate >= 0) by (nonlinear_arith)
        requires
            k >= 0,
            source_rate >= 1,
    ;
    assert(in_frames * target_rate >= 0) by (nonlinear_arith)
        requires
            in_frames >= 0,
            target_rate >= 1,
    ;
    lemma_div_is_ordered(k * source_rate, in_frames * target_rate, target_rate);
    lemma_div_by_multiple(in_frames, target_rate);
    assert(in_frames * target_rate == target_rate * in_frames) by (nonlinear_arith);
    lemma_div_pos_is_pos(k * source_rate, target_rate);
}

/// Resampled frame count for a block of `in_frames` frames, or `None` when
/// that count does not fit the machine's word.
pub fn output_frame_count(in_frames: usize, source_rate: u32, target_rate: u32) -> (r: Option<
    usize,
>)
    requires
        source_rate >= 1,
    ensures
        match r {
            Some(n) => n == spec_output_frame_count(
                in_frames as int,
                source_rate as int,
                target_rate as int,
            ),
            None => spec_output_frame_count(
                in_frames as int,
                source_rate as int,
                target_rate as int,
            ) > usize::MAX,
        },
{
    let n: u128 = in_frames as u128;
    let t: u128 = target_rate as u128;
    let s: u128 = source_rate as u128;
    assert(2 * n * t + s <= u128::MAX) by (nonlinear_arith)
        requires
            n <= 0xFFFF_FFFF_FFFF_FFFFu128,
            t <= 0xFFFF_FFFFu128,
            s <= 0xFFFF_FFFFu128,
    ;
    let scaled: u128 = (2 * n * t + s) / (2 * s);
    if scaled <= usize::MAX as u128 {
        Some(scaled as usize)
    } else {
        None
    }
}

/// The clipped tap window of one output frame: the sinc kernel is evaluated
/// over the input frames `lo..hi`, a window of half-width
/// [`WINDOW_HALF_WIDTH`] around `center` cut down to the block.
#[derive(Clone, Copy, PartialEq, Eq, Structural, Debug)]
pub struct TapWindow {
    pub center: usize,
    pub lo: usize,
    pub hi: usize,
}

/// What the window of output frame `k` must be, for a block of `in_frames`
/// input frames: centered on the source position of `k`, reaching at most
/// [`WINDOW_HALF_WIDTH`] frames either side, clipped to `[0, in_frames)`.
pub open spec fn spec_tap_window_ok(
    w: TapWindow,
    k: int,
    in_frames: int,
    source_rate: int,
    target_rate: int,
) -> bool {
    let center = spec_source_position(k, source_rate, target_rate);
    &&& w.center == center
    &&& w.lo == if center >= WINDOW_HALF_WIDTH {
        center - WINDOW_HALF_WIDTH
    } else {
        0
    }
    &&& w.hi == if center + WINDOW_HALF_WIDTH + 1 <= in_frames {
        center + WINDOW_HALF_WIDTH + 1
    } else {
        in_frames
    }
    &&& w.lo <= w.hi <= in_frames
}

/// The tap windows of every output frame of a resampled block, in output
/// frame order, or `None` when the output frame count does not fit the
/// machine's word. The caller evaluates the floating-point sinc kernel of
/// output frame `k` over exactly the input frames `plan[k].lo..plan[k].hi`,
/// once per channel.
pub fn interpolation_plan(in_frames: usize, source_rate: u32, target_rate: u32) -> (r: Option<
    Vec<TapWindow>,
>)
    requires
        source_rate >= 1,
        target_rate >= 1,
    ensures
        match r {
            Some(plan) => {
                &&& plan@.len() == spec_output_frame_count(
                    in_frames as int,
                    source_rate as int,
                    target_rate as int,
                )
                &&& forall|k: int|
                    0 <= k < plan@.len() ==> spec_tap_window_ok(
                        #[trigger] plan@[k],
                        k,
                        in_frames as int,
                        source_rate as int,
                        target_rate as int,
                    )
            },
            None => spec_output_frame_count(
                in_frames as int,
                source_rate as int,
                target_rate as int,
            ) > usize::MAX,
        },
{
    let out_n: usize = match output_frame_count(in_frames, source_rate, target_rate) {
        Some(n) => n,
        None => {
            return None;
        },
    };
    let mut plan: Vec<TapWindow> = Vec::new();
    let mut k: usize = 0;
    while k < out_n
        invariant
            k <= out_n,
            plan@.len() == k,
            source_rate >= 1,
            target_rate >= 1,
            out_n == spec_output_frame_count(
                in_frames as int,
                source_rate as int,
                target_rate as int,
            ),
            forall|j: int|
                0 <= j < k ==> spec_tap_window_ok(
                    #[trigger] plan@[j],
                    j,
                    in_frames as int,
                    source_rate as int,
                    target_rate as int,
                ),
        decreases out_n - k,
    {
        proof {
            lemma_source_position_bounded(
                k as int,
                in_frames as int,
                source_rate as int,
                target_rate as int,
            );
        }
        let kw: u128 = k as u128;
        let sw: u128 = source_rate as u128;
        let tw: u128 = target_rate as u128;
        assert(kw * sw <= u128::MAX) by (nonlinear_arith)
            requires
                kw <= 0xFFFF_FFFF_FFFF_FFFFu128,
                sw <= 0xFFFF_FFFFu128,
        ;
        let center_wide: u128 = kw * sw / tw;
        let center: usize = center_wide as usize;
        let lo: usize = if center >= WINDOW_HALF_WIDTH {
            center - WINDOW_HALF_WIDTH
        } else {
            0
        };
        let hi: usize = if center < in_frames && in_frames - center > WINDOW_HALF_WIDTH {
            center + WINDOW_HALF_WIDTH + 1
        } else {
            in_frames
        };
        plan.push(TapWindow { center, lo, hi });
        k = k + 1;
    }
    Some(plan)
}

/// Exact copy of a sample vector, bit for bit.
fn copy_samples(samples: &Vec<u32>) -> (r: Vec<u32>)
    ensures
        r@ == samples@,
{
    let mut out: Vec<u32> = Vec::new();
    let mut i: usize = 0;
    while i < samples.len()
        invariant
            i <= samples@.len(),
            out@ == samples@.take(i as int),
        decreases samples@.len() - i,
    {
        out.push(samples[i]);
        proof {
            assert(out@ =~= samples@.take(i as int + 1));
        }
        i = i + 1;
    }
    proof {
        assert(samples@.take(samples@.len() as int) =~= samples@);
    }
    out
}

/// How one block is resampled to the target rate.
pub enum ResampleStep {
    /// Source and target rate agree: the output is the input, unchanged.
    Passthrough(AudioBlock),
    /// The rates differ: evaluate the sinc kernel over these tap windows,
    /// one window per output frame, once per channel.
    Interpolate(Vec<TapWindow>),
}

/// Decide how a block reaches the target rate. Equal rates give the exact
/// passthrough block; differing rates give the tap windows of every output
/// frame. `None` only when the output would not fit the machine's word.
pub fn plan_resample(block: &AudioBlock, target_rate: u32) -> (r: Option<ResampleStep>)
    requires
        block.wf(),
        target_rate >= 1,
    ensures
        block.sample_rate == target_rate ==> match r {
            Some(step) => step matches ResampleStep::Passthrough(out) && out.samples@
                == block.samples@ && out.channels == block.channels && out.sample_rate
                == block.sample_rate && out.wf(),
            None => false,
        },
        block.sample_rate != target_rate ==> match r {
            Some(step) => step matches ResampleStep::Interpolate(plan) && plan@.len()
                == spec_output_frame_count(
                block.frame_count(),
                block.sample_rate as int,
                target_rate as int,
            ) && (forall|k: int|
                0 <= k < plan@.len() ==> spec_tap_window_ok(
                    #[trigger] plan@[k],
                    k,
                    block.frame_count(),
                    block.sample_rate as int,
                    target_rate as int,
                )),
            None => spec_output_frame_count(
                block.frame_count(),
                block.sample_rate as int,
                target_rate as int,
            ) > usize::MAX,
        },
{
    if block.sample_rate == target_rate {
        let out = AudioBlock {
            samples: copy_samples(&block.samples),
            channels: block.channels,
            sample_rate: block.sample_rate,
        };
        Some(ResampleStep::Passthrough(out))
    } else {
        let in_frames: usize = block.samples.len() / block.channels;
        match interpolation_plan(in_frames, block.sample_rate, target_rate) {
            Some(plan) => Some(ResampleStep::Interpolate(plan)),
            None => None,
        }
    }
}

/// Tag the kernel's output as the resampled block. The block keeps the
/// input's channel count — the resampler never changes it — and carries the
/// target rate. Accepted exactly when `samples` holds, for every planned
/// output frame, one sample per channel.
pub fn assemble_resampled(
    input: &AudioBlock,
    samples: Vec<u32>,
    out_frames: usize,
    target_rate: u32,
) -> (r: Option<AudioBlock>)
    requires
        input.wf(),
        target_rate >= 1,
    ensures
        match r {
            Some(b) => {
                &&& b.samples@ == samples@
                &&& b.channels == input.channels
                &&& b.sample_rate == target_rate
                &&& b.samples@.len() == out_frames * input.channels
                &&& b.wf()
            },
            None => samples@.len() != out_frames * input.channels,
        },
{
    if samples.len() / input.channels == out_frames && samples.len() % input.channels == 0 {
        proof {
            lemma_fundamental_div_mod(samples@.len() as int, input.channels as int);
        }
        Some(AudioBlock { samples, channels: input.channels, sample_rate: target_rate })
    } else {
        proof {
            if samples@.len() == out_frames * input.channels {
                lemma_div_by_multiple(out_frames as int, input.channels as int);
                lemma_mod_multiples_basic(out_frames as int, input.channels as int);
            }
        }
        None
    }
}

} // verus!
