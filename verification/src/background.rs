use vstd::prelude::*;
use vstd::arithmetic::div_mod::{
    lemma_div_is_ordered, lemma_div_multiples_vanish_fancy, lemma_div_pos_is_pos,
    lemma_fundamental_div_mod, lemma_mod_division_less_than_divisor,
};

use crate::frame::Frame;

verus! {

/// The background model keeps one fixed-point accumulator per pixel: the
/// pixel value in units of 1/256, so a pixel value `v` corresponds to the
/// accumulator value `256 * v`. Each frame moves the accumulator towards
/// the new intensity with weight 3/5 (a decay factor of 0.6 for the new
/// frame), rounding to the nearest fixed-point step.
pub const ACC_MAX: u32 = 255 * 256;

/// Pixels whose distance from the background exceeds this are foreground.
pub const DEFAULT_DIFF_THRESHOLD: u8 = 40;

/// One smoothing step: the accumulator after blending in the intensity `v`,
/// i.e. the nearest integer to `(3/5) * 256 * v + (2/5) * acc`.
pub open spec fn smooth(acc: int, v: int) -> int {
    (768 * v + 2 * acc + 2) / 5
}

/// The accumulator converted back to the 0..=255 intensity range, rounding
/// to the nearest integer.
pub open spec fn restore(acc: int) -> int {
    (acc + 128) / 256
}

pub open spec fn abs_diff(a: int, b: int) -> int {
    if a >= b {
        a - b
    } else {
        b - a
    }
}

/// The motion-mask value of one pixel: 255 where the intensity `v` differs
/// from the restored background `acc` by more than `threshold`, 0 elsewhere.
pub open spec fn mask_pixel(acc: int, v: int, threshold: int) -> int {
    if abs_diff(v, restore(acc)) > threshold {
        255
    } else {
        0
    }
}

/// A per-pixel exponentially-weighted average of the intensity frames seen
/// so far, together with the fixed binarization threshold used to turn the
/// difference from the current frame into a motion mask.
pub struct BackgroundModel {
    width: usize,
    height: usize,
    diff_threshold: u8,
    initialized: bool,
    acc: Vec<u32>,
}

impl View for BackgroundModel {
    type V = Seq<u32>;

    closed spec fn view(&self) -> Seq<u32> {
        self.acc@
    }
}

impl BackgroundModel {
    pub closed spec fn spec_width(&self) -> usize {
        self.width
    }

    pub closed spec fn spec_height(&self) -> usize {
        self.height
    }

    pub closed spec fn spec_diff_threshold(&self) -> u8 {
        self.diff_threshold
    }

    pub closed spec fn spec_initialized(&self) -> bool {
        self.initialized
    }

    /// The accumulator exists exactly when a first frame has been seen, and
    /// every entry stays within the fixed-point range of a pixel.
    pub open spec fn wf(&self) -> bool {
        &&& self.spec_initialized() ==> self@.len() == self.spec_width() * self.spec_height()
        &&& !self.spec_initialized() ==> self@.len() == 0
        &&& forall|i: int| 0 <= i < self@.len() ==> self@[i] <= ACC_MAX
    }

    pub fn new(width: usize, height: usize, diff_threshold: u8) -> (m: BackgroundModel)
        ensures
            m.wf(),
            m.spec_width() == width,
            m.spec_height() == height,
            m.spec_diff_threshold() == diff_threshold,
            !m.spec_initialized(),
    {
        BackgroundModel { width, height, diff_threshold, initialized: false, acc: Vec::new() }
    }

    pub fn initialized(&self) -> (b: bool)
        ensures
            b == self.spec_initialized(),
    {
        self.initialized
    }

    pub fn accumulator(&self, i: usize) -> (a: u32)
        requires
            i < self@.len(),
        ensures
            a == self@[i as int],
    {
        self.acc[i]
    }

    /// Folds one frame into the accumulator and returns the motion mask.
    ///
    /// The first frame initializes the accumulator to that frame and yields
    /// an all-zero mask: there is no earlier baseline to compare against.
    /// Every later frame first moves each accumulator entry by one smoothing
    /// step and then marks the pixels that still differ from the updated
    /// background by more than the threshold.
    pub fn update(&mut self, frame: &Frame) -> (mask: Vec<u8>)
        requires
            old(self).wf(),
            frame.wf(),
            frame.spec_width() == old(self).spec_width(),
            frame.spec_height() == old(self).spec_height(),
        ensures
            final(self).wf(),
            final(self).spec_width() == old(self).spec_width(),
            final(self).spec_height() == old(self).spec_height(),
            final(self).spec_diff_threshold() == old(self).spec_diff_threshold(),
            final(self).spec_initialized(),
            final(self)@.len() == frame@.len(),
            mask@.len() == frame@.len(),
            !old(self).spec_initialized() ==> forall|i: int|
                0 <= i < frame@.len() ==> final(self)@[i] == 256 * frame@[i] && mask@[i] == 0,
            old(self).spec_initialized() ==> forall|i: int|
                0 <= i < frame@.len() ==> final(self)@[i] == smooth(
                    old(self)@[i] as int,
                    frame@[i] as int,
                ) && mask@[i] == mask_pixel(
                    final(self)@[i] as int,
                    frame@[i] as int,
                    old(self).spec_diff_threshold() as int,
                ),
    {
        let n = frame.size();
        let mut mask: Vec<u8> = Vec::new();
        let mut next: Vec<u32> = Vec::new();
        if !self.initialized {
            let mut i: usize = 0;
            while i < n
                invariant
                    n == frame@.len(),
                    i <= n,
                    next@.len() == i,
                    mask@.len() == i,
                    forall|j: int| 0 <= j < i ==> next@[j] == 256 * frame@[j] && mask@[j] == 0,
                decreases n - i,
            {
                next.push(256 * (frame.pixel(i) as u32));
                mask.push(0);
                i += 1;
            }
            self.initialized = true;
            self.acc = next;
            mask
        } else {
            let mut i: usize = 0;
            while i < n
                invariant
                    self == old(self),
                    self.wf(),
                    self.spec_initialized(),
                    n == frame@.len(),
                    frame@.len() == self@.len(),
                    i <= n,
                    next@.len() == i,
                    mask@.len() == i,
                    forall|j: int| 0 <= j < i ==> next@[j] == smooth(
                        self@[j] as int,
                        frame@[j] as int,
                    ) && next@[j] <= ACC_MAX && mask@[j] == mask_pixel(
                        next@[j] as int,
                        frame@[j] as int,
                        self.spec_diff_threshold() as int,
                    ),
                decreases n - i,
            {
                let v = frame.pixel(i);
                let a = self.acc[i];
                let num: u32 = 768 * (v as u32) + 2 * a + 2;
                let s: u32 = num / 5;
                proof {
                    // num is at most 768 * 255 + 2 * ACC_MAX + 2, which
                    // divided by 5 is exactly ACC_MAX.
                    lemma_div_is_ordered(num as int, 326402, 5);
                }
                let r: u32 = (s + 128) / 256;
                let v32: u32 = v as u32;
                let d: u32 = if v32 >= r {
                    v32 - r
                } else {
                    r - v32
                };
                let m: u8 = if d > self.diff_threshold as u32 {
                    255
                } else {
                    0
                };
                next.push(s);
                mask.push(m);
                i += 1;
            }
            self.acc = next;
            mask
        }
    }
}

/// How far the accumulator entry `acc` is from the fixed point that a
/// constant intensity `v` drives it to.
pub open spec fn fixpoint_dist(acc: int, v: int) -> int {
    abs_diff(acc, 256 * v)
}

/// The accumulator entry after `n` smoothing steps with the constant
/// intensity `v`.
pub open spec fn iterate_smooth(acc: int, v: int, n: nat) -> int
    decreases n,
{
    if n == 0 {
        acc
    } else {
        smooth(iterate_smooth(acc, v, (n - 1) as nat), v)
    }
}

/// Division of a shifted multiple of five: `(5x + b) / 5 == x + b / 5`.
proof fn lemma_div5_shift(x: int, b: int)
    ensures
        (5 * x + b) / 5 == x + b / 5,
{
    lemma_fundamental_div_mod(b, 5);
    lemma_mod_division_less_than_divisor(b, 5);
    assert(5 * x + b == 5 * (x + b / 5) + b % 5) by (nonlinear_arith)
        requires
            b == 5 * (b / 5) + b % 5,
    ;
    lemma_div_multiples_vanish_fancy(x + b / 5, b % 5, 5);
}

/// One smoothing step with a constant intensity strictly shrinks the
/// distance to the fixed point `256 * v` until it reaches zero, and zero is
/// a fixed point: the accumulator converges to exactly `256 * v`.
pub proof fn lemma_smooth_step_converges(acc: int, v: int)
    requires
        0 <= acc <= ACC_MAX,
        0 <= v <= 255,
    ensures
        0 <= smooth(acc, v) <= ACC_MAX,
        fixpoint_dist(acc, v) == 0 ==> smooth(acc, v) == acc,
        fixpoint_dist(acc, v) > 0 ==> fixpoint_dist(smooth(acc, v), v) <= fixpoint_dist(acc, v)
            - 1,
{
    let target = 256 * v;
    if acc >= target {
        let d = acc - target;
        lemma_div5_shift(target, 2 * d + 2);
        assert(smooth(acc, v) == target + (2 * d + 2) / 5);
        lemma_div_pos_is_pos(2 * d + 2, 5);
        if d > 0 {
            lemma_div_is_ordered(2 * d + 2, 5 * (d - 1) + 4, 5);
            lemma_div_multiples_vanish_fancy(d - 1, 4, 5);
        } else {
            lemma_div_multiples_vanish_fancy(0, 2, 5);
        }
    } else {
        let e = target - acc;
        lemma_div5_shift(target - e, 3 * e + 2);
        assert(768 * v + 2 * acc + 2 == 5 * (target - e) + (3 * e + 2));
        assert(smooth(acc, v) == (target - e) + (3 * e + 2) / 5);
        lemma_div_is_ordered(5int * 1, 3 * e + 2, 5);
        lemma_div_multiples_vanish_fancy(1, 0, 5);
        lemma_div_is_ordered(3 * e + 2, 5 * e, 5);
        lemma_div_multiples_vanish_fancy(e, 0, 5);
    }
}

/// Feeding a constant intensity `v` drives the accumulator to exactly
/// `256 * v` within a bounded number of steps: the distance to the fixed
/// point shrinks by at least one per step, so any `n` at least the initial
/// distance suffices, and the accumulator then stays there.
pub proof fn lemma_background_converges(acc: int, v: int, n: nat)
    requires
        0 <= acc <= ACC_MAX,
        0 <= v <= 255,
        n >= fixpoint_dist(acc, v),
    ensures
        iterate_smooth(acc, v, n) == 256 * v,
    decreases n,
{
    if fixpoint_dist(acc, v) == 0 {
        lemma_iterate_smooth_fixed(v, n);
    } else {
        lemma_smooth_step_converges(acc, v);
        lemma_background_converges(smooth(acc, v), v, (n - 1) as nat);
        lemma_iterate_smooth_unfold(acc, v, n);
    }
}

/// The fixed point stays put: smoothing `256 * v` with `v` any number of
/// times leaves it unchanged.
proof fn lemma_iterate_smooth_fixed(v: int, n: nat)
    requires
        0 <= v <= 255,
    ensures
        iterate_smooth(256 * v, v, n) == 256 * v,
    decreases n,
{
    if n > 0 {
        lemma_iterate_smooth_fixed(v, (n - 1) as nat);
        lemma_smooth_step_converges(256 * v, v);
    }
}

/// `iterate_smooth` can also be unfolded at the front: applying `n` steps to
/// `acc` is one step followed by `n - 1` steps.
proof fn lemma_iterate_smooth_unfold(acc: int, v: int, n: nat)
    requires
        n >= 1,
    ensures
        iterate_smooth(acc, v, n) == iterate_smooth(smooth(acc, v), v, (n - 1) as nat),
    decreases n,
{
    if n == 1 {
        reveal_with_fuel(iterate_smooth, 2);
    } else {
        lemma_iterate_smooth_unfold(acc, v, (n - 1) as nat);
    }
}

/// A converged accumulator restores to exactly its intensity, so the mask
/// pixel it produces is zero for any non-negative threshold.
pub proof fn lemma_converged_mask_zero(v: int, threshold: int)
    requires
        0 <= v <= 255,
        threshold >= 0,
    ensures
        restore(256 * v) == v,
        mask_pixel(256 * v, v, threshold) == 0,
{
    lemma_div_multiples_vanish_fancy(v, 128, 256);
}

/// Once the accumulator matches a frame exactly, one more update with that
/// frame leaves every entry where it is and produces an all-zero mask:
/// together with `update`'s contract, a converged background stays
/// converged and quiet under its constant input.
pub proof fn lemma_converged_frame_stays_quiet(acc: Seq<u32>, pixels: Seq<u8>, threshold: u8)
    requires
        acc.len() == pixels.len(),
        forall|i: int| 0 <= i < acc.len() ==> acc[i] == 256 * pixels[i],
    ensures
        forall|i: int| 0 <= i < acc.len() ==> smooth(acc[i] as int, pixels[i] as int) == acc[i]
            && mask_pixel(acc[i] as int, pixels[i] as int, threshold as int) == 0,
{
    assert forall|i: int| 0 <= i < acc.len() implies smooth(acc[i] as int, pixels[i] as int)
        == acc[i] && mask_pixel(acc[i] as int, pixels[i] as int, threshold as int) == 0 by {
        lemma_smooth_step_converges(acc[i] as int, pixels[i] as int);
        lemma_converged_mask_zero(pixels[i] as int, threshold as int);
    }
}

} // verus!
