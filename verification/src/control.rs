//! The engine's per-block control state: the extension-enable flag, the
//! activation timer and the rolling analysis cursor, with the exact
//! sequencing the engine runs once per stereo block.
//!
//! Per block, the host EQ/gain loop pushes post-gain mono samples into a
//! rolling analysis buffer; `absorb` accounts for that fill. When the
//! buffer reaches one full window the detector runs (`apply_detection`
//! when extension is enabled, `skip_detection` otherwise) and the cursor
//! resets. The timer then counts down by the block length, floored at
//! zero, and the block's single activation decision is read once through
//! `is_sbr_active`. The floating-point spectrum work behind the
//! detector's three comparisons lives with the host; every state change
//! those comparisons can cause is decided and verified here.

use vstd::prelude::*;

verus! {

use crate::detector::Detection;
use crate::detector::decide;
use crate::detector::spec_decide;

/// Length of the rolling analysis window, in samples.
pub const ANALYSIS_LEN: usize = 4096;

/// How long one positive detection keeps the extender armed, in seconds.
pub const SBR_HOLD_SECS: u64 = 5;

/// The activation duration one arming decision grants: the hold time in
/// samples at the engine's sample rate.
pub open spec fn arm_duration(sample_rate: u32) -> int {
    SBR_HOLD_SECS * sample_rate
}

/// A timer after counting down by one block: down by exactly the block
/// length while that much remains, at zero otherwise.
pub open spec fn spec_ticked(timer: int, block_len: int) -> int {
    if timer >= block_len {
        timer - block_len
    } else {
        0
    }
}

/// The timer a detection outcome leaves behind: cleared on disarm, the
/// full hold duration on arm, untouched on hold.
pub open spec fn spec_detection_timer(timer: int, duration: int, d: Detection) -> int {
    match d {
        Detection::Disarm => 0,
        Detection::Arm => duration,
        Detection::Hold => timer,
    }
}

/// The per-block control state the engine owns: sample rate, the
/// extension-enable flag, the activation countdown in samples, and the
/// fill level of the rolling analysis buffer.
pub struct ControlState {
    pub sample_rate: u32,
    pub sbr_enabled: bool,
    pub sbr_timer: u64,
    pub analysis_fill: usize,
}

/// The block-level activation decision: extension contributes only while
/// it is both enabled and armed.
pub open spec fn spec_sbr_active(s: ControlState) -> bool {
    s.sbr_enabled && s.sbr_timer > 0
}

impl ControlState {
    /// The cursor never runs past the window, and the timer never holds
    /// more than one full arming grants.
    pub open spec fn wf(self) -> bool {
        &&& self.analysis_fill <= ANALYSIS_LEN
        &&& self.sbr_timer <= arm_duration(self.sample_rate)
    }

    /// A fresh engine: extension disabled, timer clear, buffer empty.
    pub fn new(sample_rate: u32) -> (r: ControlState)
        ensures
            r.wf(),
            r.sample_rate == sample_rate,
            !r.sbr_enabled,
            r.sbr_timer == 0,
            r.analysis_fill == 0,
    {
        ControlState { sample_rate, sbr_enabled: false, sbr_timer: 0, analysis_fill: 0 }
    }

    /// Whether extension is enabled at all.
    pub fn is_enabled(&self) -> (r: bool)
        ensures
            r == self.sbr_enabled,
    {
        self.sbr_enabled
    }

    /// The current activation decision: enabled and still armed.
    pub fn is_sbr_active(&self) -> (r: bool)
        ensures
            r == spec_sbr_active(*self),
    {
        self.sbr_enabled && self.sbr_timer > 0
    }

    /// Samples of activation remaining.
    pub fn timer_samples(&self) -> (r: u64)
        ensures
            r == self.sbr_timer,
    {
        self.sbr_timer
    }

    /// Current fill level of the rolling analysis buffer.
    pub fn analysis_fill(&self) -> (r: usize)
        ensures
            r == self.analysis_fill,
    {
        self.analysis_fill
    }

    /// Turns extension on or off. Turning it off clears the activation
    /// timer and discards the partly filled analysis window at once, so a
    /// later re-enable starts from a clean detector; turning it on
    /// changes nothing else.
    pub fn set_sbr_enabled(&mut self, enabled: bool)
        requires
            old(self).wf(),
        ensures
            final(self).wf(),
            final(self).sbr_enabled == enabled,
            final(self).sample_rate == old(self).sample_rate,
            enabled ==> final(self).sbr_timer == old(self).sbr_timer
                && final(self).analysis_fill == old(self).analysis_fill,
            !enabled ==> final(self).sbr_timer == 0 && final(self).analysis_fill == 0,
    {
        self.sbr_enabled = enabled;
        if !enabled {
            self.sbr_timer = 0;
            self.analysis_fill = 0;
        }
    }

    /// Accounts for one block of mono samples entering the rolling
    /// buffer: the fill advances by the block length, capped at the
    /// window, and the number of samples actually taken is returned —
    /// the host writes exactly that many, starting at the old fill.
    pub fn absorb(&mut self, block_len: usize) -> (taken: usize)
        requires
            old(self).wf(),
        ensures
            final(self).wf(),
            final(self).analysis_fill == if old(self).analysis_fill + block_len
                <= ANALYSIS_LEN { old(self).analysis_fill + block_len } else { ANALYSIS_LEN as int },
            taken == final(self).analysis_fill - old(self).analysis_fill,
            final(self).sbr_timer == old(self).sbr_timer,
            final(self).sbr_enabled == old(self).sbr_enabled,
            final(self).sample_rate == old(self).sample_rate,
    {
        let space: usize = ANALYSIS_LEN - self.analysis_fill;
        let taken: usize = if block_len < space {
            block_len
        } else {
            space
        };
        self.analysis_fill = self.analysis_fill + taken;
        taken
    }

    /// Whether the rolling buffer has reached one full analysis window,
    /// so the detector is due to run before the next block.
    pub fn analysis_pending(&self) -> (r: bool)
        ensures
            r == (self.analysis_fill == ANALYSIS_LEN),
    {
        self.analysis_fill == ANALYSIS_LEN
    }

    /// Consumes a full analysis window while extension is enabled: the
    /// detector's three band comparisons pick a decision, the timer is
    /// cleared, re-armed to the full hold duration, or left exactly as it
    /// was, and the window cursor resets.
    pub fn apply_detection(
        &mut self,
        reference_active: bool,
        presence_high: bool,
        cutoff_dead: bool,
    )
        requires
            old(self).wf(),
            old(self).analysis_fill == ANALYSIS_LEN,
            old(self).sbr_enabled,
        ensures
            final(self).wf(),
            final(self).analysis_fill == 0,
            final(self).sbr_timer == spec_detection_timer(
                old(self).sbr_timer as int,
                arm_duration(old(self).sample_rate),
                spec_decide(reference_active, presence_high, cutoff_dead),
            ),
            final(self).sbr_enabled == old(self).sbr_enabled,
            final(self).sample_rate == old(self).sample_rate,
    {
        let d: Detection = decide(reference_active, presence_high, cutoff_dead);
        match d {
            Detection::Disarm => {
                self.sbr_timer = 0;
            },
            Detection::Arm => {
                self.sbr_timer = SBR_HOLD_SECS * (self.sample_rate as u64);
            },
            Detection::Hold => {},
        }
        self.analysis_fill = 0;
    }

    /// Consumes a full analysis window while extension is disabled: no
    /// detector runs, the timer is forced to zero and the window cursor
    /// resets.
    pub fn skip_detection(&mut self)
        requires
            old(self).wf(),
            old(self).analysis_fill == ANALYSIS_LEN,
            !old(self).sbr_enabled,
        ensures
            final(self).wf(),
            final(self).analysis_fill == 0,
            final(self).sbr_timer == 0,
            final(self).sbr_enabled == old(self).sbr_enabled,
            final(self).sample_rate == old(self).sample_rate,
    {
        self.sbr_timer = 0;
        self.analysis_fill = 0;
    }

    /// Counts the activation timer down by one processed block: down by
    /// exactly the block length while that much remains, to zero
    /// otherwise, and never below.
    pub fn tick_block(&mut self, block_len: usize)
        requires
            old(self).wf(),
        ensures
            final(self).wf(),
            final(self).sbr_timer == spec_ticked(old(self).sbr_timer as int, block_len as int),
            final(self).analysis_fill == old(self).analysis_fill,
            final(self).sbr_enabled == old(self).sbr_enabled,
            final(self).sample_rate == old(self).sample_rate,
    {
        let l: u64 = block_len as u64;
        if self.sbr_timer >= l {
            self.sbr_timer = self.sbr_timer - l;
        } else {
            self.sbr_timer = 0;
        }
    }
}

/// Counting down never raises the timer, and while at least one block
/// length remains the countdown is strict and exact.
pub proof fn lemma_tick_exact(timer: int, block_len: int)
    requires
        0 <= timer,
        0 <= block_len,
    ensures
        spec_ticked(timer, block_len) <= timer,
        timer >= block_len ==> spec_ticked(timer, block_len) == timer - block_len,
        timer < block_len ==> spec_ticked(timer, block_len) == 0,
        (block_len > 0 && timer > 0) ==> spec_ticked(timer, block_len) < timer,
{
}

/// Consecutive countdowns add up: ticking by one block and then another
/// is ticking by their sum, so a run of blocks drains the timer by
/// exactly the samples processed until it floors at zero.
pub proof fn lemma_tick_accumulates(timer: int, first_len: int, second_len: int)
    requires
        0 <= timer,
        0 <= first_len,
        0 <= second_len,
    ensures
        spec_ticked(spec_ticked(timer, first_len), second_len)
            == spec_ticked(timer, first_len + second_len),
{
}

/// No detection outcome can raise the timer except the arming one, which
/// requires brick-wall evidence: an active reference band, no presence
/// energy, and a dead cutoff band. Together with `lemma_tick_exact` this
/// is the whole story of the timer: every path lowers it or leaves it,
/// save the one arm branch.
pub proof fn lemma_only_arm_raises_timer(
    timer: int,
    duration: int,
    reference_active: bool,
    presence_high: bool,
    cutoff_dead: bool,
)
    requires
        0 <= timer,
    ensures
        spec_detection_timer(
            timer,
            duration,
            spec_decide(reference_active, presence_high, cutoff_dead),
        ) > timer ==> (reference_active && !presence_high && cutoff_dead),
{
}

/// An arming window grants exactly the hold duration, and the grant then
/// outlasts any run of blocks shorter than the hold: after draining
/// `drained` samples the timer still shows the difference, so with a
/// positive sample rate the stage stays active until the full hold has
/// been processed — and is exhausted exactly then.
pub proof fn lemma_armed_hold_duration(sample_rate: u32, drained: int)
    requires
        0 <= drained,
    ensures
        drained < arm_duration(sample_rate)
            ==> spec_ticked(arm_duration(sample_rate), drained)
                == arm_duration(sample_rate) - drained > 0,
        drained >= arm_duration(sample_rate)
            ==> spec_ticked(arm_duration(sample_rate), drained) == 0,
{
}

/// Total length of a run of blocks.
pub open spec fn sum_lens(lens: Seq<int>) -> int
    decreases lens.len(),
{
    if lens.len() == 0 {
        0
    } else {
        lens[0] + sum_lens(lens.drop_first())
    }
}

/// The timer left after counting down through a whole run of blocks, one
/// block at a time.
pub open spec fn ticked_run(timer: int, lens: Seq<int>) -> int
    decreases lens.len(),
{
    if lens.len() == 0 {
        timer
    } else {
        ticked_run(spec_ticked(timer, lens[0]), lens.drop_first())
    }
}

/// A run of blocks has a non-negative total length.
pub proof fn lemma_sum_lens_nonneg(lens: Seq<int>)
    requires
        forall|i: int| 0 <= i < lens.len() ==> 0 <= #[trigger] lens[i],
    ensures
        0 <= sum_lens(lens),
    decreases lens.len(),
{
    if lens.len() > 0 {
        assert forall|i: int|
            0 <= i < lens.drop_first().len() implies 0 <= #[trigger] lens.drop_first()[i] by {
            assert(lens.drop_first()[i] == lens[i + 1]);
        }
        lemma_sum_lens_nonneg(lens.drop_first());
    }
}

/// Block-by-block countdown drains the timer by exactly the samples
/// processed: a whole run of blocks leaves the same timer as one
/// countdown by the run's total length. With `lemma_tick_exact` this is
/// the processed-block story in full: the timer falls by exactly each
/// block's length until it floors at zero, and nothing in the countdown
/// path ever raises it.
pub proof fn lemma_run_drains_exactly(timer: int, lens: Seq<int>)
    requires
        0 <= timer,
        forall|i: int| 0 <= i < lens.len() ==> 0 <= #[trigger] lens[i],
    ensures
        ticked_run(timer, lens) == spec_ticked(timer, sum_lens(lens)),
    decreases lens.len(),
{
    if lens.len() > 0 {
        assert forall|i: int|
            0 <= i < lens.drop_first().len() implies 0 <= #[trigger] lens.drop_first()[i] by {
            assert(lens.drop_first()[i] == lens[i + 1]);
        }
        lemma_run_drains_exactly(spec_ticked(timer, lens[0]), lens.drop_first());
        lemma_sum_lens_nonneg(lens.drop_first());
        lemma_tick_accumulates(timer, lens[0], sum_lens(lens.drop_first()));
    }
}

/// One arming decision outlasts every run of blocks shorter than the
/// hold duration, and no run longer: armed once and never re-armed, the
/// stage stays armed through strictly less than the hold's worth of
/// samples and is exhausted exactly when the hold has been processed.
pub proof fn lemma_armed_survives_runs(sample_rate: u32, lens: Seq<int>)
    requires
        forall|i: int| 0 <= i < lens.len() ==> 0 <= #[trigger] lens[i],
    ensures
        sum_lens(lens) < arm_duration(sample_rate)
            ==> ticked_run(arm_duration(sample_rate), lens) > 0,
        sum_lens(lens) >= arm_duration(sample_rate)
            ==> ticked_run(arm_duration(sample_rate), lens) == 0,
{
    lemma_sum_lens_nonneg(lens);
    lemma_run_drains_exactly(arm_duration(sample_rate), lens);
}

/// While extension is disabled the activation decision is false whatever
/// the timer holds, so the extension stage is a pure pass-through and the
/// processed block is exactly the EQ/gain/dynamics path.
pub proof fn lemma_disabled_never_active(s: ControlState)
    ensures
        !s.sbr_enabled ==> !spec_sbr_active(s),
{
}

} // verus!
