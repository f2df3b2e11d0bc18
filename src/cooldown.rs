use vstd::prelude::*;
use crate::random::draw_in_range;

verus! {

/// Pause added per consecutive cooldown violation.
pub const HIT_PENALTY_MS: u64 = 500;
/// Lower bound (inclusive) of the human-like jitter added to every delay.
pub const JITTER_MIN_MS: u64 = 100;
/// Upper bound (exclusive) of the human-like jitter added to every delay.
pub const JITTER_MAX_MS: u64 = 800;
/// Number of consecutive successes after which the estimate is probed lower.
pub const DECAY_STREAK: u32 = 20;
/// Size of one probing step towards the base cooldown.
pub const DECAY_STEP_MS: u64 = 50;

/// Learns the server's true per-action delay from hit/success feedback.
pub struct CooldownManager {
    pub base_cooldown_ms: u64,
    pub estimated_cooldown_ms: u64,
    pub consecutive_hits: u32,
    pub success_streak: u32,
}

/// Feedback from one primary action.
#[derive(Debug, Clone, Copy, PartialEq, Eq, Structural)]
pub enum Feedback {
    /// A cooldown violation, with the reported wait and total cooldown.
    Hit { wait_ms: u64, total_ms: u64 },
    Success,
}

/// The model after a cooldown violation.
pub open spec fn after_hit(m: CooldownManager, total_ms: u64) -> CooldownManager {
    CooldownManager {
        consecutive_hits: if m.consecutive_hits == u32::MAX { u32::MAX } else { (m.consecutive_hits + 1) as u32 },
        success_streak: 0,
        estimated_cooldown_ms: if total_ms > m.estimated_cooldown_ms { total_ms } else { m.estimated_cooldown_ms },
        ..m
    }
}

/// The model after a success.
pub open spec fn after_success(m: CooldownManager) -> CooldownManager {
    if m.success_streak + 1 < DECAY_STREAK {
        CooldownManager { consecutive_hits: 0, success_streak: (m.success_streak + 1) as u32, ..m }
    } else {
        CooldownManager {
            consecutive_hits: 0,
            success_streak: 0,
            estimated_cooldown_ms: if m.estimated_cooldown_ms - DECAY_STEP_MS < m.base_cooldown_ms {
                m.base_cooldown_ms
            } else {
                (m.estimated_cooldown_ms - DECAY_STEP_MS) as u64
            },
            ..m
        }
    }
}

pub open spec fn after(m: CooldownManager, f: Feedback) -> CooldownManager {
    match f {
        Feedback::Hit { total_ms, .. } => after_hit(m, total_ms),
        Feedback::Success => after_success(m),
    }
}

/// The model after a sequence of feedback.
pub open spec fn after_all(m: CooldownManager, fs: Seq<Feedback>) -> CooldownManager
    decreases fs.len(),
{
    if fs.len() == 0 {
        m
    } else {
        after(after_all(m, fs.drop_last()), fs.last())
    }
}

/// Whatever feedback arrives, in any order, the estimate never falls below
/// the base cooldown, and each step either keeps or raises it or is the
/// decay step, which lowers it by at most `DECAY_STEP_MS` and only when a
/// streak of `DECAY_STREAK` successes completes.
pub proof fn lemma_estimate_bounds(m: CooldownManager, fs: Seq<Feedback>)
    requires
        m.wf(),
    ensures
        after_all(m, fs).wf(),
        after_all(m, fs).base_cooldown_ms == m.base_cooldown_ms,
        fs.len() > 0 ==> {
            let prev = after_all(m, fs.drop_last());
            let next = after_all(m, fs);
            ||| next.estimated_cooldown_ms >= prev.estimated_cooldown_ms
            ||| (fs.last() == Feedback::Success && prev.success_streak + 1 == DECAY_STREAK
                && next.estimated_cooldown_ms + DECAY_STEP_MS >= prev.estimated_cooldown_ms
                && next.estimated_cooldown_ms >= m.base_cooldown_ms)
        },
    decreases fs.len(),
{
    if fs.len() > 0 {
        lemma_estimate_bounds(m, fs.drop_last());
    }
}

pub open spec fn min_u64(a: int) -> int {
    if a > u64::MAX as int { u64::MAX as int } else { a }
}

impl CooldownManager {
    /// The estimate never falls below the base cooldown, and the success
    /// streak is always shorter than the decay period.
    pub open spec fn wf(&self) -> bool {
        &&& self.estimated_cooldown_ms >= self.base_cooldown_ms
        &&& self.success_streak < DECAY_STREAK
    }

    /// The delay before the next primary action for a given jitter.
    pub open spec fn delay_spec(&self, jitter_ms: u64) -> int {
        min_u64(
            self.estimated_cooldown_ms + self.consecutive_hits * HIT_PENALTY_MS + jitter_ms,
        )
    }

    pub fn new(base_cooldown_ms: u64) -> (r: CooldownManager)
        ensures
            r.wf(),
            r.base_cooldown_ms == base_cooldown_ms,
            r.estimated_cooldown_ms == base_cooldown_ms,
            r.consecutive_hits == 0,
            r.success_streak == 0,
    {
        CooldownManager {
            base_cooldown_ms,
            estimated_cooldown_ms: base_cooldown_ms,
            consecutive_hits: 0,
            success_streak: 0,
        }
    }

    /// `estimated_cooldown + consecutive_hits × penalty + jitter`, saturated at
    /// the largest representable duration.
    pub fn delay_with_jitter(&self, jitter_ms: u64) -> (r: u64)
        ensures
            r as int == self.delay_spec(jitter_ms),
    {
        let penalty: u64 = (self.consecutive_hits as u64) * HIT_PENALTY_MS;
        self.estimated_cooldown_ms.saturating_add(penalty).saturating_add(jitter_ms)
    }

    /// The delay before the next primary action, with a jitter drawn uniformly
    /// from `[JITTER_MIN_MS, JITTER_MAX_MS)`.
    pub fn get_sleep_time(&self) -> (r: u64)
        ensures
            exists|j: u64|
                JITTER_MIN_MS <= j < JITTER_MAX_MS && r as int == #[trigger] self.delay_spec(j),
    {
        let j = draw_in_range(JITTER_MIN_MS, JITTER_MAX_MS);
        let r = self.delay_with_jitter(j);
        assert(JITTER_MIN_MS <= j < JITTER_MAX_MS && r as int == self.delay_spec(j));
        r
    }

    /// A jitter for `delay_with_jitter`, drawn uniformly.
    pub fn draw_jitter() -> (r: u64)
        ensures
            JITTER_MIN_MS <= r < JITTER_MAX_MS,
    {
        draw_in_range(JITTER_MIN_MS, JITTER_MAX_MS)
    }

    /// A cooldown violation was reported; a larger server-reported total
    /// cooldown replaces the estimate.
    pub fn report_cooldown_hit(&mut self, wait_time_ms: u64, total_cooldown_ms: u64)
        requires
            old(self).wf(),
        ensures
            final(self).wf(),
            final(self).base_cooldown_ms == old(self).base_cooldown_ms,
            final(self).consecutive_hits as int == if old(self).consecutive_hits == u32::MAX {
                u32::MAX as int
            } else {
                old(self).consecutive_hits + 1
            },
            final(self).success_streak == 0,
            final(self).estimated_cooldown_ms == if total_cooldown_ms
                > old(self).estimated_cooldown_ms {
                total_cooldown_ms
            } else {
                old(self).estimated_cooldown_ms
            },
            final(self).estimated_cooldown_ms >= old(self).estimated_cooldown_ms,
            *final(self) == after_hit(*old(self), total_cooldown_ms),
    {
        self.consecutive_hits = self.consecutive_hits.saturating_add(1);
        self.success_streak = 0;
        if total_cooldown_ms > self.estimated_cooldown_ms {
            self.estimated_cooldown_ms = total_cooldown_ms;
        }
    }

    /// An action went through; every `DECAY_STREAK`-th consecutive success
    /// lowers the estimate by `DECAY_STEP_MS`, never below the base, and
    /// restarts the streak.
    pub fn report_success(&mut self)
        requires
            old(self).wf(),
        ensures
            final(self).wf(),
            final(self).base_cooldown_ms == old(self).base_cooldown_ms,
            final(self).consecutive_hits == 0,
            old(self).success_streak + 1 < DECAY_STREAK ==> {
                &&& final(self).success_streak == old(self).success_streak + 1
                &&& final(self).estimated_cooldown_ms == old(self).estimated_cooldown_ms
            },
            old(self).success_streak + 1 == DECAY_STREAK ==> {
                &&& final(self).success_streak == 0
                &&& final(self).estimated_cooldown_ms as int == if old(
                    self,
                ).estimated_cooldown_ms - DECAY_STEP_MS < old(self).base_cooldown_ms {
                    old(self).base_cooldown_ms as int
                } else {
                    old(self).estimated_cooldown_ms - DECAY_STEP_MS
                }
            },
            *final(self) == after_success(*old(self)),
    {
        self.consecutive_hits = 0;
        self.success_streak = self.success_streak + 1;
        if self.success_streak == DECAY_STREAK {
            self.success_streak = 0;
            if self.estimated_cooldown_ms - self.base_cooldown_ms < DECAY_STEP_MS {
                self.estimated_cooldown_ms = self.base_cooldown_ms;
            } else {
                self.estimated_cooldown_ms = self.estimated_cooldown_ms - DECAY_STEP_MS;
            }
        }
    }
}

} // verus!
