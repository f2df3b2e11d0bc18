use vstd::prelude::*;
use crate::config::AutomationConfig;
use crate::random::draw_in_range;

verus! {

pub const DAILY_INTERVAL_MS: u64 = 86_400_000;
pub const SELL_INTERVAL_MS: u64 = 600_000;
pub const CLAIM_INTERVAL_MS: u64 = 14_400_000;
/// Lower bound (inclusive) of the pause between two maintenance actions.
pub const GLOBAL_COOLDOWN_MIN_MS: u64 = 3000;
/// Upper bound (exclusive) of the pause between two maintenance actions.
pub const GLOBAL_COOLDOWN_MAX_MS: u64 = 6000;

/// A maintenance action.
#[derive(Debug, Clone, Copy, PartialEq, Eq, Structural)]
pub enum TaskKind {
    Daily,
    Sell,
    Claim,
    PeriodicBoost,
}

impl TaskKind {
    /// The command, with its sub-command words, that performs the task.
    pub fn command_words(self) -> (r: &'static str)
        ensures
            r@ == task_words_spec(self),
    {
        match self {
            TaskKind::Daily => "daily",
            TaskKind::Sell => "sell",
            TaskKind::Claim => "claim",
            TaskKind::PeriodicBoost => "shop buy",
        }
    }
}

pub open spec fn task_words_spec(k: TaskKind) -> Seq<char> {
    match k {
        TaskKind::Daily => "daily"@,
        TaskKind::Sell => "sell"@,
        TaskKind::Claim => "claim"@,
        TaskKind::PeriodicBoost => "shop buy"@,
    }
}

/// A task with its absolute due time; one with an interval repeats.
#[derive(Debug, Clone, Copy, PartialEq, Eq, Structural)]
pub struct ScheduledTask {
    pub kind: TaskKind,
    pub next_run_ms: u64,
    pub interval_ms: Option<u64>,
}

/// Runs maintenance actions on their own cadences, at most one per tick and
/// never two within the shared global cooldown.
pub struct Scheduler {
    pub tasks: Vec<ScheduledTask>,
    pub last_action_ms: Option<u64>,
    pub global_cooldown_ms: u64,
}

pub open spec fn sat_add(a: int, b: int) -> u64 {
    if a + b > u64::MAX { u64::MAX } else { (a + b) as u64 }
}

pub open spec fn sat_mul(a: int, b: int) -> u64 {
    if a * b > u64::MAX { u64::MAX } else { (a * b) as u64 }
}

pub open spec fn repeating(kind: TaskKind, now: u64, interval: u64) -> ScheduledTask {
    ScheduledTask { kind, next_run_ms: sat_add(now as int, interval as int), interval_ms: Some(interval) }
}

/// The tasks enabled by `cfg`, each first due one interval after `now`.
pub open spec fn initial_tasks(cfg: AutomationConfig, now: u64) -> Seq<ScheduledTask> {
    let daily = if cfg.auto_daily { seq![repeating(TaskKind::Daily, now, DAILY_INTERVAL_MS)] } else { seq![] };
    let sell = if cfg.auto_sell { seq![repeating(TaskKind::Sell, now, SELL_INTERVAL_MS)] } else { seq![] };
    let claim = seq![repeating(TaskKind::Claim, now, CLAIM_INTERVAL_MS)];
    let boost = if cfg.boosts_length > 0 {
        seq![repeating(TaskKind::PeriodicBoost, now, sat_mul(cfg.boosts_length as int, 60_000))]
    } else {
        seq![]
    };
    daily + sell + claim + boost
}

/// The first task that is due at `now`.
pub open spec fn is_first_due(tasks: Seq<ScheduledTask>, now: u64, i: int) -> bool {
    &&& 0 <= i < tasks.len()
    &&& tasks[i].next_run_ms <= now
    &&& forall|j: int| 0 <= j < i ==> tasks[j].next_run_ms > now
}

pub open spec fn none_due(tasks: Seq<ScheduledTask>, now: u64) -> bool {
    forall|j: int| 0 <= j < tasks.len() ==> tasks[j].next_run_ms > now
}

impl Scheduler {
    /// Whether the global cooldown has elapsed at `now`.
    pub open spec fn ready(&self, now: u64) -> bool {
        match self.last_action_ms {
            None => true,
            Some(t) => now >= t + self.global_cooldown_ms,
        }
    }

    pub fn new(cfg: AutomationConfig, now_ms: u64) -> (r: Scheduler)
        ensures
            r.tasks@ == initial_tasks(cfg, now_ms),
            r.last_action_ms is None,
    {
        let mut tasks: Vec<ScheduledTask> = Vec::new();
        if cfg.auto_daily {
            tasks.push(ScheduledTask { kind: TaskKind::Daily, next_run_ms: now_ms.saturating_add(DAILY_INTERVAL_MS), interval_ms: Some(DAILY_INTERVAL_MS) });
        }
        if cfg.auto_sell {
            tasks.push(ScheduledTask { kind: TaskKind::Sell, next_run_ms: now_ms.saturating_add(SELL_INTERVAL_MS), interval_ms: Some(SELL_INTERVAL_MS) });
        }
        tasks.push(ScheduledTask { kind: TaskKind::Claim, next_run_ms: now_ms.saturating_add(CLAIM_INTERVAL_MS), interval_ms: Some(CLAIM_INTERVAL_MS) });
        if cfg.boosts_length > 0 {
            let iv: u64 = if cfg.boosts_length > u64::MAX / 60_000 {
                u64::MAX
            } else {
                cfg.boosts_length * 60_000
            };
            tasks.push(ScheduledTask { kind: TaskKind::PeriodicBoost, next_run_ms: now_ms.saturating_add(iv), interval_ms: Some(iv) });
        }
        assert(tasks@ =~= initial_tasks(cfg, now_ms));
        Scheduler { tasks, last_action_ms: None, global_cooldown_ms: 0 }
    }

    /// One tick with a given new global cooldown: executes (returns) the
    /// first due task if the global cooldown has elapsed, re-enqueues it at
    /// `now + interval` if it repeats, and restarts the global cooldown.
    pub fn tick_with(&mut self, now_ms: u64, next_cooldown_ms: u64) -> (r: Option<ScheduledTask>)
        ensures
            (!old(self).ready(now_ms) || none_due(old(self).tasks@, now_ms)) ==> {
                &&& r is None
                &&& final(self).tasks@ == old(self).tasks@
                &&& final(self).last_action_ms == old(self).last_action_ms
                &&& final(self).global_cooldown_ms == old(self).global_cooldown_ms
            },
            r matches Some(t) ==> exists|i: int| {
                &&& #[trigger] is_first_due(old(self).tasks@, now_ms, i)
                &&& t == old(self).tasks@[i]
                &&& final(self).tasks@ == match t.interval_ms {
                    Some(iv) => old(self).tasks@.remove(i).push(repeating(t.kind, now_ms, iv)),
                    None => old(self).tasks@.remove(i),
                }
            },
            r is Some ==> {
                &&& old(self).ready(now_ms)
                &&& final(self).last_action_ms == Some(now_ms)
                &&& final(self).global_cooldown_ms == next_cooldown_ms
            },
            old(self).ready(now_ms) && !none_due(old(self).tasks@, now_ms) ==> r is Some,
    {
        let ready = match self.last_action_ms {
            None => true,
            Some(t) => (now_ms as u128) >= (t as u128) + (self.global_cooldown_ms as u128),
        };
        if !ready {
            return None;
        }
        let mut i: usize = 0;
        while i < self.tasks.len()
            invariant
                *self == *old(self),
                old(self).ready(now_ms),
                i <= self.tasks@.len(),
                forall|j: int| 0 <= j < i ==> self.tasks@[j].next_run_ms > now_ms,
            decreases self.tasks@.len() - i,
        {
            if self.tasks[i].next_run_ms <= now_ms {
                let ghost before = self.tasks@;
                assert(!none_due(before, now_ms));
                let t = self.tasks.remove(i);
                match t.interval_ms {
                    Some(iv) => {
                        self.tasks.push(ScheduledTask { kind: t.kind, next_run_ms: now_ms.saturating_add(iv), interval_ms: Some(iv) });
                    },
                    None => {},
                }
                self.last_action_ms = Some(now_ms);
                self.global_cooldown_ms = next_cooldown_ms;
                assert(is_first_due(before, now_ms, i as int));
                assert(t == before[i as int]);
                return Some(t);
            }
            i = i + 1;
        }
        assert(none_due(old(self).tasks@, now_ms));
        None
    }

    /// One tick: at most one task runs, and after it runs the global cooldown
    /// is drawn anew from `[GLOBAL_COOLDOWN_MIN_MS, GLOBAL_COOLDOWN_MAX_MS)`.
    pub fn tick(&mut self, now_ms: u64) -> (r: Option<ScheduledTask>)
        ensures
            (!old(self).ready(now_ms) || none_due(old(self).tasks@, now_ms)) ==> {
                &&& r is None
                &&& final(self).tasks@ == old(self).tasks@
                &&& final(self).last_action_ms == old(self).last_action_ms
                &&& final(self).global_cooldown_ms == old(self).global_cooldown_ms
            },
            r matches Some(t) ==> exists|i: int| {
                &&& #[trigger] is_first_due(old(self).tasks@, now_ms, i)
                &&& t == old(self).tasks@[i]
                &&& final(self).tasks@ == match t.interval_ms {
                    Some(iv) => old(self).tasks@.remove(i).push(repeating(t.kind, now_ms, iv)),
                    None => old(self).tasks@.remove(i),
                }
            },
            r is Some ==> {
                &&& old(self).ready(now_ms)
                &&& final(self).last_action_ms == Some(now_ms)
                &&& GLOBAL_COOLDOWN_MIN_MS <= final(self).global_cooldown_ms < GLOBAL_COOLDOWN_MAX_MS
            },
            old(self).ready(now_ms) && !none_due(old(self).tasks@, now_ms) ==> r is Some,
    {
        let c = draw_in_range(GLOBAL_COOLDOWN_MIN_MS, GLOBAL_COOLDOWN_MAX_MS);
        self.tick_with(now_ms, c)
    }
}

} // verus!
