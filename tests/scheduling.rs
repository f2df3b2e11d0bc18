use autofishbot::config::Config;
use autofishbot::scheduler::{ScheduledTask, Scheduler, TaskKind};

#[test]
fn initial_tasks_follow_the_configuration() {
    let cfg = Config::default();
    let s = Scheduler::new(cfg.automation, 1_000);
    let kinds: Vec<TaskKind> = s.tasks.iter().map(|t| t.kind).collect();
    assert_eq!(kinds, vec![TaskKind::Daily, TaskKind::Sell, TaskKind::Claim, TaskKind::PeriodicBoost]);
    assert_eq!(s.tasks[1].next_run_ms, 1_000 + 600_000);
    assert_eq!(s.tasks[3].interval_ms, Some(300_000));
}

#[test]
fn one_task_per_tick_and_cooldown_resampled() {
    let mut s = Scheduler {
        tasks: vec![
            ScheduledTask { kind: TaskKind::Sell, next_run_ms: 10, interval_ms: Some(100) },
            ScheduledTask { kind: TaskKind::Daily, next_run_ms: 20, interval_ms: None },
        ],
        last_action_ms: None,
        global_cooldown_ms: 0,
    };
    let t = s.tick(50).expect("a due task runs");
    assert_eq!(t.kind, TaskKind::Sell);
    assert!(s.global_cooldown_ms >= 3000 && s.global_cooldown_ms < 6000);
    assert_eq!(s.tasks.len(), 2);
    assert_eq!(s.tasks[1], ScheduledTask { kind: TaskKind::Sell, next_run_ms: 150, interval_ms: Some(100) });
    // Within the global cooldown nothing runs, though Daily is due.
    assert_eq!(s.tick(51), None);
    let t = s.tick(50 + 6000).expect("due after the cooldown");
    assert_eq!(t.kind, TaskKind::Daily);
    // A one-shot task is dropped.
    assert_eq!(s.tasks.len(), 1);
}

#[test]
fn nothing_due_nothing_runs() {
    let mut s = Scheduler {
        tasks: vec![ScheduledTask { kind: TaskKind::Claim, next_run_ms: 500, interval_ms: Some(10) }],
        last_action_ms: None,
        global_cooldown_ms: 0,
    };
    assert_eq!(s.tick_with(100, 4000), None);
    assert_eq!(s.global_cooldown_ms, 0);
    assert_eq!(s.tick_with(500, 4000).map(|t| t.kind), Some(TaskKind::Claim));
    assert_eq!(s.global_cooldown_ms, 4000);
    assert_eq!(s.last_action_ms, Some(500));
}
