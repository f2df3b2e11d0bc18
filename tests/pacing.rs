use autofishbot::cooldown::CooldownManager;

#[test]
fn hit_raises_and_successes_decay() {
    let mut m = CooldownManager::new(3500);
    m.report_cooldown_hit(1000, 5000);
    assert_eq!(m.estimated_cooldown_ms, 5000);
    assert_eq!(m.consecutive_hits, 1);
    for _ in 0..20 {
        m.report_success();
    }
    assert_eq!(m.estimated_cooldown_ms, 4950);
    for _ in 0..20 * 100 {
        m.report_success();
        assert!(m.estimated_cooldown_ms >= 3500);
    }
    assert_eq!(m.estimated_cooldown_ms, 3500);
}

#[test]
fn smaller_reported_cooldown_is_ignored() {
    let mut m = CooldownManager::new(3500);
    m.report_cooldown_hit(0, 3000);
    assert_eq!(m.estimated_cooldown_ms, 3500);
    assert_eq!(m.success_streak, 0);
}

#[test]
fn delay_adds_penalty_and_jitter() {
    let mut m = CooldownManager::new(3000);
    assert_eq!(m.delay_with_jitter(100), 3100);
    m.report_cooldown_hit(0, 0);
    m.report_cooldown_hit(0, 0);
    assert_eq!(m.delay_with_jitter(250), 3000 + 1000 + 250);
    m.report_success();
    assert_eq!(m.delay_with_jitter(799), 3799);
    for _ in 0..50 {
        let d = m.get_sleep_time();
        assert!(d >= 3100 && d < 3800);
    }
}
