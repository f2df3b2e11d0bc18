use autofishbot::game_data::{Biome, BoatType, RodType};
use autofishbot::optimizer::{
    evaluate_risk_asymmetry, income_rate, ActionType, BiomeStats, Bonuses, Loadout, Optimizer,
    Target,
};

fn no_bonus() -> Bonuses {
    Bonuses { catch_bonus_permille: 0, sell_bonus_permille: 0, haste_bonus_permille: 0 }
}

#[test]
fn rate_formula_exact() {
    // 7 fish per cast × 15 gold / 2.75 s = 38.18 gold/s.
    let r = income_rate(RodType::Plastic, BoatType::Rowboat, Biome::River, BiomeStats::new(), no_bonus());
    assert_eq!(r, 38181);
    // With observations the mean replaces the prior: 30 gold per fish.
    let mut st = BiomeStats::new();
    st.update(300, 40, 10);
    let r = income_rate(RodType::Plastic, BoatType::Rowboat, Biome::River, st, no_bonus());
    assert_eq!(r, 76363);
    // Bonuses: +100% sell, +50% catch: 3x.
    let b = Bonuses { catch_bonus_permille: 500, sell_bonus_permille: 1000, haste_bonus_permille: 0 };
    assert_eq!(income_rate(RodType::Plastic, BoatType::Rowboat, Biome::River, BiomeStats::new(), b), 114545);
    // Haste can never push the cooldown under two seconds.
    let h = Bonuses { catch_bonus_permille: 0, sell_bonus_permille: 0, haste_bonus_permille: 1000 };
    assert_eq!(income_rate(RodType::Plastic, BoatType::Rowboat, Biome::River, BiomeStats::new(), h), 52500);
}

#[test]
fn biome_stats_means() {
    let mut st = BiomeStats::new();
    st.update(9, 50, 3);
    assert_eq!(st.total_catches, 3);
    assert_eq!(st.total_gold, 9);
    assert_eq!(st.total_xp, 50);
    assert_eq!(st.avg_gold_per_fish_milli, 3000);
    assert_eq!(st.avg_xp_per_fish_milli, 16666);
    st.update(0, 0, 0);
    assert_eq!(st.avg_gold_per_fish_milli, 3000);
}

#[test]
fn ranking_payback_is_exact() {
    let opt = Optimizer::new();
    let lo = Loadout { rod: RodType::Plastic, boat: BoatType::Rowboat, biome: Biome::River };
    let recs = opt.solve_next_move(lo, no_bonus(), 0);
    assert!(!recs.is_empty());
    // Improved rod: 40,909 − 38,181 = 2,728 milli-gold/s for 500 gold.
    assert_eq!(recs[0].action, ActionType::BuyRod);
    assert_eq!(recs[0].target, Target::Rod(RodType::Improved));
    assert_eq!(recs[0].cost, 500);
    assert_eq!(recs[0].roi_ms, 500u128 * 1_000_000 / 2728);
    let fiberglass = recs.iter().find(|r| r.target == Target::Rod(RodType::Fiberglass)).unwrap();
    assert_eq!(fiberglass.roi_ms, 50_000u128 * 1_000_000 / (46363 - 38181));
    // Steel carries fewer fish: not better, never listed.
    assert!(recs.iter().all(|r| r.target != Target::Rod(RodType::Steel)));
    // Every boat shortens the cooldown equally: no boat is better.
    assert!(recs.iter().all(|r| r.action != ActionType::BuyBoat));
    for w in recs.windows(2) {
        assert!(w[0].roi_ms <= w[1].roi_ms);
    }
}

#[test]
fn travel_comes_first() {
    let mut opt = Optimizer::new();
    // Observed Ocean fish are worth 1000 gold each.
    opt.biome_knowledge[2].update(10_000, 0, 10);
    let lo = Loadout { rod: RodType::Plastic, boat: BoatType::Rowboat, biome: Biome::River };
    let recs = opt.solve_next_move(lo, no_bonus(), 0);
    assert_eq!(recs[0].action, ActionType::Travel);
    assert_eq!(recs[0].target, Target::Biome(Biome::Ocean));
    assert_eq!(recs[0].cost, 0);
    assert_eq!(recs[0].roi_ms, 0);
}

#[test]
fn risk_bridge_rule() {
    // 800 short at 0.05 gold/s: 16,000 s > 4 h, and 800 <= 1000.
    assert_eq!(evaluate_risk_asymmetry(1000, 1800, 50), Some(800));
    // Exactly four hours is not enough.
    assert_eq!(evaluate_risk_asymmetry(1000, 1720, 50), None);
    assert_eq!(evaluate_risk_asymmetry(1000, 1721, 50), Some(721));
    // Shortfall larger than the balance.
    assert_eq!(evaluate_risk_asymmetry(700, 1500, 50), None);
    // Already affordable.
    assert_eq!(evaluate_risk_asymmetry(2000, 1800, 50), None);
    // No income.
    assert_eq!(evaluate_risk_asymmetry(1000, 1800, 0), None);
}

#[test]
fn risk_bridge_appears_in_ranking() {
    let mut opt = Optimizer::new();
    // A nearly worthless River: 1 gold per 1000 fish.
    opt.biome_knowledge[0].update(1, 0, 1000);
    for i in 1..6 {
        opt.biome_knowledge[i].update(0, 0, 1);
    }
    let lo = Loadout { rod: RodType::Plastic, boat: BoatType::Rowboat, biome: Biome::River };
    // 0.002 gold/s now; the Fiberglass rod makes it 0.003.
    let recs = opt.solve_next_move(lo, no_bonus(), 30_000);
    let bridge = recs
        .iter()
        .find(|r| r.target == Target::Rod(RodType::Fiberglass) && matches!(r.action, ActionType::Coinflip { .. }))
        .expect("a bridge towards the Fiberglass rod");
    assert_eq!(bridge.action, ActionType::Coinflip { amount: 20_000 });
    assert_eq!(bridge.cost, 0);
}
