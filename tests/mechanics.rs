use autofishbot::game_data::{Biome, BoatType, RodType};
use autofishbot::game_data::TreasureQuality;
use autofishbot::mechanics::{
    calculate_cooldown, calculate_fish_boost_gain, calculate_next_best_action, get_treasure_ev, Action, GameState,
};

#[test]
fn test_biome_unlock_comparison() {
    let state = GameState {
        money: 1_000_000,
        level: 10,
        boost_level: 0,
        frenzy_level: 0,
        current_biome: Biome::River,
        current_rod: RodType::Plastic,
        owned_boats: vec![],
    };
    let action = calculate_next_best_action(&state);
    println!("Recommended Action: {:?}", action);
}

#[test]
fn test_biome_unlock_logic_trigger() {
    let state = GameState {
        money: 1_000_000,
        level: 50,
        boost_level: 0,
        frenzy_level: 0,
        current_biome: Biome::River,
        current_rod: RodType::Fiberglass,
        owned_boats: vec![BoatType::FishingBoat],
    };
    let action = calculate_next_best_action(&state);
    match action {
        Action::UnlockBiome(b) => assert_eq!(b, Biome::Volcanic),
        Action::BuyUpgrade(_) => {}
        Action::SaveMoney => {}
        _ => panic!("Unexpected action: {:?}", action),
    }
}

#[test]
fn river_unlock_beats_upgrades() {
    // River: 42.8 gold per fish, 3 s; Volcanic: 162.6 gold per fish, 3.5 s.
    // Unlocking Volcanic gains about 0.009 gold/s per gold spent, far more
    // than any money upgrade.
    let state = GameState {
        money: 0,
        level: 1,
        boost_level: 0,
        frenzy_level: 0,
        current_biome: Biome::River,
        current_rod: RodType::Plastic,
        owned_boats: vec![],
    };
    match calculate_next_best_action(&state) {
        Action::UnlockBiome(b) => assert_eq!(b, Biome::Volcanic),
        other => panic!("unexpected {:?}", other),
    }
}

#[test]
fn last_biome_recommends_an_upgrade() {
    let state = GameState {
        money: 0,
        level: 1,
        boost_level: 0,
        frenzy_level: 0,
        current_biome: Biome::Alien,
        current_rod: RodType::Plastic,
        owned_boats: vec![],
    };
    match calculate_next_best_action(&state) {
        // 1% boost for 220,500 / 9 per level beats 5% for 4,058,000 / 18.
        Action::BuyUpgrade(name) => assert_eq!(name, "Bait Efficiency"),
        other => panic!("unexpected {:?}", other),
    }
}

#[test]
fn cooldown_formula() {
    assert_eq!(calculate_cooldown(Biome::River, &vec![]), 3000);
    assert_eq!(calculate_cooldown(Biome::River, &vec![BoatType::Rowboat, BoatType::Yacht]), 2500);
    assert_eq!(calculate_cooldown(Biome::Alien, &vec![]), 5000);
    let many = vec![BoatType::Rowboat; 20];
    assert_eq!(calculate_cooldown(Biome::River, &many), 0);
}

#[test]
fn treasure_expected_values() {
    // 0.15·500 + 0.02·1000 + 0.01·2000 + 0.82·1000 = 935 gold.
    assert_eq!(get_treasure_ev(TreasureQuality::Common), 935_000);
    // 1295 gold of contents, times 1.4.
    assert_eq!(get_treasure_ev(TreasureQuality::Rare), 1_813_000);
    // Two charms expected: 15,675 gold of contents, times 3.
    assert_eq!(get_treasure_ev(TreasureQuality::Artifact), 47_025_000);
}

#[test]
fn boost_gain_formula() {
    assert_eq!(calculate_fish_boost_gain(0, 0, RodType::Plastic, Biome::River), 2550);
    assert_eq!(calculate_fish_boost_gain(2, 1, RodType::Supporter, Biome::Space), 15_970);
}
