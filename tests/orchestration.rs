use autofishbot::game_data::Biome;
use autofishbot::optimizer::{ActionType, Bonuses, Optimizer};
use autofishbot::orchestrator::{
    biome_from_name, mentions_full, parse_balance, rod_from_name, Bot, BotState,
    Command, Observation,
};
use autofishbot::game_data::RodType;

fn obs(embeds: Vec<&str>, balance: &str, biome: &str) -> Observation {
    Observation {
        running: true,
        captcha_detected: false,
        embeds: embeds.into_iter().map(|s| s.to_string()).collect(),
        balance_text: balance.to_string(),
        rod_text: "Plastic Rod".to_string(),
        biome_text: biome.to_string(),
        bonuses: Bonuses { catch_bonus_permille: 0, sell_bonus_permille: 0, haste_bonus_permille: 0 },
    }
}

#[test]
fn catch_in_ocean_updates_its_statistics() {
    let mut bot = Bot::new(3000, Optimizer::new(), false);
    let out = bot.cycle_with(&obs(vec!["You caught 3 <:salmon:123> Salmon\n+50 XP"], "$0", "Ocean"), 1_000, 100);
    let st = bot.optimizer.stats(Biome::Ocean);
    assert_eq!(st.total_catches, 3);
    assert_eq!(st.total_xp, 50);
    assert_eq!(st.total_gold, 0);
    assert_eq!(st.avg_gold_per_fish_milli, 0);
    assert_eq!(st.avg_xp_per_fish_milli, 16666);
    assert_eq!(bot.optimizer.stats(Biome::River).total_catches, 0);
    assert_eq!(out.commands.last(), Some(&Command::Fish));
    assert!(out.tick_scheduler);
    assert_eq!(bot.state, BotState::PrimaryAction);
}

#[test]
fn catch_value_uses_catalogue_prices() {
    let mut bot = Bot::new(3000, Optimizer::new(), false);
    bot.cycle_with(&obs(vec!["3 <:fish:1> Raw Salmon\n1 <:fish:2> Cod\n+12 XP"], "$0", "River"), 0, 100);
    let st = bot.optimizer.stats(Biome::River);
    assert_eq!(st.total_catches, 4);
    assert_eq!(st.total_gold, 19);
    assert_eq!(st.avg_gold_per_fish_milli, 4750);
}

#[test]
fn captcha_preempts_everything() {
    let mut bot = Bot::new(3000, Optimizer::new(), false);
    let mut o = obs(vec!["3 <:salmon:123> Salmon"], "$0", "Ocean");
    o.captcha_detected = true;
    let out = bot.cycle_with(&o, 0, 100);
    assert!(out.commands.is_empty());
    assert!(!out.tick_scheduler);
    assert_eq!(bot.state, BotState::AwaitingCaptcha);
    assert_eq!(bot.optimizer.stats(Biome::Ocean).total_catches, 0);
}

#[test]
fn stopped_bot_idles() {
    let mut bot = Bot::new(3000, Optimizer::new(), false);
    let mut o = obs(vec![], "$0", "River");
    o.running = false;
    let out = bot.cycle_with(&o, 0, 100);
    assert!(out.commands.is_empty());
    assert_eq!(bot.state, BotState::Idle);
}

#[test]
fn full_inventory_sells_instead_of_fishing() {
    let mut bot = Bot::new(3000, Optimizer::new(), false);
    let out = bot.cycle_with(&obs(vec!["Your inventory is FULL!"], "$0", "River"), 0, 100);
    assert_eq!(out.commands.last(), Some(&Command::Sell));
    assert!(!out.commands.contains(&Command::Fish));
}

#[test]
fn affordable_purchase_is_made_once() {
    let mut bot = Bot::new(3000, Optimizer::new(), false);
    let out = bot.cycle_with(&obs(vec![], "$1,000", "River"), 0, 100);
    assert_eq!(out.commands, vec![Command::BuyRod(RodType::Improved)]);
    assert_eq!(out.sleep_ms, 5000);
    assert_eq!(bot.last_action, Some((ActionType::BuyRod, 0)));
    // Within fifteen seconds the same purchase is not repeated.
    let out = bot.cycle_with(&obs(vec![], "$1,000", "River"), 10_000, 100);
    assert_eq!(out.commands, vec![Command::Fish]);
    assert_eq!(out.sleep_ms, 3100);
    assert_eq!(bot.last_action, Some((ActionType::BuyRod, 0)));
}

#[test]
fn cooldown_report_raises_the_pacing() {
    let mut bot = Bot::new(3000, Optimizer::new(), false);
    bot.cycle_with(&obs(vec!["You must wait **1.2**s. Current cooldown: **4.25** seconds"], "$0", "River"), 0, 100);
    assert_eq!(bot.cooldown.estimated_cooldown_ms, 4250);
    assert_eq!(bot.cooldown.consecutive_hits, 1);
}

#[test]
fn profile_snapshot_reading() {
    assert_eq!(parse_balance("$1,234,567"), 1_234_567);
    assert_eq!(parse_balance("  $3,548 "), 3548);
    assert_eq!(parse_balance("lots"), 0);
    assert_eq!(parse_balance(""), 0);
    assert_eq!(biome_from_name("Space"), Biome::Space);
    assert_eq!(biome_from_name("Flatland"), Biome::River);
    assert_eq!(rod_from_name("Steel Rod"), RodType::Steel);
    assert_eq!(rod_from_name("Stick"), RodType::Plastic);
    assert!(mentions_full("Inventory full"));
    assert!(!mentions_full("ful l"));
}
