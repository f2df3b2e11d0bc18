use autofishbot::captcha::Captcha;
use autofishbot::commands::{build_command_options, task_command, CommandDescriptor};
use autofishbot::orchestrator::mentions_captcha;
use autofishbot::profile::Profile;
use autofishbot::scheduler::TaskKind;

#[test]
fn profile_message_fields() {
    let mut p = Profile::new();
    p.inventory.push(("9".to_string(), "Old".to_string()));
    let content = "**Balance:** $3,548\nLevel 21, 1,000 XP to next level\n<:rod:1> Steel Rod\n\
Current biome: <:b:2> Ocean\nPet: <:p:3> Dolphin\nBait: <:w:4> Worms\n1,234 <:gf:5> Gold Fish\n\
12 <:ef:6> Emerald Fish\nFish Value: $900\n3 <:fish:7> Raw Salmon\n";
    p.update_from_message(content, Some("Your Profile"));
    assert_eq!(p.balance, "$3,548");
    assert_eq!(p.level, "Level 21");
    assert_eq!(p.rod, "Steel Rod");
    assert_eq!(p.biome, "Ocean");
    assert_eq!(p.pet, "Dolphin");
    assert_eq!(p.bait, "Worms");
    assert_eq!(p.exotic_fish.gold, 1234);
    assert_eq!(p.exotic_fish.emerald, 12);
    assert_eq!(p.inventory_value, "$900");
    assert_eq!(p.inventory, vec![("3".to_string(), "Raw Salmon".to_string())]);
}

#[test]
fn charms_buffs_and_quests() {
    let mut p = Profile::new();
    p.update_from_message("**12**/50 Marketing\n3/10 Haste\nno slash here\n7/7 Total charms found", Some("Charms"));
    assert_eq!(p.charms.marketing, "12");
    assert_eq!(p.charms.haste, "3");
    assert_eq!(p.charms.found, "7");
    p.update_from_message("Sell price: +15%\nFish catch: 5%\nFishing cooldown: -0.5s", Some("Active Buffs"));
    assert_eq!(p.buffs.sell_price, "15%");
    assert_eq!(p.buffs.fish_catch, "5%");
    assert_eq!(p.buffs.fishing_cooldown, "-0.5s");
    p.update_from_message(
        "Quests reset in 3h\nDaily 1 - Catch 100 fish - 40/100\nDaily 2 - Sell 10 times COMPLETED\nWeekly - x - y",
        Some("Quests"),
    );
    assert_eq!(p.quests.len(), 2);
    assert_eq!(p.quests[0].objective, "Catch 100 fish");
    assert_eq!(p.quests[0].progress, "40/100");
    assert!(!p.quests[0].is_completed);
    assert_eq!(p.quests[1].objective, "Sell 10 times");
    assert_eq!(p.quests[1].progress, "Completed");
    assert!(p.quests[1].is_completed);
    let before = p.balance.clone();
    p.update_from_message("Balance: 5", Some("Something else"));
    p.update_from_message("Balance: 5", None);
    assert_eq!(p.balance, before);
}

#[test]
fn sub_command_options() {
    let cmd = CommandDescriptor {
        name: "shop".to_string(),
        kind: 1,
        options: vec![
            CommandDescriptor { name: "sell".to_string(), kind: 1, options: vec![] },
            CommandDescriptor {
                name: "buy".to_string(),
                kind: 1,
                options: vec![CommandDescriptor { name: "rod".to_string(), kind: 3, options: vec![] }],
            },
        ],
    };
    let (name, parts) = task_command(TaskKind::PeriodicBoost);
    assert_eq!(name, "shop");
    assert_eq!(build_command_options(&cmd, &parts), Some(vec![("buy".to_string(), 1)]));
    let deep = vec!["buy".to_string(), "rod".to_string(), "extra".to_string()];
    assert_eq!(build_command_options(&cmd, &deep), Some(vec![("buy".to_string(), 1), ("rod".to_string(), 3)]));
    assert_eq!(build_command_options(&cmd, &vec!["nothing".to_string()]), None);
    assert_eq!(build_command_options(&cmd, &vec![]), None);
    assert_eq!(task_command(TaskKind::Daily), ("daily".to_string(), vec![]));
}

#[test]
fn captcha_mentions() {
    assert!(mentions_captcha("Please solve this CAPTCHA"));
    assert!(mentions_captcha("captcha required"));
    assert!(!mentions_captcha("You caught a fish"));
}

#[test]
fn captcha_answers() {
    let mut c = Captcha::new();
    c.begin("https://example.invalid/c.png".to_string());
    assert!(c.detected && c.solving);
    assert_eq!(c.record_text(" a B-3 x9\nz "), Some("aB3x9z".to_string()));
    assert!(!c.solving);
    assert_eq!(c.answers, vec!["aB3x9z".to_string()]);
    assert_eq!(c.record_text("abc"), None);
    assert_eq!(c.answers.len(), 1);
    c.reset();
    assert!(!c.detected);
    assert!(c.answers.is_empty());
    assert_eq!(c.image_url, None);
}
