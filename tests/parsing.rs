use autofishbot::parser::{parse_catch_embed, parse_cooldown_embed, parse_generic_list, parse_select_menu_options, CooldownEvent};
use autofishbot::types::{Component, Message, SelectOption, User};

#[test]
fn catch_lines_and_xp() {
    let c = parse_catch_embed("You cast your line\n3 <:salmon:123> Salmon\n1 <:gf:9> Golden Fish  \r\n+37,129 XP").unwrap();
    assert_eq!(c.fish, vec![("Salmon".to_string(), 3), ("Golden Fish".to_string(), 1)]);
    assert_eq!(c.xp, 37129);
    assert!(parse_catch_embed("nothing here").is_none());
    assert!(parse_catch_embed("3 Salmon").is_none());
    let only_xp = parse_catch_embed("+5 XP").unwrap();
    assert!(only_xp.fish.is_empty());
    assert_eq!(only_xp.xp, 5);
}

#[test]
fn cooldown_messages() {
    assert_eq!(
        parse_cooldown_embed("You must wait **2.5**s"),
        Some(CooldownEvent { wait_time_ms: 2500, total_cooldown_ms: 0 })
    );
    assert_eq!(
        parse_cooldown_embed("Current cooldown: **3.5** seconds"),
        Some(CooldownEvent { wait_time_ms: 0, total_cooldown_ms: 3500 })
    );
    assert_eq!(parse_cooldown_embed("You must wait **0**s"), None);
    assert_eq!(parse_cooldown_embed("You must wait **1.2.3**s"), None);
}

#[test]
fn listing_lines_become_entities() {
    let es = parse_generic_list("Fish Shop Rods", "Plastic Rod\n\n   \nSteel Rod - $8,000");
    assert_eq!(es.len(), 2);
    assert_eq!(es[0].entity_type, "Rods");
    assert_eq!(es[1].details, "Steel Rod - $8,000");
    let long = "x".repeat(80);
    let es = parse_generic_list("", &long);
    assert_eq!(es[0].entity_type, "Unknown");
    assert_eq!(es[0].name.len(), 50);
}

fn user() -> User {
    User { id: "1".to_string(), username: "u".to_string(), discriminator: "0".to_string(), bot: None }
}

fn comp(kind: u8, components: Option<Vec<Component>>, options: Option<Vec<SelectOption>>) -> Component {
    Component { kind, components, custom_id: Some("menu".to_string()), label: None, style: None, emoji: None, options, placeholder: None }
}

#[test]
fn first_select_menu_is_read() {
    let opt = SelectOption { label: "Ocean".to_string(), value: "ocean".to_string(), description: None, emoji: None, default: None };
    let row = comp(1, Some(vec![comp(2, None, None), comp(3, None, Some(vec![opt]))]), None);
    let msg = Message {
        id: "m".to_string(),
        channel_id: "c".to_string(),
        author: user(),
        content: String::new(),
        timestamp: String::new(),
        embeds: vec![],
        components: Some(vec![row]),
    };
    let (id, opts) = parse_select_menu_options(&msg).unwrap();
    assert_eq!(id, "menu");
    assert_eq!(opts.len(), 1);
    assert_eq!(opts[0].value, "ocean");
    let empty = Message { components: None, ..msg };
    assert!(parse_select_menu_options(&empty).is_none());
}
