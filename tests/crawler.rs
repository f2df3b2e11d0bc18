use autofishbot::commands::CommandDescriptor;
use autofishbot::explorer::{
    catalogue, explore_options, has_pagination, next_page_button, Explorer, ExplorerAction, ExplorerState, Record,
};
use autofishbot::types::{Component, Embed, Message, SelectOption, User};

fn message(embeds: Vec<Embed>, components: Option<Vec<Component>>) -> Message {
    Message {
        id: "m1".to_string(),
        channel_id: "c".to_string(),
        author: User { id: "1".to_string(), username: "g".to_string(), discriminator: "0".to_string(), bot: Some(true) },
        content: String::new(),
        timestamp: String::new(),
        embeds,
        components,
    }
}

fn button(label: &str, id: Option<&str>) -> Component {
    Component {
        kind: 2,
        components: None,
        custom_id: id.map(str::to_string),
        label: Some(label.to_string()),
        style: None,
        emoji: None,
        options: None,
        placeholder: None,
    }
}

fn row(cs: Vec<Component>) -> Component {
    Component { kind: 1, components: Some(cs), custom_id: None, label: None, style: None, emoji: None, options: None, placeholder: None }
}

fn cmd(name: &str, kind: u8, options: Vec<CommandDescriptor>) -> CommandDescriptor {
    CommandDescriptor { name: name.to_string(), kind, options }
}

#[test]
fn option_paths_and_auto_selection() {
    let opts = vec![cmd("amount", 4, vec![]), cmd("view", 1, vec![cmd("page", 4, vec![])]), cmd("buy", 1, vec![])];
    assert_eq!(explore_options(&opts, &vec![]), Some(vec![("view".to_string(), 1)]));
    assert_eq!(explore_options(&opts, &vec!["buy".to_string()]), Some(vec![("buy".to_string(), 1)]));
    assert_eq!(explore_options(&opts, &vec!["sell".to_string()]), None);
    assert_eq!(explore_options(&vec![], &vec!["anything".to_string()]), Some(vec![]));
}

#[test]
fn pagination_controls() {
    let msg = message(vec![], Some(vec![row(vec![button("Back", Some("b")), button("Next >", None), button("»>", Some("n"))])]));
    assert!(has_pagination(&msg));
    assert_eq!(next_page_button(&msg), Some("n".to_string()));
    let plain = message(vec![], Some(vec![row(vec![button("Back", Some("b"))])]));
    assert!(!has_pagination(&plain));
    assert_eq!(next_page_button(&plain), None);
}

#[test]
fn response_records() {
    let shop = Embed { title: Some("Fish Shop".to_string()), description: Some("**Cod** - $10".to_string()), fields: None, footer: None };
    let list = Embed { title: Some("Your Fishdex".to_string()), description: Some("Cod\nSquid".to_string()), fields: None, footer: None };
    let empty = Embed { title: Some("Nothing".to_string()), description: None, fields: None, footer: None };
    let recs = catalogue(&message(vec![shop, list, empty], None));
    assert_eq!(recs.len(), 4);
    assert!(matches!(&recs[0], Record::Shop { source, item } if source == "Fish Shop" && item.price_milli == 10_000));
    assert!(matches!(&recs[1], Record::Entity(e) if e.entity_type == "Fishdex" && e.details == "Cod"));
    assert!(matches!(&recs[3], Record::Raw { title, .. } if title == "Nothing"));
}

#[test]
fn crawl_walks_commands_and_menus() {
    let mut ex = Explorer::new();
    assert!(ex.tick(None).is_empty());
    ex.start();
    assert!(matches!(ex.tick(None)[0], ExplorerAction::FetchCommands));
    // Discovery fails: back off 4 s, then 8 s...
    match &ex.on_commands(None)[0] {
        ExplorerAction::Wait { ms } => assert_eq!(*ms, 4000),
        other => panic!("unexpected {:?}", other),
    }
    for _ in 0..3 {
        ex.on_commands(None);
    }
    // ...and after five failures falls back to the known commands.
    assert!(ex.on_commands(None).is_empty());
    assert_eq!(ex.state, ExplorerState::ExecutingCommand);
    assert_eq!(ex.known_commands.len(), 8);

    match &ex.tick(None)[0] {
        ExplorerAction::Execute { command, options } => {
            assert_eq!(*command, 0);
            assert_eq!(options, &vec![("view".to_string(), 1)]);
        }
        other => panic!("unexpected {:?}", other),
    }
    ex.on_executed(true);
    assert_eq!(ex.state, ExplorerState::WaitingForResponse);

    let menu = Component {
        kind: 3,
        components: None,
        custom_id: Some("pick".to_string()),
        label: None,
        style: None,
        emoji: None,
        options: Some(vec![SelectOption { label: "Rods".to_string(), value: "rods".to_string(), description: None, emoji: None, default: None }]),
        placeholder: None,
    };
    let msg = message(vec![], Some(vec![row(vec![menu])]));
    let acts = ex.tick(Some(&msg));
    assert!(matches!(acts[0], ExplorerAction::Wait { ms: 3000 }));
    assert_eq!(ex.state, ExplorerState::NavigatingSubmenu);
    match &ex.tick(None)[0] {
        ExplorerAction::Select { message_id, custom_id, value } => {
            assert_eq!((message_id.as_str(), custom_id.as_str(), value.as_str()), ("m1", "pick", "rods"));
        }
        other => panic!("unexpected {:?}", other),
    }
    ex.on_selected(true);
    assert_eq!(ex.state, ExplorerState::WaitingForSubmenuResponse);
    ex.on_submenu_message(None);
    assert_eq!(ex.current_submenu_index, 1);
    assert!(ex.tick(None).is_empty());
    assert_eq!(ex.current_command_index, 1);
    assert_eq!(ex.state, ExplorerState::ExecutingCommand);
}
