use autofishbot::config::Config;
use autofishbot::dashboard::App;

#[test]
fn tabs_wrap_round() {
    let mut app = App::new(Config::default_config());
    assert_eq!(app.tab_index, 0);
    app.previous_tab();
    assert_eq!(app.tab_index, 3);
    app.next_tab();
    assert_eq!(app.tab_index, 0);
    app.next_tab();
    app.next_tab();
    assert_eq!(app.tab_index, 2);
}

#[test]
fn log_keeps_the_newest_hundred() {
    let mut app = App::new(Config::default_config());
    for i in 0..150 {
        app.add_log(format!("line {}", i));
    }
    assert_eq!(app.logs.len(), 100);
    assert_eq!(app.logs[0], "line 50");
    assert_eq!(app.logs[99], "line 149");
}

#[test]
fn toggling_the_bot() {
    let mut app = App::new(Config::default_config());
    app.toggle_bot();
    assert!(app.is_running);
    assert_eq!(app.status, "Running");
    assert_eq!(app.logs.last().map(String::as_str), Some("Bot Started"));
    app.toggle_bot();
    assert_eq!(app.status, "Stopped");
    assert_eq!(app.logs.last().map(String::as_str), Some("Bot Stopped"));
}
