use precession::command::target_text;
use precession::text::decimal_text;
use precession::{Layout, Operation, Pane, Session, Window};

fn words(values: &[&str]) -> Vec<String> {
    values.iter().map(|value| value.to_string()).collect()
}

#[test]
fn decimal_of_small_and_large_numbers() {
    assert_eq!(decimal_text(0), "0");
    assert_eq!(decimal_text(1), "1");
    assert_eq!(decimal_text(9), "9");
    assert_eq!(decimal_text(10), "10");
    assert_eq!(decimal_text(11), "11");
    assert_eq!(decimal_text(99), "99");
    assert_eq!(decimal_text(100), "100");
    assert_eq!(decimal_text(999), "999");
    assert_eq!(decimal_text(1234567890), "1234567890");
    assert_eq!(decimal_text(9876543210), "9876543210");
    assert_eq!(decimal_text(u64::MAX), "18446744073709551615");
}

#[test]
fn decimal_agrees_with_the_standard_library() {
    for value in (0..5000u64).chain([65535, 65536, 4294967295, 4294967296]) {
        assert_eq!(decimal_text(value), value.to_string());
    }
}

#[test]
fn target_is_session_colon_index() {
    assert_eq!(target_text("dev", 999), "dev:999");
    assert_eq!(target_text("dev", 1), "dev:1");
    assert_eq!(target_text("dev", 0), "dev:0");
    assert_eq!(target_text("a b", 4294967295), "a b:4294967295");
    assert_eq!(target_text("", 12), ":12");
}

#[test]
fn create_session_arguments() {
    let bare = Operation::CreateSession { name: "dev".to_string(), initial_window: 999, root: None };
    assert_eq!(bare.arguments(), words(&["new", "-d", "-s", "dev", "-n", "999"]));
    let rooted = Operation::CreateSession {
        name: "dev".to_string(),
        initial_window: 999,
        root: Some("/srv/dev".to_string()),
    };
    assert_eq!(rooted.arguments(), words(&["new", "-d", "-s", "dev", "-n", "999", "-c", "/srv/dev"]));
}

#[test]
fn create_window_arguments() {
    let bare = Operation::CreateWindow { name: None, root: None };
    assert_eq!(bare.arguments(), words(&["new-window"]));
    let named = Operation::CreateWindow { name: Some("edit".to_string()), root: None };
    assert_eq!(named.arguments(), words(&["new-window", "-n", "edit"]));
    let rooted = Operation::CreateWindow { name: None, root: Some("/tmp".to_string()) };
    assert_eq!(rooted.arguments(), words(&["new-window", "-c", "/tmp"]));
    let both = Operation::CreateWindow { name: Some("edit".to_string()), root: Some("/tmp".to_string()) };
    assert_eq!(both.arguments(), words(&["new-window", "-n", "edit", "-c", "/tmp"]));
}

#[test]
fn send_keys_arguments() {
    let operation = Operation::SendKeys { text: "npm start".to_string() };
    assert_eq!(operation.arguments(), words(&["send-keys", "npm start", "Enter"]));
}

#[test]
fn split_pane_arguments() {
    assert_eq!(Operation::SplitPane.arguments(), words(&["split-window"]));
}

#[test]
fn select_layout_arguments() {
    let expected = [
        (Layout::Tiled, "tiled"),
        (Layout::EvenHorizontal, "even-horizontal"),
        (Layout::EvenVertical, "even-vertical"),
        (Layout::MainHorizontal, "main-horizontal"),
        (Layout::MainVertical, "main-vertical"),
    ];
    for (layout, name) in expected {
        let operation = Operation::SelectLayout { layout };
        assert_eq!(operation.arguments(), words(&["select-layout", name]));
    }
}

#[test]
fn kill_window_arguments() {
    let operation = Operation::KillWindow { session: "dev".to_string(), index: 999 };
    assert_eq!(operation.arguments(), words(&["kill-window", "-t", "dev:999"]));
}

#[test]
fn renumber_windows_arguments() {
    assert_eq!(Operation::RenumberWindows.arguments(), words(&["move-window", "-r"]));
}

#[test]
fn attach_arguments() {
    let operation = Operation::Attach { session: "dev".to_string(), index: 1 };
    assert_eq!(operation.arguments(), words(&["attach", "-t", "dev:1"]));
}

#[test]
fn command_lines_of_a_whole_session() {
    let definition = Session {
        name: "dev".to_string(),
        root: Some("/code".to_string()),
        windows: vec![Window {
            name: Some("run".to_string()),
            layout: Layout::MainVertical,
            root: None,
            cmd: None,
            panes: Some(vec![Pane(Some("npm start".to_string())), Pane(None)]),
        }],
    };
    let lines: Vec<Vec<String>> =
        definition.render().unwrap().iter().map(|operation| operation.arguments()).collect();
    let expected = vec![
        words(&["new", "-d", "-s", "dev", "-n", "999", "-c", "/code"]),
        words(&["new-window", "-n", "run"]),
        words(&["send-keys", "npm start", "Enter"]),
        words(&["split-window"]),
        words(&["select-layout", "main-vertical"]),
        words(&["kill-window", "-t", "dev:999"]),
        words(&["move-window", "-r"]),
        words(&["attach", "-t", "dev:1"]),
    ];
    assert_eq!(lines, expected);
}
