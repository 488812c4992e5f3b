use precession::{Defect, Error, Layout, Pane, Session, Window};

fn text(value: &str) -> Option<String> {
    Some(value.to_string())
}

#[test]
fn window_decodes_with_every_field() {
    let decoded = Window::decode(
        text("run"),
        text("main-vertical"),
        text("/srv"),
        None,
        Some(vec![Pane(text("ls")), Pane(None)]),
    );
    assert_eq!(
        decoded,
        Ok(Window {
            name: text("run"),
            layout: Layout::MainVertical,
            root: text("/srv"),
            cmd: None,
            panes: Some(vec![Pane(text("ls")), Pane(None)]),
        })
    );
}

#[test]
fn absent_layout_defaults() {
    let decoded = Window::decode(None, None, None, text("vim"), None).unwrap();
    assert_eq!(decoded.layout, Layout::EvenHorizontal);
    assert_eq!(decoded.layout, Layout::default());
    assert_eq!(decoded.cmd, text("vim"));
    assert_eq!(decoded.name, None);
    assert_eq!(decoded.root, None);
    assert_eq!(decoded.panes, None);
}

#[test]
fn absent_fields_are_the_default_window() {
    assert_eq!(Window::decode(None, None, None, None, None), Ok(Window::default()));
}

#[test]
fn each_layout_name_decodes_in_a_window() {
    let expected = [
        ("tiled", Layout::Tiled),
        ("even-horizontal", Layout::EvenHorizontal),
        ("even-vertical", Layout::EvenVertical),
        ("main-horizontal", Layout::MainHorizontal),
        ("main-vertical", Layout::MainVertical),
    ];
    for (name, layout) in expected {
        assert_eq!(Window::decode(None, text(name), None, None, None).unwrap().layout, layout);
    }
}

#[test]
fn window_with_unknown_layout_is_malformed() {
    assert_eq!(
        Window::decode(text("w"), text("diagonal"), None, None, None),
        Err(Error::MalformedDefinition(Defect::UnknownLayout))
    );
}

#[test]
fn decoding_refuses_command_beside_panes() {
    assert_eq!(
        Window::decode(text("w"), None, None, text("vim"), Some(vec![Pane(None)])),
        Err(Error::MalformedDefinition(Defect::CommandAndPanes))
    );
}

#[test]
fn unknown_layout_is_reported_before_a_conflict() {
    assert_eq!(
        Window::decode(text("w"), text("diagonal"), None, text("vim"), Some(vec![])),
        Err(Error::MalformedDefinition(Defect::UnknownLayout))
    );
}

#[test]
fn session_decodes_with_every_field() {
    let window = Window::decode(text("w"), None, None, None, None).unwrap();
    let decoded = Session::decode(text("dev"), text("/code"), Some(vec![window.clone()]));
    assert_eq!(
        decoded,
        Ok(Session { name: "dev".to_string(), root: text("/code"), windows: vec![window] })
    );
}

#[test]
fn absent_windows_are_no_windows() {
    let decoded = Session::decode(text("dev"), None, None);
    assert_eq!(decoded, Ok(Session { name: "dev".to_string(), root: None, windows: vec![] }));
}

#[test]
fn session_without_name_is_malformed() {
    assert_eq!(
        Session::decode(None, text("/code"), Some(vec![])),
        Err(Error::MalformedDefinition(Defect::MissingName))
    );
}

#[test]
fn session_with_empty_name_is_malformed() {
    assert_eq!(
        Session::decode(text(""), None, None),
        Err(Error::MalformedDefinition(Defect::EmptyName))
    );
}

#[test]
fn session_with_conflicting_window_is_malformed() {
    let fine = Window::default();
    let both = Window { cmd: text("vim"), panes: Some(vec![]), ..Window::default() };
    assert_eq!(
        Session::decode(text("dev"), None, Some(vec![fine, both])),
        Err(Error::MalformedDefinition(Defect::CommandAndPanes))
    );
}

#[test]
fn conflict_is_a_command_beside_panes() {
    let none = Window::default();
    let command = Window { cmd: text("vim"), ..Window::default() };
    let panes = Window { panes: Some(vec![Pane(None)]), ..Window::default() };
    let both = Window { cmd: text("vim"), panes: Some(vec![Pane(None)]), ..Window::default() };
    assert!(!none.is_conflicting());
    assert!(!command.is_conflicting());
    assert!(!panes.is_conflicting());
    assert!(both.is_conflicting());
}

#[test]
fn errors_describe_themselves() {
    assert_eq!(
        Error::MalformedDefinition(Defect::UnknownLayout).describe(),
        "Malformed definition: Not a valid split direction"
    );
    assert_eq!(
        Error::MalformedDefinition(Defect::MissingName).describe(),
        "Malformed definition: The session has no name"
    );
    assert_eq!(
        Error::MalformedDefinition(Defect::EmptyName).describe(),
        "Malformed definition: The session's name is empty"
    );
    assert_eq!(
        Error::MalformedDefinition(Defect::CommandAndPanes).describe(),
        "Malformed definition: A window declares both a command and panes"
    );
    assert_eq!(Error::DefinitionNotFound.describe(), "The definition could not be read");
    assert_eq!(
        Error::ControlOperationFailed(12).describe(),
        "Control operation failed at position 12"
    );
    assert_eq!(Defect::UnknownLayout.describe(), "Not a valid split direction");
}
