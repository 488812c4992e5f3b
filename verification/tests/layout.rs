use precession::{Defect, Error, Layout};

fn all() -> Vec<Layout> {
    vec![
        Layout::Tiled,
        Layout::EvenHorizontal,
        Layout::EvenVertical,
        Layout::MainHorizontal,
        Layout::MainVertical,
    ]
}

#[test]
fn canonical_names() {
    assert_eq!(Layout::Tiled.to_string(), "tiled");
    assert_eq!(Layout::EvenHorizontal.to_string(), "even-horizontal");
    assert_eq!(Layout::EvenVertical.to_string(), "even-vertical");
    assert_eq!(Layout::MainHorizontal.to_string(), "main-horizontal");
    assert_eq!(Layout::MainVertical.to_string(), "main-vertical");
}

#[test]
fn every_layout_survives_a_round_trip() {
    for layout in all() {
        assert_eq!(Layout::try_from(layout.to_string()), Ok(layout));
    }
}

#[test]
fn main_vertical_decodes_to_main_vertical() {
    assert_eq!(Layout::try_from("main-vertical".to_string()), Ok(Layout::MainVertical));
    assert_ne!(Layout::try_from("main-vertical".to_string()), Ok(Layout::MainHorizontal));
}

#[test]
fn main_horizontal_decodes_to_main_horizontal() {
    assert_eq!(Layout::try_from("main-horizontal".to_string()), Ok(Layout::MainHorizontal));
}

#[test]
fn names_are_told_apart() {
    let layouts = all();
    for (i, a) in layouts.iter().enumerate() {
        for (j, b) in layouts.iter().enumerate() {
            assert_eq!(a.to_string() == b.to_string(), i == j);
        }
    }
}

#[test]
fn unknown_layout_is_malformed() {
    assert_eq!(
        Layout::try_from("diagonal".to_string()),
        Err(Error::MalformedDefinition(Defect::UnknownLayout))
    );
}

#[test]
fn near_misses_are_malformed() {
    for text in ["", "Tiled", "tiled ", " tiled", "even_horizontal", "main", "even-vertica", "main-verticall"] {
        assert_eq!(
            Layout::try_from(text.to_string()),
            Err(Error::MalformedDefinition(Defect::UnknownLayout)),
            "{text:?}"
        );
    }
}

#[test]
fn default_layout_is_even_horizontal() {
    assert_eq!(Layout::default(), Layout::EvenHorizontal);
}
