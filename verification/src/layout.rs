//! The closed set of pane arrangements a window can ask for.

use crate::error::{Defect, Error};
use vstd::prelude::*;

verus! {

/// A named tiling algorithm that arranges the panes of a window.
#[derive(Clone, Copy, Debug, PartialEq, Eq, Structural)]
pub enum Layout {
    Tiled,
    EvenHorizontal,
    EvenVertical,
    MainHorizontal,
    MainVertical,
}

impl Layout {
    /// The canonical external name of a layout.
    pub open spec fn name(self) -> Seq<char> {
        match self {
            Layout::Tiled => "tiled"@,
            Layout::EvenHorizontal => "even-horizontal"@,
            Layout::EvenVertical => "even-vertical"@,
            Layout::MainHorizontal => "main-horizontal"@,
            Layout::MainVertical => "main-vertical"@,
        }
    }

    /// The layout that a text names, if it names one.
    pub open spec fn from_name(text: Seq<char>) -> Option<Layout> {
        if text == Layout::Tiled.name() {
            Some(Layout::Tiled)
        } else if text == Layout::EvenHorizontal.name() {
            Some(Layout::EvenHorizontal)
        } else if text == Layout::EvenVertical.name() {
            Some(Layout::EvenVertical)
        } else if text == Layout::MainHorizontal.name() {
            Some(Layout::MainHorizontal)
        } else if text == Layout::MainVertical.name() {
            Some(Layout::MainVertical)
        } else {
            None
        }
    }

    /// The layout of a window that names none: its panes side by side, in
    /// equal widths.
    pub open spec fn initial() -> Layout {
        Layout::EvenHorizontal
    }

    /// Encodes a layout as its canonical name.
    pub fn to_string(&self) -> (text: String)
        ensures
            text@ == self.name(),
    {
        let name: &str = match self {
            Layout::Tiled => "tiled",
            Layout::EvenHorizontal => "even-horizontal",
            Layout::EvenVertical => "even-vertical",
            Layout::MainHorizontal => "main-horizontal",
            Layout::MainVertical => "main-vertical",
        };
        String::from_str(name)
    }

    /// Decodes a canonical name; any other text is a malformed definition.
    pub fn try_from(text: String) -> (decoded: Result<Layout, Error>)
        ensures
            decoded == match Layout::from_name(text@) {
                Some(layout) => Ok::<Layout, Error>(layout),
                None => Err(Error::MalformedDefinition(Defect::UnknownLayout)),
            },
    {
        if text == Layout::Tiled.to_string() {
            Ok(Layout::Tiled)
        } else if text == Layout::EvenHorizontal.to_string() {
            Ok(Layout::EvenHorizontal)
        } else if text == Layout::EvenVertical.to_string() {
            Ok(Layout::EvenVertical)
        } else if text == Layout::MainHorizontal.to_string() {
            Ok(Layout::MainHorizontal)
        } else if text == Layout::MainVertical.to_string() {
            Ok(Layout::MainVertical)
        } else {
            Err(Error::MalformedDefinition(Defect::UnknownLayout))
        }
    }
}

impl Default for Layout {
    fn default() -> (layout: Layout)
        ensures
            layout == Layout::initial(),
    {
        Layout::EvenHorizontal
    }
}

/// No two layouts share a canonical name.
pub proof fn lemma_names_distinct(a: Layout, b: Layout)
    ensures
        a.name() == b.name() <==> a == b,
{
    reveal_strlit("tiled");
    reveal_strlit("even-horizontal");
    reveal_strlit("even-vertical");
    reveal_strlit("main-horizontal");
    reveal_strlit("main-vertical");
    if a != b && a.name() == b.name() {
        assert(a.name().len() == b.name().len());
        assert(a.name()[0] == b.name()[0]);
    }
}

/// Decoding the canonical name of a layout gives that layout back.
pub proof fn lemma_round_trip(layout: Layout)
    ensures
        Layout::from_name(layout.name()) == Some(layout),
{
    lemma_names_distinct(layout, Layout::Tiled);
    lemma_names_distinct(layout, Layout::EvenHorizontal);
    lemma_names_distinct(layout, Layout::EvenVertical);
    lemma_names_distinct(layout, Layout::MainHorizontal);
    lemma_names_distinct(layout, Layout::MainVertical);
}

} // verus!
