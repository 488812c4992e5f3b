//! The definition tree: a session owns windows, a window owns panes.
//!
//! The tree is plain data. Each node has a view that replaces strings and
//! vectors by sequences; every contract of the crate is stated over those
//! views.

use crate::error::{Defect, Error};
use crate::layout::Layout;
use vstd::prelude::*;

verus! {

/// A terminal sub-region of a window. Without a command it is created and
/// left idle.
#[derive(Clone, Debug, PartialEq, Eq, Default)]
pub struct Pane(pub Option<String>);

/// A tab-like container of panes.
#[derive(Clone, Debug, PartialEq, Eq, Default)]
pub struct Window {
    /// The display label.
    pub name: Option<String>,
    /// How the panes are arranged once all of them exist.
    pub layout: Layout,
    /// The working directory, in place of the session's.
    pub root: Option<String>,
    /// The single startup command of a window without panes.
    pub cmd: Option<String>,
    /// The panes, in the order in which they are created.
    pub panes: Option<Vec<Pane>>,
}

/// A named workspace.
#[derive(Clone, Debug, PartialEq, Eq)]
pub struct Session {
    pub name: String,
    /// The working directory of the session.
    pub root: Option<String>,
    /// The windows, in the order in which they are created.
    pub windows: Vec<Window>,
}

/// What a pane is, as a value.
pub struct PaneView {
    pub command: Option<Seq<char>>,
}

/// What a window is, as a value.
pub struct WindowView {
    pub name: Option<Seq<char>>,
    pub layout: Layout,
    pub root: Option<Seq<char>>,
    pub cmd: Option<Seq<char>>,
    pub panes: Option<Seq<PaneView>>,
}

/// What a session is, as a value.
pub struct SessionView {
    pub name: Seq<char>,
    pub root: Option<Seq<char>>,
    pub windows: Seq<WindowView>,
}

impl View for Pane {
    type V = PaneView;

    open spec fn view(&self) -> PaneView {
        PaneView { command: self.0.deep_view() }
    }
}

/// The views of a run of panes, in order.
pub open spec fn pane_views(panes: Seq<Pane>) -> Seq<PaneView> {
    panes.map_values(|pane: Pane| pane@)
}

impl View for Window {
    type V = WindowView;

    open spec fn view(&self) -> WindowView {
        WindowView {
            name: self.name.deep_view(),
            layout: self.layout,
            root: self.root.deep_view(),
            cmd: self.cmd.deep_view(),
            panes: match self.panes {
                Some(panes) => Some(pane_views(panes@)),
                None => None,
            },
        }
    }
}

/// The views of a run of windows, in order.
pub open spec fn window_views(windows: Seq<Window>) -> Seq<WindowView> {
    windows.map_values(|window: Window| window@)
}

impl View for Session {
    type V = SessionView;

    open spec fn view(&self) -> SessionView {
        SessionView {
            name: self.name@,
            root: self.root.deep_view(),
            windows: window_views(self.windows@),
        }
    }
}

impl WindowView {
    /// A window runs one command or is divided into panes, never both.
    pub open spec fn conflicting(self) -> bool {
        self.cmd is Some && self.panes is Some
    }

    /// How many panes the window declares.
    pub open spec fn pane_count(self) -> nat {
        match self.panes {
            Some(panes) => panes.len(),
            None => 0,
        }
    }
}

impl SessionView {
    /// The first thing wrong with a session, if anything is.
    pub open spec fn defect(self) -> Option<Defect> {
        if self.name.len() == 0 {
            Some(Defect::EmptyName)
        } else if exists|i: int| 0 <= i < self.windows.len() && #[trigger] self.windows[i].conflicting() {
            Some(Defect::CommandAndPanes)
        } else {
            None
        }
    }

    /// A session is well formed when it has a name and none of its windows
    /// declares both a command and panes.
    pub open spec fn well_formed(self) -> bool {
        self.defect() is None
    }
}

/// The layout of a window whose definition carries this text, or none:
/// without a text the default, with a canonical name the layout it names,
/// with any other text nothing.
pub open spec fn declared_layout(text: Option<Seq<char>>) -> Option<Layout> {
    match text {
        Some(text) => Layout::from_name(text),
        None => Some(Layout::initial()),
    }
}

impl Window {
    /// Builds a window from the fields of its definition. The layout is
    /// given by name and defaults when it is absent. A name that is no
    /// layout's is refused first, a command beside panes second.
    pub fn decode(
        name: Option<String>,
        layout: Option<String>,
        root: Option<String>,
        cmd: Option<String>,
        panes: Option<Vec<Pane>>,
    ) -> (decoded: Result<Window, Error>)
        ensures
            match declared_layout(layout.deep_view()) {
                None => decoded == Err::<Window, Error>(
                    Error::MalformedDefinition(Defect::UnknownLayout),
                ),
                Some(arrangement) => if cmd is Some && panes is Some {
                    decoded == Err::<Window, Error>(
                        Error::MalformedDefinition(Defect::CommandAndPanes),
                    )
                } else {
                    &&& decoded is Ok
                    &&& decoded->Ok_0@ == (WindowView {
                        name: name.deep_view(),
                        layout: arrangement,
                        root: root.deep_view(),
                        cmd: cmd.deep_view(),
                        panes: match panes {
                            Some(panes) => Some(pane_views(panes@)),
                            None => None,
                        },
                    })
                },
            },
    {
        let arrangement = match layout {
            Some(text) => match Layout::try_from(text) {
                Ok(arrangement) => arrangement,
                Err(error) => {
                    return Err(error);
                },
            },
            None => Layout::default(),
        };
        if cmd.is_some() && panes.is_some() {
            return Err(Error::MalformedDefinition(Defect::CommandAndPanes));
        }
        Ok(Window { name, layout: arrangement, root, cmd, panes })
    }

    /// Whether the window declares both a command and panes.
    pub fn is_conflicting(&self) -> (conflicting: bool)
        ensures
            conflicting == self@.conflicting(),
    {
        self.cmd.is_some() && self.panes.is_some()
    }
}

impl Session {
    /// Checks the session: it must have a name, and no window of it may
    /// declare both a command and panes.
    pub fn validate(&self) -> (checked: Result<(), Error>)
        ensures
            checked == match self@.defect() {
                Some(defect) => Err::<(), Error>(Error::MalformedDefinition(defect)),
                None => Ok(()),
            },
    {
        if self.name.as_str().is_empty() {
            return Err(Error::MalformedDefinition(Defect::EmptyName));
        }
        let mut i: usize = 0;
        while i < self.windows.len()
            invariant
                i <= self.windows.len(),
                self@.name.len() > 0,
                forall|j: int| 0 <= j < i ==> !(#[trigger] self@.windows[j]).conflicting(),
            decreases self.windows.len() - i,
        {
            assert(self@.windows[i as int] == self.windows[i as int]@);
            if self.windows[i].is_conflicting() {
                return Err(Error::MalformedDefinition(Defect::CommandAndPanes));
            }
            i += 1;
        }
        Ok(())
    }

    /// Builds a session from the fields of its definition. The name is
    /// required; absent windows are no windows. A session with a defect is
    /// refused, so the session that comes back is well formed.
    pub fn decode(name: Option<String>, root: Option<String>, windows: Option<Vec<Window>>) -> (decoded:
        Result<Session, Error>)
        ensures
            match name {
                None => decoded == Err::<Session, Error>(
                    Error::MalformedDefinition(Defect::MissingName),
                ),
                Some(name) => {
                    let session = SessionView {
                        name: name@,
                        root: root.deep_view(),
                        windows: match windows {
                            Some(windows) => window_views(windows@),
                            None => Seq::empty(),
                        },
                    };
                    match session.defect() {
                        Some(defect) => decoded == Err::<Session, Error>(
                            Error::MalformedDefinition(defect),
                        ),
                        None => decoded is Ok && decoded->Ok_0@ == session,
                    }
                },
            },
    {
        let name = match name {
            Some(name) => name,
            None => {
                return Err(Error::MalformedDefinition(Defect::MissingName));
            },
        };
        let windows = match windows {
            Some(windows) => windows,
            None => {
                let none: Vec<Window> = Vec::new();
                assert(window_views(none@) =~= Seq::empty());
                none
            },
        };
        let session = Session { name, root, windows };
        match session.validate() {
            Ok(()) => Ok(session),
            Err(error) => Err(error),
        }
    }
}

} // verus!
