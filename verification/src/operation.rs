//! The control operations that a multiplexer is asked to perform.

use crate::layout::Layout;
use vstd::prelude::*;

verus! {

/// The index given to the placeholder window that a session is born with.
/// It lies far outside the range that real windows are numbered in, so the
/// placeholder can be addressed and removed without touching any of them.
pub const SENTINEL_WINDOW: u32 = 999;

/// The index of the first window once the windows have been renumbered.
pub const BASE_INDEX: u32 = 1;

/// One request to the multiplexer. Operations are order dependent: windows
/// and panes are appended after the ones that exist, and keys and layouts go
/// to the window and pane created last.
#[derive(Clone, Debug, PartialEq, Eq)]
#[allow(inconsistent_fields)]
pub enum Operation {
    /// Start a detached session together with its placeholder window.
    CreateSession { name: String, initial_window: u32, root: Option<String> },
    /// Append a window after the last one.
    CreateWindow { name: Option<String>, root: Option<String> },
    /// Type a command, followed by the activation key, into the current pane.
    SendKeys { text: String },
    /// Divide the current window by one more pane.
    SplitPane,
    /// Arrange the panes that the current window has at this moment.
    SelectLayout { layout: Layout },
    /// Remove the window at an index of a session.
    KillWindow { session: String, index: u32 },
    /// Renumber the windows into one run without gaps.
    RenumberWindows,
    /// Attach to a session at the window with an index.
    Attach { session: String, index: u32 },
}

/// What an operation is, as a value.
#[allow(inconsistent_fields)]
pub enum OperationView {
    CreateSession { name: Seq<char>, initial_window: u32, root: Option<Seq<char>> },
    CreateWindow { name: Option<Seq<char>>, root: Option<Seq<char>> },
    SendKeys { text: Seq<char> },
    SplitPane,
    SelectLayout { layout: Layout },
    KillWindow { session: Seq<char>, index: u32 },
    RenumberWindows,
    Attach { session: Seq<char>, index: u32 },
}

/// Which of the eight requests an operation is, whatever it carries.
pub enum Kind {
    CreateSession,
    CreateWindow,
    SendKeys,
    SplitPane,
    SelectLayout,
    KillWindow,
    RenumberWindows,
    Attach,
}

impl OperationView {
    pub open spec fn kind(self) -> Kind {
        match self {
            OperationView::CreateSession { .. } => Kind::CreateSession,
            OperationView::CreateWindow { .. } => Kind::CreateWindow,
            OperationView::SendKeys { .. } => Kind::SendKeys,
            OperationView::SplitPane => Kind::SplitPane,
            OperationView::SelectLayout { .. } => Kind::SelectLayout,
            OperationView::KillWindow { .. } => Kind::KillWindow,
            OperationView::RenumberWindows => Kind::RenumberWindows,
            OperationView::Attach { .. } => Kind::Attach,
        }
    }
}

impl View for Operation {
    type V = OperationView;

    open spec fn view(&self) -> OperationView {
        match *self {
            Operation::CreateSession { name, initial_window, root } => OperationView::CreateSession {
                name: name@,
                initial_window,
                root: root.deep_view(),
            },
            Operation::CreateWindow { name, root } => OperationView::CreateWindow {
                name: name.deep_view(),
                root: root.deep_view(),
            },
            Operation::SendKeys { text } => OperationView::SendKeys { text: text@ },
            Operation::SplitPane => OperationView::SplitPane,
            Operation::SelectLayout { layout } => OperationView::SelectLayout { layout },
            Operation::KillWindow { session, index } => OperationView::KillWindow {
                session: session@,
                index,
            },
            Operation::RenumberWindows => OperationView::RenumberWindows,
            Operation::Attach { session, index } => OperationView::Attach { session: session@, index },
        }
    }
}

/// The views of a run of operations, in order.
pub open spec fn operation_views(operations: Seq<Operation>) -> Seq<OperationView> {
    operations.map_values(|operation: Operation| operation@)
}

/// Viewing commutes with appending one operation.
pub proof fn lemma_views_push(operations: Seq<Operation>, operation: Operation)
    ensures
        operation_views(operations.push(operation)) == operation_views(operations).push(operation@),
{
    assert(operation_views(operations.push(operation)) =~= operation_views(operations).push(
        operation@,
    ));
}

/// Viewing commutes with concatenation.
pub proof fn lemma_views_concat(first: Seq<Operation>, second: Seq<Operation>)
    ensures
        operation_views(first + second) == operation_views(first) + operation_views(second),
{
    assert(operation_views(first + second) =~= operation_views(first) + operation_views(second));
}

/// A copy of an optional text.
pub(crate) fn copy_text(text: &Option<String>) -> (copy: Option<String>)
    ensures
        copy.deep_view() == text.deep_view(),
{
    match text {
        Some(text) => Some(text.clone()),
        None => None,
    }
}

} // verus!
