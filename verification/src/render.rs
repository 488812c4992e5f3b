//! The renderer: a walk over the definition tree that yields, in order, the
//! operations which bring a multiplexer to the state the tree describes.
//!
//! The multiplexer cannot create a session without a window, cannot create
//! the n-th window directly, and arranges only the panes that exist when it
//! is asked to. The sequence therefore starts with a session that owns one
//! placeholder window, appends each window and its panes in declaration
//! order, selects a window's layout once its last pane exists, and ends by
//! removing the placeholder, renumbering what is left and attaching.

use crate::definition::{pane_views, Pane, PaneView, Session, SessionView, Window, WindowView};
use crate::error::{Defect, Error};
use crate::operation::{
    copy_text, lemma_views_concat, lemma_views_push, operation_views, Operation, OperationView,
    BASE_INDEX, SENTINEL_WINDOW,
};
use vstd::prelude::*;

verus! {

/// The operations of an optional command: one or none.
pub open spec fn command_ops(command: Option<Seq<char>>) -> Seq<OperationView> {
    match command {
        Some(text) => seq![OperationView::SendKeys { text }],
        None => Seq::empty(),
    }
}

/// What a pane sends once it exists.
pub open spec fn pane_ops(pane: PaneView) -> Seq<OperationView> {
    command_ops(pane.command)
}

/// Everything done for the pane at a position of its window: every pane but
/// the first is split off, and then its command is sent.
pub open spec fn pane_block(position: int, pane: PaneView) -> Seq<OperationView> {
    if position > 0 {
        seq![OperationView::SplitPane] + pane_ops(pane)
    } else {
        pane_ops(pane)
    }
}

/// The blocks of a run of panes, in declaration order.
pub open spec fn panes_ops(panes: Seq<PaneView>) -> Seq<OperationView>
    decreases panes.len(),
{
    if panes.len() == 0 {
        Seq::empty()
    } else {
        panes_ops(panes.drop_last()) + pane_block(panes.len() - 1, panes.last())
    }
}

/// The operations of the panes that a window may declare.
pub open spec fn declared_panes_ops(panes: Option<Seq<PaneView>>) -> Seq<OperationView> {
    match panes {
        Some(panes) => panes_ops(panes),
        None => Seq::empty(),
    }
}

/// The operation that appends a window.
pub open spec fn create_window_op(window: WindowView) -> OperationView {
    OperationView::CreateWindow { name: window.name, root: window.root }
}

/// The operation that arranges the panes of a window.
pub open spec fn select_layout_op(window: WindowView) -> OperationView {
    OperationView::SelectLayout { layout: window.layout }
}

/// Everything done for one window: create it, send its own command, build
/// its panes, and only then select its layout.
pub open spec fn window_ops(window: WindowView) -> Seq<OperationView> {
    seq![create_window_op(window)] + command_ops(window.cmd) + declared_panes_ops(window.panes)
        + seq![select_layout_op(window)]
}

/// The operations of a run of windows, in declaration order.
pub open spec fn windows_ops(windows: Seq<WindowView>) -> Seq<OperationView>
    decreases windows.len(),
{
    if windows.len() == 0 {
        Seq::empty()
    } else {
        windows_ops(windows.drop_last()) + window_ops(windows.last())
    }
}

/// The operation that starts a session together with its placeholder.
pub open spec fn create_session_op(session: SessionView, sentinel: u32) -> OperationView {
    OperationView::CreateSession { name: session.name, initial_window: sentinel, root: session.root }
}

/// The operations that close a render: remove the placeholder, renumber the
/// windows that are left, attach at the first of them.
pub open spec fn finalize_ops(session: SessionView, sentinel: u32) -> Seq<OperationView> {
    seq![
        OperationView::KillWindow { session: session.name, index: sentinel },
        OperationView::RenumberWindows,
        OperationView::Attach { session: session.name, index: BASE_INDEX },
    ]
}

/// The whole sequence for a session.
pub open spec fn session_ops(session: SessionView) -> Seq<OperationView> {
    seq![create_session_op(session, SENTINEL_WINDOW)] + windows_ops(session.windows)
        + finalize_ops(session, SENTINEL_WINDOW)
}

impl Pane {
    /// The operations of this pane once it exists: its command, if it has
    /// one.
    pub fn render(&self) -> (operations: Vec<Operation>)
        ensures
            operation_views(operations@) == pane_ops(self@),
    {
        let mut operations: Vec<Operation> = Vec::new();
        if let Some(command) = &self.0 {
            operations.push(self.run_cmd(command.as_str()));
            assert(operation_views(operations@) =~= pane_ops(self@));
        } else {
            assert(operation_views(operations@) =~= pane_ops(self@));
        }
        operations
    }

    /// The operation that brings a pane into being beside the ones that its
    /// window already has.
    pub fn create(&self) -> (operation: Operation)
        ensures
            operation@ == OperationView::SplitPane,
    {
        Operation::SplitPane
    }

    /// The operation that types a command into the pane.
    pub fn run_cmd(&self, cmd: &str) -> (operation: Operation)
        ensures
            operation@ == (OperationView::SendKeys { text: cmd@ }),
    {
        Operation::SendKeys { text: String::from_str(cmd) }
    }
}

impl Window {
    /// The operations of this window, or the defect that forbids them: a
    /// window that declares both a command and panes is not rendered.
    pub fn render(&self) -> (rendered: Result<Vec<Operation>, Error>)
        ensures
            self@.conflicting() ==> rendered == Err::<Vec<Operation>, Error>(
                Error::MalformedDefinition(Defect::CommandAndPanes),
            ),
            !self@.conflicting() ==> rendered is Ok && operation_views(rendered->Ok_0@)
                == window_ops(self@),
    {
        if self.cmd.is_some() && self.panes.is_some() {
            return Err(Error::MalformedDefinition(Defect::CommandAndPanes));
        }
        let mut operations: Vec<Operation> = Vec::new();
        operations.push(self.create());
        if let Some(command) = &self.cmd {
            operations.push(self.run_cmd(command.as_str()));
        }
        let ghost head = seq![create_window_op(self@)] + command_ops(self@.cmd);
        assert(operation_views(operations@) =~= head);
        if let Some(panes) = &self.panes {
            let mut i: usize = 0;
            while i < panes.len()
                invariant
                    i <= panes.len(),
                    operation_views(operations@) == head + panes_ops(
                        pane_views(panes@).take(i as int),
                    ),
                decreases panes.len() - i,
            {
                let pane = &panes[i];
                let ghost before = operations@;
                let ghost done = pane_views(panes@).take(i as int);
                let ghost next = pane_views(panes@).take(i + 1);
                if i > 0 {
                    operations.push(pane.create());
                }
                let ghost split = operations@;
                let mut block = pane.render();
                let ghost added = block@;
                operations.append(&mut block);
                proof {
                    assert(next.drop_last() =~= done);
                    assert(next.last() == pane@);
                    lemma_views_concat(split, added);
                    if i > 0 {
                        lemma_views_push(before, Operation::SplitPane);
                    }
                    assert(operation_views(operations@) =~= operation_views(before) + pane_block(
                        i as int,
                        pane@,
                    ));
                    assert(operation_views(operations@) =~= head + panes_ops(next));
                }
                i += 1;
            }
            assert(pane_views(panes@).take(i as int) =~= pane_views(panes@));
        }
        let ghost body = operations@;
        operations.push(Operation::SelectLayout { layout: self.layout });
        proof {
            lemma_views_push(body, Operation::SelectLayout { layout: self.layout });
            assert(operation_views(operations@) =~= window_ops(self@));
        }
        Ok(operations)
    }

    /// The operation that appends this window after the last one.
    pub fn create(&self) -> (operation: Operation)
        ensures
            operation@ == create_window_op(self@),
    {
        Operation::CreateWindow { name: copy_text(&self.name), root: copy_text(&self.root) }
    }

    /// The operation that types a command into the window's first pane.
    pub fn run_cmd(&self, cmd: &str) -> (operation: Operation)
        ensures
            operation@ == (OperationView::SendKeys { text: cmd@ }),
    {
        Operation::SendKeys { text: String::from_str(cmd) }
    }
}

impl Session {
    /// The whole sequence for this session, or the defect that forbids it. A
    /// malformed session yields no operation at all.
    pub fn render(&self) -> (rendered: Result<Vec<Operation>, Error>)
        ensures
            match self@.defect() {
                Some(defect) => rendered == Err::<Vec<Operation>, Error>(
                    Error::MalformedDefinition(defect),
                ),
                None => rendered is Ok && operation_views(rendered->Ok_0@) == session_ops(self@),
            },
    {
        if self.name.as_str().is_empty() {
            return Err(Error::MalformedDefinition(Defect::EmptyName));
        }
        let mut operations: Vec<Operation> = Vec::new();
        operations.push(self.create(SENTINEL_WINDOW));
        let ghost head = seq![create_session_op(self@, SENTINEL_WINDOW)];
        assert(operation_views(operations@) =~= head);
        let mut i: usize = 0;
        while i < self.windows.len()
            invariant
                i <= self.windows.len(),
                self@.name.len() > 0,
                forall|j: int| 0 <= j < i ==> !(#[trigger] self@.windows[j]).conflicting(),
                operation_views(operations@) == head + windows_ops(self@.windows.take(i as int)),
            decreases self.windows.len() - i,
        {
            let window = &self.windows[i];
            assert(self@.windows[i as int] == window@);
            let ghost before = operations@;
            let ghost done = self@.windows.take(i as int);
            let ghost next = self@.windows.take(i + 1);
            match window.render() {
                Err(error) => {
                    return Err(error);
                },
                Ok(mut block) => {
                    let ghost added = block@;
                    operations.append(&mut block);
                    proof {
                        assert(next.drop_last() =~= done);
                        assert(next.last() == window@);
                        lemma_views_concat(before, added);
                        assert(operation_views(operations@) =~= head + windows_ops(next));
                    }
                },
            }
            i += 1;
        }
        assert(self@.windows.take(i as int) =~= self@.windows);
        let ghost body = operations@;
        let mut tail = self.finalize(SENTINEL_WINDOW);
        let ghost added = tail@;
        operations.append(&mut tail);
        proof {
            lemma_views_concat(body, added);
        }
        Ok(operations)
    }

    /// The operation that starts the session. The multiplexer knows no
    /// session without a window, so the session is born with a placeholder
    /// window at the sentinel index.
    pub fn create(&self, sentinel: u32) -> (operation: Operation)
        ensures
            operation@ == create_session_op(self@, sentinel),
    {
        Operation::CreateSession {
            name: self.name.clone(),
            initial_window: sentinel,
            root: copy_text(&self.root),
        }
    }

    /// The operations that close the render, once every window exists:
    /// remove the placeholder at the sentinel index, renumber the windows
    /// that are left, and attach at the first of them.
    pub fn finalize(&self, sentinel: u32) -> (operations: Vec<Operation>)
        ensures
            operation_views(operations@) == finalize_ops(self@, sentinel),
    {
        let mut operations: Vec<Operation> = Vec::new();
        operations.push(Operation::KillWindow { session: self.name.clone(), index: sentinel });
        operations.push(Operation::RenumberWindows);
        operations.push(Operation::Attach { session: self.name.clone(), index: BASE_INDEX });
        assert(operation_views(operations@) =~= finalize_ops(self@, sentinel));
        operations
    }
}

} // verus!
