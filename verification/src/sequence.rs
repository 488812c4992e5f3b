//! What holds of every rendered sequence: how many operations of each kind
//! it has, in which order they stand, and where the block of each window and
//! of each pane lies.

use crate::definition::{PaneView, SessionView, WindowView};
use crate::operation::{Kind, OperationView, BASE_INDEX, SENTINEL_WINDOW};
use crate::render::{
    command_ops, create_session_op, create_window_op, declared_panes_ops, finalize_ops, pane_block,
    pane_ops, panes_ops, select_layout_op, session_ops, window_ops, windows_ops,
};
use vstd::prelude::*;

verus! {

/// The operations of one kind, in the order in which they stand.
pub open spec fn of_kind(operations: Seq<OperationView>, kind: Kind) -> Seq<OperationView> {
    operations.filter(|operation: OperationView| operation.kind() == kind)
}

/// Selecting a kind commutes with concatenation.
pub proof fn lemma_of_kind_concat(first: Seq<OperationView>, second: Seq<OperationView>, kind: Kind)
    ensures
        of_kind(first + second, kind) == of_kind(first, kind) + of_kind(second, kind),
{
    Seq::filter_distributes_over_add(
        first,
        second,
        |operation: OperationView| operation.kind() == kind,
    );
}

/// Selecting from no operations gives none.
pub proof fn lemma_of_kind_none(kind: Kind)
    ensures
        of_kind(Seq::empty(), kind) == Seq::<OperationView>::empty(),
{
    reveal(Seq::filter);
}

/// Selecting from one operation gives it or nothing.
pub proof fn lemma_of_kind_one(operation: OperationView, kind: Kind)
    ensures
        of_kind(seq![operation], kind) == if operation.kind() == kind {
            seq![operation]
        } else {
            Seq::empty()
        },
{
    reveal_with_fuel(Seq::filter, 2);
    let one = seq![operation];
    assert(one.drop_last() =~= Seq::empty());
    assert(one.last() == operation);
    assert(Seq::<OperationView>::empty().push(operation) =~= one);
}

/// How many times the window is split: once for every pane but the first.
pub open spec fn splits(window: WindowView) -> nat {
    if window.pane_count() > 0 {
        (window.pane_count() - 1) as nat
    } else {
        0
    }
}

/// How many times the windows of a run are split, all together.
pub open spec fn total_splits(windows: Seq<WindowView>) -> nat
    decreases windows.len(),
{
    if windows.len() == 0 {
        0
    } else {
        total_splits(windows.drop_last()) + splits(windows.last())
    }
}

/// The commands of a run of panes, in declaration order.
pub open spec fn pane_commands(panes: Seq<PaneView>) -> Seq<OperationView>
    decreases panes.len(),
{
    if panes.len() == 0 {
        Seq::empty()
    } else {
        pane_commands(panes.drop_last()) + pane_ops(panes.last())
    }
}

/// The creation of each window of a run, in declaration order.
pub open spec fn window_creations(windows: Seq<WindowView>) -> Seq<OperationView> {
    windows.map_values(|window: WindowView| create_window_op(window))
}

/// The layout selection of each window of a run, in declaration order.
pub open spec fn layout_selections(windows: Seq<WindowView>) -> Seq<OperationView> {
    windows.map_values(|window: WindowView| select_layout_op(window))
}

/// An operation that belongs to the inside of a window: between the
/// window's creation and the selection of its layout.
pub open spec fn inside_window(operation: OperationView) -> bool {
    operation is SendKeys || operation is SplitPane
}

/// An operation that belongs to some window.
pub open spec fn window_work(operation: OperationView) -> bool {
    operation is CreateWindow || operation is SelectLayout || inside_window(operation)
}

/// An optional command yields nothing but the sending of keys.
pub proof fn lemma_command_kinds(command: Option<Seq<char>>, kind: Kind)
    ensures
        of_kind(command_ops(command), kind) == if kind == Kind::SendKeys {
            command_ops(command)
        } else {
            Seq::empty()
        },
{
    match command {
        Some(text) => lemma_of_kind_one(OperationView::SendKeys { text }, kind),
        None => lemma_of_kind_none(kind),
    }
}

/// The block of a pane holds one split unless the pane is the first, then
/// what the pane sends, and nothing else.
pub proof fn lemma_pane_block_kinds(position: int, pane: PaneView, kind: Kind)
    ensures
        kind == Kind::SplitPane ==> of_kind(pane_block(position, pane), kind).len() == if position
            > 0 {
            1nat
        } else {
            0nat
        },
        kind == Kind::SendKeys ==> of_kind(pane_block(position, pane), kind) == pane_ops(pane),
        kind != Kind::SplitPane && kind != Kind::SendKeys ==> of_kind(
            pane_block(position, pane),
            kind,
        ) == Seq::<OperationView>::empty(),
{
    lemma_command_kinds(pane.command, kind);
    if position > 0 {
        lemma_of_kind_one(OperationView::SplitPane, kind);
        lemma_of_kind_concat(seq![OperationView::SplitPane], pane_ops(pane), kind);
    }
}

/// The panes of a window are split off once for each pane but the first,
/// their commands are sent in declaration order, and nothing else is done
/// for them.
pub proof fn lemma_panes_kinds(panes: Seq<PaneView>, kind: Kind)
    ensures
        kind == Kind::SplitPane ==> of_kind(panes_ops(panes), kind).len() == if panes.len() > 0 {
            (panes.len() - 1) as nat
        } else {
            0nat
        },
        kind == Kind::SendKeys ==> of_kind(panes_ops(panes), kind) == pane_commands(panes),
        kind != Kind::SplitPane && kind != Kind::SendKeys ==> of_kind(panes_ops(panes), kind)
            == Seq::<OperationView>::empty(),
    decreases panes.len(),
{
    if panes.len() == 0 {
        lemma_of_kind_none(kind);
    } else {
        lemma_panes_kinds(panes.drop_last(), kind);
        lemma_pane_block_kinds(panes.len() - 1, panes.last(), kind);
        lemma_of_kind_concat(
            panes_ops(panes.drop_last()),
            pane_block(panes.len() - 1, panes.last()),
            kind,
        );
    }
}

/// What the sequence of one window holds of each kind: one creation, one
/// layout selection, one split for each pane but the first, the commands in
/// declaration order, and nothing else.
pub proof fn lemma_window_kinds(window: WindowView, kind: Kind)
    ensures
        kind == Kind::CreateWindow ==> of_kind(window_ops(window), kind) == seq![
            create_window_op(window),
        ],
        kind == Kind::SelectLayout ==> of_kind(window_ops(window), kind) == seq![
            select_layout_op(window),
        ],
        kind == Kind::SplitPane ==> of_kind(window_ops(window), kind).len() == splits(window),
        kind == Kind::SendKeys ==> of_kind(window_ops(window), kind) == command_ops(window.cmd) + (
        match window.panes {
            Some(panes) => pane_commands(panes),
            None => Seq::empty(),
        }),
        kind != Kind::CreateWindow && kind != Kind::SelectLayout && kind != Kind::SplitPane && kind
            != Kind::SendKeys ==> of_kind(window_ops(window), kind) == Seq::<OperationView>::empty(),
{
    let create = seq![create_window_op(window)];
    let command = command_ops(window.cmd);
    let panes = declared_panes_ops(window.panes);
    let select = seq![select_layout_op(window)];
    lemma_of_kind_one(create_window_op(window), kind);
    lemma_command_kinds(window.cmd, kind);
    match window.panes {
        Some(declared) => lemma_panes_kinds(declared, kind),
        None => lemma_of_kind_none(kind),
    }
    lemma_of_kind_one(select_layout_op(window), kind);
    lemma_of_kind_concat(create, command, kind);
    lemma_of_kind_concat(create + command, panes, kind);
    lemma_of_kind_concat(create + command + panes, select, kind);
    assert(of_kind(window_ops(window), kind) =~= of_kind(create, kind) + of_kind(command, kind)
        + of_kind(panes, kind) + of_kind(select, kind));
}

/// Dropping the last window drops the last creation.
proof fn lemma_creations_step(windows: Seq<WindowView>)
    requires
        windows.len() > 0,
    ensures
        window_creations(windows) == window_creations(windows.drop_last()) + seq![
            create_window_op(windows.last()),
        ],
{
    assert(window_creations(windows) =~= window_creations(windows.drop_last()) + seq![
        create_window_op(windows.last()),
    ]);
}

/// Dropping the last window drops the last layout selection.
proof fn lemma_selections_step(windows: Seq<WindowView>)
    requires
        windows.len() > 0,
    ensures
        layout_selections(windows) == layout_selections(windows.drop_last()) + seq![
            select_layout_op(windows.last()),
        ],
{
    assert(layout_selections(windows) =~= layout_selections(windows.drop_last()) + seq![
        select_layout_op(windows.last()),
    ]);
}

/// The windows of a run are created once each, in declaration order.
pub proof fn lemma_windows_creations(windows: Seq<WindowView>)
    ensures
        of_kind(windows_ops(windows), Kind::CreateWindow) == window_creations(windows),
    decreases windows.len(),
{
    if windows.len() == 0 {
        lemma_of_kind_none(Kind::CreateWindow);
        assert(window_creations(windows) =~= Seq::empty());
    } else {
        let front = windows.drop_last();
        lemma_windows_creations(front);
        lemma_window_kinds(windows.last(), Kind::CreateWindow);
        lemma_of_kind_concat(windows_ops(front), window_ops(windows.last()), Kind::CreateWindow);
        lemma_creations_step(windows);
    }
}

/// The layouts of a run of windows are selected once each, in declaration
/// order.
pub proof fn lemma_windows_selections(windows: Seq<WindowView>)
    ensures
        of_kind(windows_ops(windows), Kind::SelectLayout) == layout_selections(windows),
    decreases windows.len(),
{
    if windows.len() == 0 {
        lemma_of_kind_none(Kind::SelectLayout);
        assert(layout_selections(windows) =~= Seq::empty());
    } else {
        let front = windows.drop_last();
        lemma_windows_selections(front);
        lemma_window_kinds(windows.last(), Kind::SelectLayout);
        lemma_of_kind_concat(windows_ops(front), window_ops(windows.last()), Kind::SelectLayout);
        lemma_selections_step(windows);
    }
}

/// A run of windows is split once for every pane that is not the first of
/// its window.
pub proof fn lemma_windows_splits(windows: Seq<WindowView>)
    ensures
        of_kind(windows_ops(windows), Kind::SplitPane).len() == total_splits(windows),
    decreases windows.len(),
{
    if windows.len() == 0 {
        lemma_of_kind_none(Kind::SplitPane);
    } else {
        let front = windows.drop_last();
        lemma_windows_splits(front);
        lemma_window_kinds(windows.last(), Kind::SplitPane);
        lemma_of_kind_concat(windows_ops(front), window_ops(windows.last()), Kind::SplitPane);
    }
}

/// A run of windows touches neither the session nor the placeholder.
pub proof fn lemma_windows_others(windows: Seq<WindowView>, kind: Kind)
    requires
        kind != Kind::CreateWindow,
        kind != Kind::SelectLayout,
        kind != Kind::SplitPane,
        kind != Kind::SendKeys,
    ensures
        of_kind(windows_ops(windows), kind) == Seq::<OperationView>::empty(),
    decreases windows.len(),
{
    if windows.len() == 0 {
        lemma_of_kind_none(kind);
    } else {
        let front = windows.drop_last();
        lemma_windows_others(front, kind);
        lemma_window_kinds(windows.last(), kind);
        lemma_of_kind_concat(windows_ops(front), window_ops(windows.last()), kind);
    }
}

/// Selecting a kind from three operations selects it from each in turn.
proof fn lemma_of_kind_three(
    first: OperationView,
    second: OperationView,
    third: OperationView,
    kind: Kind,
)
    ensures
        of_kind(seq![first, second, third], kind) == of_kind(seq![first], kind) + of_kind(
            seq![second],
            kind,
        ) + of_kind(seq![third], kind),
{
    assert(seq![first, second, third] =~= seq![first] + seq![second] + seq![third]);
    lemma_of_kind_concat(seq![first], seq![second], kind);
    lemma_of_kind_concat(seq![first] + seq![second], seq![third], kind);
}

/// The closing operations hold one removal, one renumbering and one
/// attachment, and nothing else.
pub proof fn lemma_finalize_kinds(session: SessionView, sentinel: u32, kind: Kind)
    ensures
        of_kind(finalize_ops(session, sentinel), kind) == if kind == Kind::KillWindow {
            seq![OperationView::KillWindow { session: session.name, index: sentinel }]
        } else if kind == Kind::RenumberWindows {
            seq![OperationView::RenumberWindows]
        } else if kind == Kind::Attach {
            seq![OperationView::Attach { session: session.name, index: BASE_INDEX }]
        } else {
            Seq::empty()
        },
{
    let kill = OperationView::KillWindow { session: session.name, index: sentinel };
    let renumber = OperationView::RenumberWindows;
    let attach = OperationView::Attach { session: session.name, index: BASE_INDEX };
    let none = Seq::<OperationView>::empty();
    lemma_of_kind_three(kill, renumber, attach, kind);
    lemma_of_kind_one(kill, kind);
    lemma_of_kind_one(renumber, kind);
    lemma_of_kind_one(attach, kind);
    assert(seq![kill] + none + none =~= seq![kill]);
    assert(none + seq![renumber] + none =~= seq![renumber]);
    assert(none + none + seq![attach] =~= seq![attach]);
    assert(none + none + none =~= none);
}

/// Selecting a kind from the sequence of a session selects it from the
/// opening, from the windows and from the closing.
proof fn lemma_session_parts(session: SessionView, kind: Kind)
    ensures
        of_kind(session_ops(session), kind) == of_kind(
            seq![create_session_op(session, SENTINEL_WINDOW)],
            kind,
        ) + of_kind(windows_ops(session.windows), kind) + of_kind(
            finalize_ops(session, SENTINEL_WINDOW),
            kind,
        ),
{
    let opening = seq![create_session_op(session, SENTINEL_WINDOW)];
    let windows = windows_ops(session.windows);
    let closing = finalize_ops(session, SENTINEL_WINDOW);
    lemma_of_kind_concat(opening, windows, kind);
    lemma_of_kind_concat(opening + windows, closing, kind);
}

/// The sequence of a session creates each window exactly once, and in the
/// order in which the windows are declared.
pub proof fn lemma_windows_created_in_order(session: SessionView)
    ensures
        of_kind(session_ops(session), Kind::CreateWindow) == window_creations(session.windows),
        of_kind(session_ops(session), Kind::CreateWindow).len() == session.windows.len(),
{
    lemma_session_parts(session, Kind::CreateWindow);
    lemma_of_kind_one(create_session_op(session, SENTINEL_WINDOW), Kind::CreateWindow);
    lemma_windows_creations(session.windows);
    lemma_finalize_kinds(session, SENTINEL_WINDOW, Kind::CreateWindow);
    assert(of_kind(session_ops(session), Kind::CreateWindow) =~= window_creations(
        session.windows,
    ));
}

/// The sequence of a session selects the layout of each window exactly
/// once, and in the order in which the windows are declared.
pub proof fn lemma_layouts_selected_in_order(session: SessionView)
    ensures
        of_kind(session_ops(session), Kind::SelectLayout) == layout_selections(session.windows),
        of_kind(session_ops(session), Kind::SelectLayout).len() == session.windows.len(),
{
    lemma_session_parts(session, Kind::SelectLayout);
    lemma_of_kind_one(create_session_op(session, SENTINEL_WINDOW), Kind::SelectLayout);
    lemma_windows_selections(session.windows);
    lemma_finalize_kinds(session, SENTINEL_WINDOW, Kind::SelectLayout);
    assert(of_kind(session_ops(session), Kind::SelectLayout) =~= layout_selections(
        session.windows,
    ));
}

/// The sequence of a session splits once for every pane that is not the
/// first of its window, and never otherwise.
pub proof fn lemma_split_count(session: SessionView)
    ensures
        of_kind(session_ops(session), Kind::SplitPane).len() == total_splits(session.windows),
{
    lemma_session_parts(session, Kind::SplitPane);
    lemma_of_kind_one(create_session_op(session, SENTINEL_WINDOW), Kind::SplitPane);
    lemma_windows_splits(session.windows);
    lemma_finalize_kinds(session, SENTINEL_WINDOW, Kind::SplitPane);
}

/// The sequence of a session creates the session once, removes the
/// placeholder once, renumbers once and attaches once.
pub proof fn lemma_session_handled_once(session: SessionView)
    ensures
        of_kind(session_ops(session), Kind::CreateSession) == seq![
            create_session_op(session, SENTINEL_WINDOW),
        ],
        of_kind(session_ops(session), Kind::KillWindow) == seq![
            OperationView::KillWindow { session: session.name, index: SENTINEL_WINDOW },
        ],
        of_kind(session_ops(session), Kind::RenumberWindows) == seq![
            OperationView::RenumberWindows,
        ],
        of_kind(session_ops(session), Kind::Attach) == seq![
            OperationView::Attach { session: session.name, index: BASE_INDEX },
        ],
{
    let create = create_session_op(session, SENTINEL_WINDOW);
    assert(of_kind(session_ops(session), Kind::CreateSession) == seq![create]) by {
        lemma_outside_windows(session, Kind::CreateSession);
        lemma_of_kind_one(create, Kind::CreateSession);
        lemma_finalize_kinds(session, SENTINEL_WINDOW, Kind::CreateSession);
        assert(seq![create] + Seq::<OperationView>::empty() =~= seq![create]);
    }
    assert(of_kind(session_ops(session), Kind::KillWindow) == seq![
        OperationView::KillWindow { session: session.name, index: SENTINEL_WINDOW },
    ]) by {
        lemma_outside_windows(session, Kind::KillWindow);
        lemma_of_kind_one(create, Kind::KillWindow);
        lemma_finalize_kinds(session, SENTINEL_WINDOW, Kind::KillWindow);
        let closing = of_kind(finalize_ops(session, SENTINEL_WINDOW), Kind::KillWindow);
        assert(Seq::<OperationView>::empty() + closing =~= closing);
    }
    assert(of_kind(session_ops(session), Kind::RenumberWindows) == seq![
        OperationView::RenumberWindows,
    ]) by {
        lemma_outside_windows(session, Kind::RenumberWindows);
        lemma_of_kind_one(create, Kind::RenumberWindows);
        lemma_finalize_kinds(session, SENTINEL_WINDOW, Kind::RenumberWindows);
        let closing = of_kind(finalize_ops(session, SENTINEL_WINDOW), Kind::RenumberWindows);
        assert(Seq::<OperationView>::empty() + closing =~= closing);
    }
    assert(of_kind(session_ops(session), Kind::Attach) == seq![
        OperationView::Attach { session: session.name, index: BASE_INDEX },
    ]) by {
        lemma_outside_windows(session, Kind::Attach);
        lemma_of_kind_one(create, Kind::Attach);
        lemma_finalize_kinds(session, SENTINEL_WINDOW, Kind::Attach);
        let closing = of_kind(finalize_ops(session, SENTINEL_WINDOW), Kind::Attach);
        assert(Seq::<OperationView>::empty() + closing =~= closing);
    }
}

/// What is neither the work of a window nor inside one comes from the
/// opening and the closing of the sequence alone.
proof fn lemma_outside_windows(session: SessionView, kind: Kind)
    requires
        kind != Kind::CreateWindow,
        kind != Kind::SelectLayout,
        kind != Kind::SplitPane,
        kind != Kind::SendKeys,
    ensures
        of_kind(session_ops(session), kind) == of_kind(
            seq![create_session_op(session, SENTINEL_WINDOW)],
            kind,
        ) + of_kind(finalize_ops(session, SENTINEL_WINDOW), kind),
{
    let opening = of_kind(seq![create_session_op(session, SENTINEL_WINDOW)], kind);
    let closing = of_kind(finalize_ops(session, SENTINEL_WINDOW), kind);
    lemma_session_parts(session, kind);
    lemma_windows_others(session.windows, kind);
    assert(opening + Seq::<OperationView>::empty() + closing =~= opening + closing);
}

/// Where the block of the pane at a position begins among the operations
/// of its window's panes.
pub open spec fn pane_offset(panes: Seq<PaneView>, position: int) -> int {
    panes_ops(panes.take(position)).len() as int
}

/// Where the block of the window at a position begins in the sequence of
/// its session.
pub open spec fn window_offset(session: SessionView, position: int) -> int {
    1 + windows_ops(session.windows.take(position)).len() as int
}

/// The operations of the first panes of a run stand unchanged at the front
/// of the operations of the whole run.
pub proof fn lemma_panes_prefix(panes: Seq<PaneView>, count: int)
    requires
        0 <= count <= panes.len(),
    ensures
        pane_offset(panes, count) <= panes_ops(panes).len(),
        panes_ops(panes).subrange(0, pane_offset(panes, count)) == panes_ops(panes.take(count)),
    decreases panes.len(),
{
    if count == panes.len() {
        assert(panes.take(count) =~= panes);
        assert(panes_ops(panes).subrange(0, panes_ops(panes).len() as int) =~= panes_ops(panes));
    } else {
        let front = panes.drop_last();
        lemma_panes_prefix(front, count);
        assert(front.take(count) =~= panes.take(count));
        assert(panes_ops(panes).subrange(0, pane_offset(panes, count)) =~= panes_ops(
            front,
        ).subrange(0, pane_offset(panes, count)));
    }
}

/// The panes of a window have their blocks one after the other, in
/// declaration order: the block of a pane begins where the block of the
/// pane before it ends, and holds the pane's split, if it has one, before
/// the pane's command.
pub proof fn lemma_pane_block(panes: Seq<PaneView>, position: int)
    requires
        0 <= position < panes.len(),
    ensures
        pane_offset(panes, position + 1) == pane_offset(panes, position) + pane_block(
            position,
            panes[position],
        ).len(),
        pane_offset(panes, position + 1) <= panes_ops(panes).len(),
        panes_ops(panes).subrange(
            pane_offset(panes, position),
            pane_offset(panes, position + 1),
        ) == pane_block(position, panes[position]),
{
    let upto = panes.take(position + 1);
    assert(upto.drop_last() =~= panes.take(position));
    assert(upto.last() == panes[position]);
    lemma_panes_prefix(panes, position + 1);
    assert(panes_ops(panes).subrange(
        pane_offset(panes, position),
        pane_offset(panes, position + 1),
    ) =~= panes_ops(upto).subrange(pane_offset(panes, position), pane_offset(panes, position + 1)));
    assert(panes_ops(upto).subrange(pane_offset(panes, position), pane_offset(panes, position + 1))
        =~= pane_block(position, panes[position]));
}

/// All that is done for the panes of a window is to split and to send keys.
pub proof fn lemma_panes_inside(panes: Seq<PaneView>)
    ensures
        forall|k: int|
            0 <= k < panes_ops(panes).len() ==> inside_window(#[trigger] panes_ops(panes)[k]),
    decreases panes.len(),
{
    if panes.len() > 0 {
        let front = panes_ops(panes.drop_last());
        let block = pane_block(panes.len() - 1, panes.last());
        lemma_panes_inside(panes.drop_last());
        assert forall|k: int| 0 <= k < panes_ops(panes).len() implies inside_window(
            #[trigger] panes_ops(panes)[k],
        ) by {
            if k < front.len() {
                assert(panes_ops(panes)[k] == front[k]);
            } else {
                assert(panes_ops(panes)[k] == block[k - front.len()]);
            }
        }
    }
}

/// The sequence of a window begins with the window's creation and ends with
/// the selection of its layout; all that stands between them splits the
/// window or sends keys.
pub proof fn lemma_window_shape(window: WindowView)
    ensures
        window_ops(window).len() >= 2,
        window_ops(window).first() == create_window_op(window),
        window_ops(window).last() == select_layout_op(window),
        forall|k: int|
            0 < k < window_ops(window).len() - 1 ==> inside_window(
                #[trigger] window_ops(window)[k],
            ),
{
    match window.panes {
        Some(panes) => lemma_panes_inside(panes),
        None => {},
    }
}

/// Inside the sequence of a window, the block of the pane at a position
/// stands after the window's creation and own command, and before the
/// selection of the layout.
pub proof fn lemma_pane_block_in_window(window: WindowView, position: int)
    requires
        window.panes is Some,
        0 <= position < window.panes->0.len(),
    ensures
        ({
            let panes = window.panes->0;
            let base = 1 + command_ops(window.cmd).len();
            &&& base + pane_offset(panes, position + 1) < window_ops(window).len()
            &&& window_ops(window).subrange(
                base + pane_offset(panes, position),
                base + pane_offset(panes, position + 1),
            ) == pane_block(position, panes[position])
        }),
{
    let panes = window.panes->0;
    let base = 1 + command_ops(window.cmd).len();
    lemma_pane_block(panes, position);
    assert(window_ops(window).subrange(
        base + pane_offset(panes, position),
        base + pane_offset(panes, position + 1),
    ) =~= panes_ops(panes).subrange(
        pane_offset(panes, position),
        pane_offset(panes, position + 1),
    ));
}

/// Rendering one run of windows after another is rendering the two runs
/// joined.
pub proof fn lemma_windows_ops_concat(first: Seq<WindowView>, second: Seq<WindowView>)
    ensures
        windows_ops(first + second) == windows_ops(first) + windows_ops(second),
    decreases second.len(),
{
    if second.len() == 0 {
        assert(first + second =~= first);
        assert(windows_ops(first) + windows_ops(second) =~= windows_ops(first));
    } else {
        lemma_windows_ops_concat(first, second.drop_last());
        assert((first + second).drop_last() =~= first + second.drop_last());
        assert((first + second).last() == second.last());
        assert(windows_ops(first + second) =~= windows_ops(first) + windows_ops(second));
    }
}

/// The sequence of a session is its opening, the blocks of its windows, and
/// three closing operations.
pub proof fn lemma_session_span(session: SessionView)
    ensures
        window_offset(session, 0) == 1,
        window_offset(session, session.windows.len() as int) + 3 == session_ops(session).len(),
{
    assert(session.windows.take(0) =~= Seq::empty());
    assert(session.windows.take(session.windows.len() as int) =~= session.windows);
}

/// The windows of a session have their blocks one after the other, in
/// declaration order, after the opening and before the closing: the block
/// of a window begins where the block of the window before it ends, and is
/// the sequence of that window.
pub proof fn lemma_window_block(session: SessionView, position: int)
    requires
        0 <= position < session.windows.len(),
    ensures
        1 <= window_offset(session, position),
        window_offset(session, position + 1) == window_offset(session, position) + window_ops(
            session.windows[position],
        ).len(),
        window_offset(session, position + 1) + 3 <= session_ops(session).len(),
        session_ops(session).subrange(
            window_offset(session, position),
            window_offset(session, position + 1),
        ) == window_ops(session.windows[position]),
{
    let windows = session.windows;
    let upto = windows.take(position + 1);
    let rest = windows.skip(position + 1);
    assert(upto.drop_last() =~= windows.take(position));
    assert(upto.last() == windows[position]);
    assert(upto + rest =~= windows);
    lemma_windows_ops_concat(upto, rest);
    assert(session_ops(session).subrange(
        window_offset(session, position),
        window_offset(session, position + 1),
    ) =~= window_ops(windows[position]));
}

/// Every operation of a run of windows lies in the block of one of them.
proof fn lemma_enclosing_block(windows: Seq<WindowView>, k: int) -> (position: int)
    requires
        0 <= k < windows_ops(windows).len(),
    ensures
        0 <= position < windows.len(),
        windows_ops(windows.take(position)).len() <= k < windows_ops(
            windows.take(position + 1),
        ).len(),
    decreases windows.len(),
{
    let front = windows.drop_last();
    if k < windows_ops(front).len() {
        let position = lemma_enclosing_block(front, k);
        assert(front.take(position) =~= windows.take(position));
        assert(front.take(position + 1) =~= windows.take(position + 1));
        position
    } else {
        let position = windows.len() - 1;
        assert(windows.take(position) =~= front);
        assert(windows.take(position + 1) =~= windows);
        position
    }
}

/// Every operation between the opening and the closing of the sequence of
/// a session lies in the block of one of its windows.
pub proof fn lemma_enclosing_window(session: SessionView, k: int) -> (position: int)
    requires
        1 <= k < session_ops(session).len() - 3,
    ensures
        0 <= position < session.windows.len(),
        window_offset(session, position) <= k < window_offset(session, position + 1),
{
    lemma_enclosing_block(session.windows, k - 1)
}

/// Every split, and every command that is sent, stands between the creation
/// of its window and the one selection of that window's layout: the window
/// exists before anything is done inside it, and its layout is selected
/// once, when nothing more will be done inside it.
pub proof fn lemma_inside_enclosed(session: SessionView, k: int) -> (position: int)
    requires
        0 <= k < session_ops(session).len(),
        inside_window(session_ops(session)[k]),
    ensures
        0 <= position < session.windows.len(),
        window_offset(session, position) < k < window_offset(session, position + 1) - 1,
        session_ops(session)[window_offset(session, position)] == create_window_op(
            session.windows[position],
        ),
        session_ops(session)[window_offset(session, position + 1) - 1] == select_layout_op(
            session.windows[position],
        ),
        forall|m: int|
            window_offset(session, position) < m < window_offset(session, position + 1) - 1
                ==> inside_window(#[trigger] session_ops(session)[m]),
{
    let plan = session_ops(session);
    lemma_placeholder_brackets(session);
    let position = lemma_enclosing_window(session, k);
    let start = window_offset(session, position);
    let end = window_offset(session, position + 1);
    let block = window_ops(session.windows[position]);
    lemma_window_block(session, position);
    lemma_window_shape(session.windows[position]);
    assert(plan.subrange(start, end) == block);
    assert forall|m: int| start <= m < end implies #[trigger] plan[m] == block[m - start] by {
        assert(plan.subrange(start, end)[m - start] == plan[m]);
    }
    assert(plan[start] == block.first());
    assert(plan[end - 1] == block.last());
    assert(plan[k] == block[k - start]);
    assert forall|m: int| start < m < end - 1 implies inside_window(#[trigger] plan[m]) by {
        assert(plan[m] == block[m - start]);
    }
    position
}

/// The session and its placeholder are created first, before any window;
/// the placeholder is removed only when every window exists; then the
/// windows are renumbered and the session is attached at the base index.
/// Between the opening and the removal nothing is done but the work of the
/// windows.
pub proof fn lemma_placeholder_brackets(session: SessionView)
    ensures
        session_ops(session).len() >= 4,
        session_ops(session)[0] == create_session_op(session, SENTINEL_WINDOW),
        session_ops(session)[session_ops(session).len() - 3] == (OperationView::KillWindow {
            session: session.name,
            index: SENTINEL_WINDOW,
        }),
        session_ops(session)[session_ops(session).len() - 2] == OperationView::RenumberWindows,
        session_ops(session)[session_ops(session).len() - 1] == (OperationView::Attach {
            session: session.name,
            index: BASE_INDEX,
        }),
        forall|k: int|
            0 < k < session_ops(session).len() - 3 ==> window_work(
                #[trigger] session_ops(session)[k],
            ),
        forall|k: int|
            0 <= k < session_ops(session).len() && window_work(#[trigger] session_ops(session)[k])
                ==> 0 < k < session_ops(session).len() - 3,
{
    lemma_windows_work(session.windows);
    let plan = session_ops(session);
    let windows = windows_ops(session.windows);
    assert forall|k: int| 0 < k < plan.len() - 3 implies window_work(#[trigger] plan[k]) by {
        assert(plan[k] == windows[k - 1]);
    }
}

/// All that is done for a run of windows is the work of windows.
proof fn lemma_windows_work(windows: Seq<WindowView>)
    ensures
        forall|k: int|
            0 <= k < windows_ops(windows).len() ==> window_work(
                #[trigger] windows_ops(windows)[k],
            ),
    decreases windows.len(),
{
    if windows.len() > 0 {
        let front = windows_ops(windows.drop_last());
        let block = window_ops(windows.last());
        lemma_windows_work(windows.drop_last());
        lemma_window_shape(windows.last());
        assert forall|k: int| 0 <= k < windows_ops(windows).len() implies window_work(
            #[trigger] windows_ops(windows)[k],
        ) by {
            if k < front.len() {
                assert(windows_ops(windows)[k] == front[k]);
            } else {
                let m = k - front.len();
                assert(windows_ops(windows)[k] == block[m]);
                if 0 < m < block.len() - 1 {
                    assert(inside_window(block[m]));
                }
            }
        }
    }
}

/// A session without windows is still rendered: it is created with its
/// placeholder, the placeholder is removed, and renumbering and attaching
/// are requested all the same. Whether the multiplexer then attaches to a
/// session that has no window left is its own answer; a refusal ends the
/// run like the failure of any other operation.
pub proof fn lemma_empty_session(session: SessionView)
    requires
        session.windows.len() == 0,
    ensures
        session_ops(session) == seq![
            create_session_op(session, SENTINEL_WINDOW),
            OperationView::KillWindow { session: session.name, index: SENTINEL_WINDOW },
            OperationView::RenumberWindows,
            OperationView::Attach { session: session.name, index: BASE_INDEX },
        ],
{
    assert(session_ops(session) =~= seq![
        create_session_op(session, SENTINEL_WINDOW),
        OperationView::KillWindow { session: session.name, index: SENTINEL_WINDOW },
        OperationView::RenumberWindows,
        OperationView::Attach { session: session.name, index: BASE_INDEX },
    ]);
}

} // verus!
