//! The command line that carries an operation to the multiplexer.
//!
//! Each operation becomes the arguments of one invocation of the
//! multiplexer's control program. Windows and panes are not addressed: the
//! multiplexer applies a request to the window and pane created last, which
//! is why the order of the sequence matters. Only the placeholder and the
//! window to attach to are addressed, as `session:index`.

use crate::operation::{Operation, OperationView};
use crate::text::{decimal, decimal_text, texts};
use vstd::prelude::*;

verus! {

/// The address of a window: the session's name, a colon, the index.
pub open spec fn target(session: Seq<char>, index: u32) -> Seq<char> {
    session + seq![':'] + decimal(index as nat)
}

/// The arguments that give a new window its label, if it has one.
pub open spec fn label_arguments(name: Option<Seq<char>>) -> Seq<Seq<char>> {
    match name {
        Some(name) => seq!["-n"@, name],
        None => Seq::empty(),
    }
}

/// The arguments that give a session or window its working directory, if it
/// has one.
pub open spec fn root_arguments(root: Option<Seq<char>>) -> Seq<Seq<char>> {
    match root {
        Some(root) => seq!["-c"@, root],
        None => Seq::empty(),
    }
}

/// The arguments of the invocation that performs an operation.
pub open spec fn arguments(operation: OperationView) -> Seq<Seq<char>> {
    match operation {
        OperationView::CreateSession { name, initial_window, root } => seq![
            "new"@,
            "-d"@,
            "-s"@,
            name,
            "-n"@,
            decimal(initial_window as nat),
        ] + root_arguments(root),
        OperationView::CreateWindow { name, root } => seq!["new-window"@] + label_arguments(name)
            + root_arguments(root),
        OperationView::SendKeys { text } => seq!["send-keys"@, text, "Enter"@],
        OperationView::SplitPane => seq!["split-window"@],
        OperationView::SelectLayout { layout } => seq!["select-layout"@, layout.name()],
        OperationView::KillWindow { session, index } => seq![
            "kill-window"@,
            "-t"@,
            target(session, index),
        ],
        OperationView::RenumberWindows => seq!["move-window"@, "-r"@],
        OperationView::Attach { session, index } => seq!["attach"@, "-t"@, target(session, index)],
    }
}

/// Writes the address of a window of a session.
pub fn target_text(session: &str, index: u32) -> (text: String)
    ensures
        text@ == target(session@, index),
{
    proof {
        reveal_strlit(":");
    }
    let mut text = String::from_str(session);
    text.append(":");
    let number = decimal_text(index as u64);
    text.append(number.as_str());
    assert(text@ =~= target(session@, index));
    text
}

/// Appends one argument.
fn push_word(words: &mut Vec<String>, word: &str)
    ensures
        texts(final(words)@) == texts(old(words)@).push(word@),
{
    words.push(String::from_str(word));
    assert(texts(words@) =~= texts(old(words)@).push(word@));
}

/// Appends a flag and its value where the value is present.
fn push_option(words: &mut Vec<String>, flag: &str, value: &Option<String>)
    ensures
        texts(final(words)@) == texts(old(words)@) + (match value.deep_view() {
            Some(text) => seq![flag@, text],
            None => Seq::empty(),
        }),
{
    match value {
        Some(text) => {
            push_word(words, flag);
            push_word(words, text.as_str());
            assert(texts(words@) =~= texts(old(words)@) + seq![flag@, text@]);
        },
        None => {
            assert(texts(words@) =~= texts(old(words)@) + Seq::<Seq<char>>::empty());
        },
    }
}

impl Operation {
    /// The arguments with which the multiplexer's control program performs
    /// this operation.
    pub fn arguments(&self) -> (words: Vec<String>)
        ensures
            texts(words@) == arguments(self@),
    {
        let mut words: Vec<String> = Vec::new();
        assert(texts(words@) =~= Seq::<Seq<char>>::empty());
        match self {
            Operation::CreateSession { name, initial_window, root } => {
                push_word(&mut words, "new");
                push_word(&mut words, "-d");
                push_word(&mut words, "-s");
                push_word(&mut words, name.as_str());
                push_word(&mut words, "-n");
                let number = decimal_text(*initial_window as u64);
                push_word(&mut words, number.as_str());
                assert(texts(words@) =~= seq![
                    "new"@,
                    "-d"@,
                    "-s"@,
                    name@,
                    "-n"@,
                    decimal(*initial_window as nat),
                ]);
                push_option(&mut words, "-c", root);
            },
            Operation::CreateWindow { name, root } => {
                push_word(&mut words, "new-window");
                assert(texts(words@) =~= seq!["new-window"@]);
                push_option(&mut words, "-n", name);
                push_option(&mut words, "-c", root);
            },
            Operation::SendKeys { text } => {
                push_word(&mut words, "send-keys");
                push_word(&mut words, text.as_str());
                push_word(&mut words, "Enter");
                assert(texts(words@) =~= arguments(self@));
            },
            Operation::SplitPane => {
                push_word(&mut words, "split-window");
                assert(texts(words@) =~= arguments(self@));
            },
            Operation::SelectLayout { layout } => {
                push_word(&mut words, "select-layout");
                let name = layout.to_string();
                push_word(&mut words, name.as_str());
                assert(texts(words@) =~= arguments(self@));
            },
            Operation::KillWindow { session, index } => {
                push_word(&mut words, "kill-window");
                push_word(&mut words, "-t");
                let address = target_text(session.as_str(), *index);
                push_word(&mut words, address.as_str());
                assert(texts(words@) =~= arguments(self@));
            },
            Operation::RenumberWindows => {
                push_word(&mut words, "move-window");
                push_word(&mut words, "-r");
                assert(texts(words@) =~= arguments(self@));
            },
            Operation::Attach { session, index } => {
                push_word(&mut words, "attach");
                push_word(&mut words, "-t");
                let address = target_text(session.as_str(), *index);
                push_word(&mut words, address.as_str());
                assert(texts(words@) =~= arguments(self@));
            },
        }
        words
    }
}

} // verus!
