//! What can go wrong between reading a definition and attaching to the
//! finished session.

use crate::text::{decimal, decimal_text};
use vstd::prelude::*;

verus! {

/// The way in which a definition is malformed.
#[derive(Clone, Copy, Debug, PartialEq, Eq, Structural)]
pub enum Defect {
    /// The session has no name at all.
    MissingName,
    /// The session's name is the empty string.
    EmptyName,
    /// A window's layout is none of the five canonical names.
    UnknownLayout,
    /// A window declares both a top-level command and panes.
    CommandAndPanes,
}

/// Every failure is fatal: nothing is retried and nothing is cleaned up.
#[derive(Clone, Copy, Debug, PartialEq, Eq, Structural)]
pub enum Error {
    /// The definition does not describe a session.
    MalformedDefinition(Defect),
    /// The definition could not be located or read.
    DefinitionNotFound,
    /// The multiplexer refused, or could not run, the operation at this
    /// position of the rendered sequence.
    ControlOperationFailed(usize),
}

impl Defect {
    /// What is wrong, in words.
    pub open spec fn description(self) -> Seq<char> {
        match self {
            Defect::MissingName => "The session has no name"@,
            Defect::EmptyName => "The session's name is empty"@,
            Defect::UnknownLayout => "Not a valid split direction"@,
            Defect::CommandAndPanes => "A window declares both a command and panes"@,
        }
    }

    /// Says what is wrong, in words.
    pub fn describe(&self) -> (text: String)
        ensures
            text@ == self.description(),
    {
        match self {
            Defect::MissingName => String::from_str("The session has no name"),
            Defect::EmptyName => String::from_str("The session's name is empty"),
            Defect::UnknownLayout => String::from_str("Not a valid split direction"),
            Defect::CommandAndPanes => String::from_str(
                "A window declares both a command and panes",
            ),
        }
    }
}

impl Error {
    /// What went wrong, in words.
    pub open spec fn description(self) -> Seq<char> {
        match self {
            Error::MalformedDefinition(defect) => "Malformed definition: "@ + defect.description(),
            Error::DefinitionNotFound => "The definition could not be read"@,
            Error::ControlOperationFailed(position) => "Control operation failed at position "@
                + decimal(position as nat),
        }
    }

    /// Says what went wrong, in words.
    pub fn describe(&self) -> (text: String)
        ensures
            text@ == self.description(),
    {
        match self {
            Error::MalformedDefinition(defect) => {
                let mut text = String::from_str("Malformed definition: ");
                let reason = defect.describe();
                text.append(reason.as_str());
                text
            },
            Error::DefinitionNotFound => String::from_str("The definition could not be read"),
            Error::ControlOperationFailed(position) => {
                let mut text = String::from_str("Control operation failed at position ");
                let number = decimal_text(*position as u64);
                text.append(number.as_str());
                text
            },
        }
    }
}

} // verus!
