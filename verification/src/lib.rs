//! Renders a declarative description of a terminal-multiplexer session into
//! the ordered sequence of control operations that builds it.
//!
//! A [`Session`] owns windows and a window owns panes. [`Session::render`]
//! turns the tree into [`Operation`]s, [`Operation::arguments`] turns an
//! operation into the command line that carries it, and
//! [`execution::advance`] says which operation is issued next and when a
//! run is over. Nothing here talks to the multiplexer: the caller performs
//! each operation and reports whether it succeeded.
//!
//! What holds of every rendered sequence is proved in [`sequence`].

pub mod command;
pub mod definition;
pub mod error;
pub mod execution;
pub mod layout;
pub mod operation;
pub mod render;
pub mod sequence;
pub mod text;

pub use definition::{Pane, Session, Window};
pub use error::{Defect, Error};
pub use layout::Layout;
pub use operation::{Operation, BASE_INDEX, SENTINEL_WINDOW};
