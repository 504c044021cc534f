//! A small framework for command-line programs: a tree of named commands
//! with positional arguments, flags and actions, and the dispatch of an
//! argument list to the command it names.
//!
//! An [`app::App`] holds the commands of a program. Commands are built with
//! the operations of [`args::command::Flex`], and `run` dispatches the
//! arguments: it returns the text of the action that they lead to, a help
//! page, or an error. What `run` settles on is described by
//! [`args::command::Command::route`] and [`app::App::route`].

pub mod app;
pub mod args;
pub mod error;
pub mod text;
