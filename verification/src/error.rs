//! What a dispatch can fail with.

use crate::app::{AppError, AppErrorView};
use crate::args::command::{CommandError, CommandErrorView};
use vstd::prelude::*;
use vstd::std_specs::convert::FromSpecImpl;

verus! {

/// The failure of a dispatch: raised at the level of the application, at the
/// level of a command, or by the action that was reached. An action may fail
/// with anything that can be turned into a `RunError`: a message, an error of
/// the library, or a type of the caller that has a `From` into `RunError`.
#[derive(Debug, PartialEq, Eq)]
pub enum RunError {
    App(AppError),
    Command(CommandError),
    /// The message of the failure that an action returned.
    Action(String),
}

/// What a [`RunError`] holds, as plain values.
pub enum RunErrorView {
    App(AppErrorView),
    Command(CommandErrorView),
    Action(Seq<char>),
}

impl RunErrorView {
    /// The failure as a line of text for the user.
    pub open spec fn message(self) -> Seq<char> {
        match self {
            RunErrorView::App(e) => e.message(),
            RunErrorView::Command(e) => e.message(),
            RunErrorView::Action(m) => m,
        }
    }
}

impl View for RunError {
    type V = RunErrorView;

    open spec fn view(&self) -> RunErrorView {
        match self {
            RunError::App(e) => RunErrorView::App(e@),
            RunError::Command(e) => RunErrorView::Command(e@),
            RunError::Action(m) => RunErrorView::Action(m@),
        }
    }
}

impl RunError {
    /// The failure as a line of text for the user.
    pub fn message(&self) -> (text: String)
        ensures
            text@ == self@.message(),
    {
        match self {
            RunError::App(e) => e.message(),
            RunError::Command(e) => e.message(),
            RunError::Action(m) => m.clone(),
        }
    }
}

impl From<String> for RunError {
    /// The failure of an action that returned `message`.
    fn from(message: String) -> (wrapped: Self) {
        RunError::Action(message)
    }
}

impl FromSpecImpl<String> for RunError {
    open spec fn obeys_from_spec() -> bool {
        true
    }

    open spec fn from_spec(message: String) -> Self {
        RunError::Action(message)
    }
}

impl From<CommandError> for RunError {
    /// The error of a command, as it is.
    fn from(error: CommandError) -> (wrapped: Self) {
        RunError::Command(error)
    }
}

impl FromSpecImpl<CommandError> for RunError {
    open spec fn obeys_from_spec() -> bool {
        true
    }

    open spec fn from_spec(error: CommandError) -> Self {
        RunError::Command(error)
    }
}

impl From<AppError> for RunError {
    /// The error of an application, as it is.
    fn from(error: AppError) -> (wrapped: Self) {
        RunError::App(error)
    }
}

impl FromSpecImpl<AppError> for RunError {
    open spec fn obeys_from_spec() -> bool {
        true
    }

    open spec fn from_spec(error: AppError) -> Self {
        RunError::App(error)
    }
}

/// Whether `outcome` is what becomes of `raw`, the result of an action: its
/// text as it is, or its failure turned into a `RunError`.
pub open spec fn raised<E: Into<RunError>>(
    raw: Result<String, E>,
    outcome: Result<String, RunError>,
) -> bool {
    match raw {
        Ok(text) => outcome == Ok::<String, RunError>(text),
        Err(failure) => outcome matches Err(error) && call_ensures(
            <E as Into<RunError>>::into,
            (failure,),
            error,
        ),
    }
}

/// Hands on what an action returned, its failure turned into a `RunError`.
pub fn relay<E: Into<RunError>>(raw: Result<String, E>) -> (outcome: Result<String, RunError>)
    ensures
        raised(raw, outcome),
{
    match raw {
        Ok(text) => Ok(text),
        Err(failure) => Err(failure.into()),
    }
}

/// An action that fails with a message fails with that message as a
/// `RunError::Action`.
pub proof fn lemma_raised_message(raw: Result<String, String>, outcome: Result<String, RunError>)
    requires
        raised(raw, outcome),
    ensures
        match raw {
            Ok(text) => outcome == Ok::<String, RunError>(text),
            Err(message) => outcome == Err::<String, RunError>(RunError::Action(message)),
        },
{
}

/// An action that fails with the error of a command fails with that error,
/// as it is.
pub proof fn lemma_raised_command_error(
    raw: Result<String, CommandError>,
    outcome: Result<String, RunError>,
)
    requires
        raised(raw, outcome),
    ensures
        match raw {
            Ok(text) => outcome == Ok::<String, RunError>(text),
            Err(error) => outcome == Err::<String, RunError>(RunError::Command(error)),
        },
{
}

/// An action that fails with the error of an application fails with that
/// error, as it is.
pub proof fn lemma_raised_app_error(
    raw: Result<String, AppError>,
    outcome: Result<String, RunError>,
)
    requires
        raised(raw, outcome),
    ensures
        match raw {
            Ok(text) => outcome == Ok::<String, RunError>(text),
            Err(error) => outcome == Err::<String, RunError>(RunError::App(error)),
        },
{
}

} // verus!
