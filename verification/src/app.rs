//! The application: the root of the command tree.

use crate::args::action::Action;
use crate::args::command::{clone_commands, same_commands, views, Command, CommandView, FlexCommand};
use crate::args::dispatch::{find_command, lemma_command_errors, position, run_command, Route};
use crate::args::help::{app_page, is_help_command, render_app_page};
use crate::error::{RunError, RunErrorView};
use vstd::prelude::*;
use vstd::std_specs::cmp::PartialEqSpecImpl;
use vstd::string::*;

verus! {

/// What goes wrong at the level of the application.
#[derive(Debug, PartialEq, Eq)]
pub enum AppError {
    /// No command was given.
    MissingCommand,
    /// The first argument names no command; it holds that argument.
    InvalidCommand(String),
    /// The application was not set up for the call; it holds the reason.
    InvalidConfiguration(String),
}

/// What an [`AppError`] holds, as plain values.
pub enum AppErrorView {
    MissingCommand,
    InvalidCommand(Seq<char>),
    InvalidConfiguration(Seq<char>),
}

impl AppErrorView {
    /// The failure as a line of text for the user.
    pub open spec fn message(self) -> Seq<char> {
        match self {
            AppErrorView::MissingCommand => "No command provided"@,
            AppErrorView::InvalidCommand(e) => "Unknown Command Provided: "@ + e,
            AppErrorView::InvalidConfiguration(e) => "Invalid configuration: "@ + e,
        }
    }
}

impl View for AppError {
    type V = AppErrorView;

    open spec fn view(&self) -> AppErrorView {
        match self {
            AppError::MissingCommand => AppErrorView::MissingCommand,
            AppError::InvalidCommand(e) => AppErrorView::InvalidCommand(e@),
            AppError::InvalidConfiguration(e) => AppErrorView::InvalidConfiguration(e@),
        }
    }
}

impl AppError {
    /// The failure as a line of text for the user.
    pub fn message(&self) -> (text: String)
        ensures
            text@ == self@.message(),
    {
        match self {
            AppError::MissingCommand => String::from_str("No command provided"),
            AppError::InvalidCommand(e) => String::from_str("Unknown Command Provided: ").concat(
                e.as_str(),
            ),
            AppError::InvalidConfiguration(e) => String::from_str("Invalid configuration: ").concat(
                e.as_str(),
            ),
        }
    }
}

/// An application: a name, what it is about, and its commands.
pub struct App {
    pub name: String,
    pub about: String,
    pub commands: Vec<Command>,
}

/// What two applications are compared by: everything but the actions of
/// their commands.
pub struct AppView {
    pub name: Seq<char>,
    pub about: Seq<char>,
    pub commands: Seq<CommandView>,
}

impl View for App {
    type V = AppView;

    open spec fn view(&self) -> AppView {
        AppView { name: self.name@, about: self.about@, commands: views(self.commands@) }
    }
}

impl Default for App {
    /// The application without a name that holds nothing.
    fn default() -> (app: Self)
        ensures
            app@ == (AppView { name: Seq::empty(), about: Seq::empty(), commands: Seq::empty() }),
    {
        let app = App { name: String::new(), about: String::new(), commands: Vec::new() };
        assert(app@.commands =~= Seq::empty());
        app
    }
}

impl PartialEq for App {
    /// Two applications are the same when all but the actions of their
    /// commands is.
    fn eq(&self, other: &Self) -> (same: bool) {
        self.name == other.name && self.about == other.about && same_commands(
            &self.commands,
            &other.commands,
        )
    }
}

impl PartialEqSpecImpl for App {
    open spec fn obeys_eq_spec() -> bool {
        true
    }

    open spec fn eq_spec(&self, other: &Self) -> bool {
        self@ == other@
    }
}

/// Why a call fails that asks an application without a `help` command for
/// help.
pub open spec fn no_help_message() -> Seq<char> {
    "No help command defined. Add with `.help()`"@
}

impl App {
    /// The help page of the application as it stands.
    pub open spec fn page(&self) -> Seq<char> {
        app_page(self.name@, self.about@, views(self.commands@))
    }

    /// What dispatch settles on for the arguments `args` of the program.
    ///
    /// Without arguments, or with `help` as the first of them, the call goes
    /// to the command `help`, without arguments. Else it goes to the command
    /// that the first argument names, with the arguments after it.
    pub open spec fn route(&self, args: Seq<String>) -> Route {
        if args.len() == 0 || args[0]@ == "help"@ {
            match position(self.commands@, "help"@) {
                Some(i) => self.commands[i].route(Seq::empty()),
                None => Route::Reject(
                    RunErrorView::App(AppErrorView::InvalidConfiguration(no_help_message())),
                ),
            }
        } else {
            match position(self.commands@, args[0]@) {
                Some(i) => self.commands[i].route(args.skip(1)),
                None => Route::Reject(RunErrorView::App(AppErrorView::InvalidCommand(args[0]@))),
            }
        }
    }

    /// An application called `name`, without commands.
    pub fn new(name: &str) -> (app: Self)
        ensures
            app@ == (AppView { name: name@, about: Seq::empty(), commands: Seq::empty() }),
            app.commands@ == Seq::<Command>::empty(),
    {
        let app = App { name: String::from_str(name), about: String::new(), commands: Vec::new() };
        assert(app@.commands =~= Seq::empty());
        app
    }

    /// Says what the application is about, in place of what was said before.
    pub fn about(self, about: &str) -> (app: Self)
        ensures
            app.name == self.name,
            app.about@ == about@,
            app.commands == self.commands,
    {
        let mut app = self;
        app.about = String::from_str(about);
        app
    }

    /// Adds `commands`, in their order, after the commands that are there.
    pub fn add_commands(self, commands: Vec<Command>) -> (app: Self)
        ensures
            app.name == self.name,
            app.about == self.about,
            app.commands@ == self.commands@ + commands@,
    {
        let mut app = self;
        let mut commands = commands;
        app.commands.append(&mut commands);
        app
    }

    /// Adds `cmd` after the commands that are there.
    pub fn add_command(self, cmd: Command) -> (app: Self)
        ensures
            app.name == self.name,
            app.about == self.about,
            app.commands@ == self.commands@.push(cmd),
    {
        let mut app = self;
        app.commands.push(cmd);
        app
    }

    /// Adds, after the commands that are there, a command `help` that answers
    /// with the help page of the application as it stands at this call.
    pub fn help(self) -> (app: Self)
        ensures
            app.name == self.name,
            app.about == self.about,
            app.commands@ == self.commands@.push(app.commands@.last()),
            is_help_command(app.commands@.last(), self.page()),
    {
        let app_name = self.name.clone();
        let app_about = self.about.clone();
        let commands = clone_commands(&self.commands);
        let answer = move |_args: &[String]| -> (outcome: Result<String, String>)
            ensures
                outcome matches Ok(s) && s@ == app_page(app_name@, app_about@, views(commands@)),
            {
                Ok(render_app_page(app_name.as_str(), app_about.as_str(), &commands))
            };
        let help = Command::flex(
            FlexCommand {
                name: String::from_str("help"),
                short_description: None,
                long_description: None,
                action: Some(Action::new(answer)),
                sub_commands: Vec::new(),
                args: Vec::new(),
                flags: Vec::new(),
            },
        );
        let mut app = self;
        app.commands.push(help);
        app
    }

    /// Dispatches `args`, the arguments of the program without its name.
    pub fn run(&self, args: &[String]) -> (outcome: Result<String, RunError>)
        ensures
            self.route(args@).delivers(outcome),
    {
        let help = String::from_str("help");
        if args.is_empty() || args[0] == help {
            return match find_command(&self.commands, "help") {
                Some(i) => {
                    let none: Vec<String> = Vec::new();
                    run_command(&self.commands[i], none.as_slice())
                },
                None => Err(
                    RunError::App(
                        AppError::InvalidConfiguration(
                            String::from_str("No help command defined. Add with `.help()`"),
                        ),
                    ),
                ),
            };
        }
        let command_name = &args[0];
        let command_args = &args[1..args.len()];
        assert(command_args@ =~= args@.skip(1));
        match find_command(&self.commands, command_name.as_str()) {
            Some(i) => run_command(&self.commands[i], command_args),
            None => Err(RunError::App(AppError::InvalidCommand(command_name.clone()))),
        }
    }
}

/// A call with `help` as its first argument is dispatched as the call
/// without arguments is. Both fail with `InvalidConfiguration` if and only if
/// the application has no command `help`.
pub proof fn lemma_help_is_the_default(app: App, args: Seq<String>)
    requires
        args.len() > 0,
        args[0]@ == "help"@,
    ensures
        app.route(args) == app.route(Seq::empty()),
        position(app.commands@, "help"@) is None <==> app.route(args) == Route::Reject(
            RunErrorView::App(AppErrorView::InvalidConfiguration(no_help_message())),
        ),
{
    if let Some(i) = position(app.commands@, "help"@) {
        lemma_command_errors(app.commands[i], Seq::empty());
    }
}

} // verus!
