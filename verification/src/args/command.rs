//! Commands: the nodes of the tree.

use crate::args::action::Action;
use crate::args::arg::{arg_views, Arg, ArgView};
use crate::args::dispatch::run_command;
use crate::args::flag::{flag_views, Flag, FlagView};
use crate::args::help::is_help_command;
use crate::error::{raised, RunError};
use vstd::prelude::*;
use vstd::std_specs::cmp::PartialEqSpecImpl;
use vstd::string::*;

verus! {

/// What goes wrong at the level of a command.
#[derive(Debug, PartialEq, Eq)]
pub enum CommandError {
    /// An argument names no subcommand; it holds that argument.
    InvalidCommand(String),
    /// Fewer arguments were given than the command requires; it holds the
    /// counts in words.
    InvalidArgument(String),
    /// The command needs a subcommand and got none; it holds the command's
    /// name.
    MissingSubcommand(String),
    /// The command was not set up for the call; it holds the reason.
    InvalidConfiguration(String),
}

/// What a [`CommandError`] holds, as plain values.
pub enum CommandErrorView {
    InvalidCommand(Seq<char>),
    InvalidArgument(Seq<char>),
    MissingSubcommand(Seq<char>),
    InvalidConfiguration(Seq<char>),
}

impl CommandErrorView {
    /// The failure as a line of text for the user.
    pub open spec fn message(self) -> Seq<char> {
        match self {
            CommandErrorView::InvalidCommand(e) => "Unknown subcommand: "@ + e,
            CommandErrorView::InvalidArgument(e) => "Invalid argument: "@ + e,
            CommandErrorView::MissingSubcommand(e) => "Missing subcommand: "@ + e,
            CommandErrorView::InvalidConfiguration(e) => "Invalid configuration: "@ + e,
        }
    }
}

impl View for CommandError {
    type V = CommandErrorView;

    open spec fn view(&self) -> CommandErrorView {
        match self {
            CommandError::InvalidCommand(e) => CommandErrorView::InvalidCommand(e@),
            CommandError::InvalidArgument(e) => CommandErrorView::InvalidArgument(e@),
            CommandError::MissingSubcommand(e) => CommandErrorView::MissingSubcommand(e@),
            CommandError::InvalidConfiguration(e) => CommandErrorView::InvalidConfiguration(e@),
        }
    }
}

impl CommandError {
    /// The failure as a line of text for the user.
    pub fn message(&self) -> (text: String)
        ensures
            text@ == self@.message(),
    {
        match self {
            CommandError::InvalidCommand(e) => String::from_str("Unknown subcommand: ").concat(
                e.as_str(),
            ),
            CommandError::InvalidArgument(e) => String::from_str("Invalid argument: ").concat(
                e.as_str(),
            ),
            CommandError::MissingSubcommand(e) => String::from_str("Missing subcommand: ").concat(
                e.as_str(),
            ),
            CommandError::InvalidConfiguration(e) => String::from_str(
                "Invalid configuration: ",
            ).concat(e.as_str()),
        }
    }
}

/// A configured command.
pub struct FlexCommand {
    pub name: String,
    pub short_description: Option<String>,
    pub long_description: Option<String>,
    pub action: Option<Action>,
    pub sub_commands: Vec<Command>,
    pub args: Vec<Arg>,
    pub flags: Vec<Flag>,
}

/// A node of the command tree: either a name alone, or a configured command.
/// The first becomes the second as soon as anything is added to it.
pub enum Command {
    Default { name: String },
    Flex(FlexCommand),
}

/// What a command is made of. A command that is only a name has that name
/// and nothing else.
pub struct Parts {
    pub name: Seq<char>,
    pub short_description: Option<Seq<char>>,
    pub long_description: Option<Seq<char>>,
    pub action: Option<Action>,
    pub sub_commands: Seq<Command>,
    pub args: Seq<Arg>,
    pub flags: Seq<Flag>,
}

/// What two commands are compared by: everything but the actions.
pub enum CommandView {
    Default { name: Seq<char> },
    Flex {
        name: Seq<char>,
        short_description: Option<Seq<char>>,
        long_description: Option<Seq<char>>,
        sub_commands: Seq<CommandView>,
        args: Seq<ArgView>,
        flags: Seq<FlagView>,
    },
}

impl Parts {
    /// The short description, or the empty text where there is none.
    pub open spec fn description(self) -> Seq<char> {
        match self.short_description {
            Some(text) => text,
            None => Seq::empty(),
        }
    }
}

impl CommandView {
    /// The command's name.
    pub open spec fn name(self) -> Seq<char> {
        match self {
            CommandView::Default { name } => name,
            CommandView::Flex { name, .. } => name,
        }
    }

    /// The short description, or the empty text where there is none.
    pub open spec fn description(self) -> Seq<char> {
        match self {
            CommandView::Flex { short_description: Some(text), .. } => text,
            _ => Seq::empty(),
        }
    }
}

/// The view of an optional string.
pub open spec fn text_of(s: Option<String>) -> Option<Seq<char>> {
    match s {
        Some(s) => Some(s@),
        None => None,
    }
}

impl FlexCommand {
    /// What the command is made of.
    pub open spec fn parts(&self) -> Parts {
        Parts {
            name: self.name@,
            short_description: text_of(self.short_description),
            long_description: text_of(self.long_description),
            action: self.action,
            sub_commands: self.sub_commands@,
            args: self.args@,
            flags: self.flags@,
        }
    }
}

/// The view of a configured command.
pub open spec fn flex_view(cmd: FlexCommand) -> CommandView
    decreases cmd,
{
    CommandView::Flex {
        name: cmd.name@,
        short_description: text_of(cmd.short_description),
        long_description: text_of(cmd.long_description),
        sub_commands: Seq::new(
            cmd.sub_commands.len() as nat,
            |i: int|
                if 0 <= i < cmd.sub_commands.len() {
                    command_view(cmd.sub_commands[i])
                } else {
                    arbitrary()
                },
        ),
        args: arg_views(cmd.args@),
        flags: flag_views(cmd.flags@),
    }
}

/// The view of a command.
pub open spec fn command_view(cmd: Command) -> CommandView
    decreases cmd,
{
    match cmd {
        Command::Default { name } => CommandView::Default { name: name@ },
        Command::Flex(cmd) => flex_view(cmd),
    }
}

impl View for FlexCommand {
    type V = CommandView;

    open spec fn view(&self) -> CommandView {
        flex_view(*self)
    }
}

impl View for Command {
    type V = CommandView;

    open spec fn view(&self) -> CommandView {
        command_view(*self)
    }
}

impl Command {
    /// What the command is made of. A command that is only a name is made of
    /// what the configured command of that name is made of that holds nothing
    /// else.
    pub open spec fn parts(&self) -> Parts {
        match self {
            Command::Default { name } => Parts {
                name: name@,
                short_description: None,
                long_description: None,
                action: None,
                sub_commands: Seq::empty(),
                args: Seq::empty(),
                flags: Seq::empty(),
            },
            Command::Flex(cmd) => cmd.parts(),
        }
    }
}

impl FlexCommand {
    /// Whether neither the command nor any command below it has an action.
    pub open spec fn without_actions(&self) -> bool
        decreases self,
    {
        &&& self.action is None
        &&& forall|i: int|
            0 <= i < self.sub_commands.len() ==> (#[trigger] self.sub_commands[i]).without_actions()
    }
}

impl Command {
    /// Whether neither the command nor any command below it has an action.
    pub open spec fn without_actions(&self) -> bool
        decreases self,
    {
        match self {
            Command::Default { .. } => true,
            Command::Flex(cmd) => cmd.without_actions(),
        }
    }
}

/// The views of `cmds`, in order.
pub open spec fn views(cmds: Seq<Command>) -> Seq<CommandView> {
    cmds.map_values(|c: Command| c@)
}

impl FlexCommand {
    /// In the view of a command stand the views of its subcommands.
    pub proof fn lemma_view_of_sub_commands(&self)
        ensures
            self@ matches CommandView::Flex { sub_commands, .. } && sub_commands == views(
                self.sub_commands@,
            ),
    {
        let listed = self@->Flex_sub_commands;
        assert(listed.len() == self.sub_commands.len());
        assert forall|i: int| 0 <= i < listed.len() implies listed[i] == views(
            self.sub_commands@,
        )[i] by {
            assert(listed[i] == self.sub_commands[i]@);
        }
        assert(listed =~= views(self.sub_commands@));
    }
}

/// Copies `cmds` one by one, in order, leaving every action behind.
pub fn clone_commands(cmds: &Vec<Command>) -> (copy: Vec<Command>)
    ensures
        views(copy@) == views(cmds@),
        forall|i: int| 0 <= i < copy.len() ==> (#[trigger] copy[i]).without_actions(),
    decreases cmds,
{
    let mut copy: Vec<Command> = Vec::new();
    let mut i: usize = 0;
    while i < cmds.len()
        invariant
            i <= cmds.len(),
            copy.len() == i,
            forall|j: int| 0 <= j < i ==> (#[trigger] copy[j])@ == cmds[j]@,
            forall|j: int| 0 <= j < i ==> (#[trigger] copy[j]).without_actions(),
        decreases cmds.len() - i,
    {
        copy.push(clone_command(&cmds[i]));
        i += 1;
    }
    assert(views(copy@) =~= views(cmds@));
    copy
}

/// Copies `cmd` and the commands below it, leaving every action behind.
fn clone_flex(cmd: &FlexCommand) -> (copy: FlexCommand)
    ensures
        copy@ == cmd@,
        copy.without_actions(),
    decreases cmd,
{
    let sub_commands = clone_commands(&cmd.sub_commands);
    let args = cmd.args.clone();
    let flags = cmd.flags.clone();
    let copy = FlexCommand {
        name: cmd.name.clone(),
        short_description: cmd.short_description.clone(),
        long_description: cmd.long_description.clone(),
        action: None,
        sub_commands,
        args,
        flags,
    };
    proof {
        assert(copy.args@ =~= cmd.args@);
        assert(copy.flags@ =~= cmd.flags@);
        copy.lemma_view_of_sub_commands();
        cmd.lemma_view_of_sub_commands();
    }
    copy
}

/// Copies `cmd` and the commands below it, leaving every action behind.
fn clone_command(cmd: &Command) -> (copy: Command)
    ensures
        copy@ == cmd@,
        copy.without_actions(),
    decreases cmd,
{
    match cmd {
        Command::Default { name } => Command::Default { name: name.clone() },
        Command::Flex(flex) => {
            proof {
                assert(decreases_to!(cmd => cmd->Flex_0));
            }
            Command::Flex(clone_flex(flex))
        },
    }
}

impl Clone for FlexCommand {
    /// The copy has no action, and neither has any command below it: an
    /// action cannot be copied.
    fn clone(&self) -> (copy: Self)
        ensures
            copy@ == self@,
            copy.without_actions(),
    {
        clone_flex(self)
    }
}

impl Clone for Command {
    /// The copy has no action, and neither has any command below it: an
    /// action cannot be copied.
    fn clone(&self) -> (copy: Self)
        ensures
            copy@ == self@,
            copy.without_actions(),
    {
        clone_command(self)
    }
}

/// Tells whether two optional texts are the same.
fn same_text(a: &Option<String>, b: &Option<String>) -> (same: bool)
    ensures
        same == (text_of(*a) == text_of(*b)),
{
    match (a, b) {
        (Some(a), Some(b)) => *a == *b,
        (None, None) => true,
        _ => false,
    }
}

/// Tells whether two lists of commands are the same, actions apart.
pub fn same_commands(a: &Vec<Command>, b: &Vec<Command>) -> (same: bool)
    ensures
        same == (views(a@) == views(b@)),
    decreases a,
{
    if a.len() != b.len() {
        assert(views(a@).len() != views(b@).len());
        return false;
    }
    let mut i: usize = 0;
    while i < a.len()
        invariant
            i <= a.len(),
            a.len() == b.len(),
            forall|j: int| 0 <= j < i ==> (#[trigger] a[j])@ == b[j]@,
        decreases a.len() - i,
    {
        if !same_command(&a[i], &b[i]) {
            assert(views(a@)[i as int] != views(b@)[i as int]);
            return false;
        }
        i += 1;
    }
    assert(views(a@) =~= views(b@));
    true
}

/// Tells whether two lists of arguments are the same.
fn same_args(a: &Vec<Arg>, b: &Vec<Arg>) -> (same: bool)
    ensures
        same == (arg_views(a@) == arg_views(b@)),
{
    if a.len() != b.len() {
        assert(arg_views(a@).len() != arg_views(b@).len());
        return false;
    }
    let mut i: usize = 0;
    while i < a.len()
        invariant
            i <= a.len(),
            a.len() == b.len(),
            forall|j: int| 0 <= j < i ==> (#[trigger] a[j])@ == b[j]@,
        decreases a.len() - i,
    {
        if a[i] != b[i] {
            assert(arg_views(a@)[i as int] != arg_views(b@)[i as int]);
            return false;
        }
        i += 1;
    }
    assert(arg_views(a@) =~= arg_views(b@));
    true
}

/// Tells whether two lists of flags are the same.
fn same_flags(a: &Vec<Flag>, b: &Vec<Flag>) -> (same: bool)
    ensures
        same == (flag_views(a@) == flag_views(b@)),
{
    if a.len() != b.len() {
        assert(flag_views(a@).len() != flag_views(b@).len());
        return false;
    }
    let mut i: usize = 0;
    while i < a.len()
        invariant
            i <= a.len(),
            a.len() == b.len(),
            forall|j: int| 0 <= j < i ==> (#[trigger] a[j])@ == b[j]@,
        decreases a.len() - i,
    {
        if a[i] != b[i] {
            assert(flag_views(a@)[i as int] != flag_views(b@)[i as int]);
            return false;
        }
        i += 1;
    }
    assert(flag_views(a@) =~= flag_views(b@));
    true
}

/// Tells whether two configured commands are the same, actions apart.
fn same_flex(a: &FlexCommand, b: &FlexCommand) -> (same: bool)
    ensures
        same == (a@ == b@),
    decreases a,
{
    proof {
        a.lemma_view_of_sub_commands();
        b.lemma_view_of_sub_commands();
    }
    a.name == b.name && same_text(&a.short_description, &b.short_description) && same_text(
        &a.long_description,
        &b.long_description,
    ) && same_commands(&a.sub_commands, &b.sub_commands) && same_args(&a.args, &b.args)
        && same_flags(&a.flags, &b.flags)
}

/// Tells whether two commands are the same, actions apart.
fn same_command(a: &Command, b: &Command) -> (same: bool)
    ensures
        same == (a@ == b@),
    decreases a,
{
    match (a, b) {
        (Command::Default { name: a }, Command::Default { name: b }) => *a == *b,
        (Command::Flex(x), Command::Flex(y)) => {
            proof {
                assert(decreases_to!(a => a->Flex_0));
            }
            same_flex(x, y)
        },
        _ => false,
    }
}

impl PartialEq for FlexCommand {
    /// Two commands are the same when all but their actions is: actions
    /// cannot be compared.
    fn eq(&self, other: &Self) -> (same: bool) {
        same_flex(self, other)
    }
}

impl PartialEqSpecImpl for FlexCommand {
    open spec fn obeys_eq_spec() -> bool {
        true
    }

    open spec fn eq_spec(&self, other: &Self) -> bool {
        self@ == other@
    }
}

impl PartialEq for Command {
    /// Two commands are the same when all but their actions is: actions
    /// cannot be compared.
    fn eq(&self, other: &Self) -> (same: bool) {
        same_command(self, other)
    }
}

impl PartialEqSpecImpl for Command {
    open spec fn obeys_eq_spec() -> bool {
        true
    }

    open spec fn eq_spec(&self, other: &Self) -> bool {
        self@ == other@
    }
}

impl Default for FlexCommand {
    /// The command without a name that holds nothing.
    fn default() -> (cmd: Self)
        ensures
            cmd.parts() == (Parts {
                name: Seq::empty(),
                short_description: None,
                long_description: None,
                action: None,
                sub_commands: Seq::empty(),
                args: Seq::empty(),
                flags: Seq::empty(),
            }),
    {
        FlexCommand {
            name: String::new(),
            short_description: None,
            long_description: None,
            action: None,
            sub_commands: Vec::new(),
            args: Vec::new(),
            flags: Vec::new(),
        }
    }
}

/// The command that is only the empty name.
fn unnamed() -> (cmd: Command)
    ensures
        cmd@ == (CommandView::Default { name: Seq::empty() }),
{
    Command::Default { name: String::new() }
}

impl Default for Command {
    /// The command that is only the empty name.
    fn default() -> Self {
        unnamed()
    }
}

impl Command {
    /// The command that is only the name `name`.
    pub fn default(name: &str) -> (cmd: Self)
        ensures
            cmd matches Command::Default { name: n } && n@ == name@,
    {
        Command::Default { name: String::from_str(name) }
    }

    /// The command that `cmd` configures.
    pub fn flex(cmd: FlexCommand) -> (made: Self)
        ensures
            made == Command::Flex(cmd),
    {
        Command::Flex(cmd)
    }

    /// The command's name.
    pub fn get_cmd_name(&self) -> (name: String)
        ensures
            name@ == self.parts().name,
    {
        match self {
            Command::Default { name } => name.clone(),
            Command::Flex(cmd) => cmd.name.clone(),
        }
    }

    /// The command's short description; the empty text where it has none.
    pub fn get_cmd_description(&self) -> (description: String)
        ensures
            description@ == self.parts().description(),
    {
        match self {
            Command::Default { .. } => String::new(),
            Command::Flex(cmd) => match &cmd.short_description {
                Some(text) => text.clone(),
                None => String::new(),
            },
        }
    }

    /// Copies of the subcommands, in order and without their actions.
    pub fn get_available_cmds(&self) -> (cmds: Vec<Command>)
        ensures
            views(cmds@) == views(self.parts().sub_commands),
            forall|i: int| 0 <= i < cmds.len() ==> (#[trigger] cmds[i]).without_actions(),
    {
        match self {
            Command::Default { .. } => Vec::new(),
            Command::Flex(cmd) => clone_commands(&cmd.sub_commands),
        }
    }

    /// Copies of the positional arguments, in order.
    pub fn get_args(&self) -> (args: Vec<Arg>)
        ensures
            args@ == self.parts().args,
    {
        match self {
            Command::Default { .. } => Vec::new(),
            Command::Flex(cmd) => {
                let args = cmd.args.clone();
                assert(args@ =~= cmd.args@);
                args
            },
        }
    }

    /// Copies of the flags, in order.
    pub fn get_flags(&self) -> (flags: Vec<Flag>)
        ensures
            flags@ == self.parts().flags,
    {
        match self {
            Command::Default { .. } => Vec::new(),
            Command::Flex(cmd) => {
                let flags = cmd.flags.clone();
                assert(flags@ =~= cmd.flags@);
                flags
            },
        }
    }
}

impl Command {
    /// Turns the command into a configured one, if it is not one yet, and
    /// lets `f` change it.
    fn flex_with<F>(self, f: F) -> (cmd: Self) where F: FnOnce(&mut FlexCommand)
        requires
            forall|c: &mut FlexCommand| c.parts() == self.parts() ==> call_requires(f, (c,)),
        ensures
            exists|c: &mut FlexCommand|
                c.parts() == self.parts() && call_ensures(f, (c,), ()) && cmd == Command::Flex(
                    *final(c),
                ),
    {
        match self {
            Command::Default { name } => {
                let mut cmd = FlexCommand {
                    name,
                    short_description: None,
                    long_description: None,
                    action: None,
                    sub_commands: Vec::new(),
                    args: Vec::new(),
                    flags: Vec::new(),
                };
                assert(cmd.parts() == self.parts());
                f(&mut cmd);
                Command::Flex(cmd)
            },
            Command::Flex(cmd) => {
                let mut cmd = cmd;
                f(&mut cmd);
                Command::Flex(cmd)
            },
        }
    }

    /// Turns the command into a configured one in place, if it is not one
    /// yet, and lets `f` change it.
    fn flex_mut_with<F>(&mut self, f: F) where F: FnOnce(&mut FlexCommand)
        requires
            forall|c: &mut FlexCommand| c.parts() == old(self).parts() ==> call_requires(f, (c,)),
        ensures
            exists|c: &mut FlexCommand|
                c.parts() == old(self).parts() && call_ensures(f, (c,), ()) && *final(self)
                    == Command::Flex(*final(c)),
    {
        let mut taken = unnamed();
        core::mem::swap(self, &mut taken);
        *self = taken.flex_with(f);
    }
}

/// The operations that build a command up and run it. They are to be had on a
/// command itself, which they consume and return, and on a mutable reference
/// to one, which they change in place and return.
pub trait Flex: Sized {
    /// The command that is built.
    spec fn node(self) -> Command;

    /// Sets the short and the long description, in place of any that were set
    /// before.
    fn description(self, short: &str, long: &str) -> (built: Self)
        ensures
            built.node() is Flex,
            built.node().parts() == (Parts {
                short_description: Some(short@),
                long_description: Some(long@),
                ..self.node().parts()
            }),
    ;

    /// Adds `subcmd` after the subcommands that are there.
    fn subcommand(self, subcmd: Command) -> (built: Self)
        ensures
            built.node() is Flex,
            built.node().parts() == (Parts {
                sub_commands: self.node().parts().sub_commands.push(subcmd),
                ..self.node().parts()
            }),
    ;

    /// Sets the action, in place of any that was set before. The action does
    /// what `action` does, which must be callable with any arguments; where
    /// `action` fails, its failure is turned into a `RunError`.
    fn action<F, E>(self, action: F) -> (built: Self) where
        F: Fn(&[String]) -> Result<String, E> + 'static,
        E: Into<RunError> + 'static,

        requires
            forall|args: &[String]| call_requires(action, (args,)),
        ensures
            built.node() is Flex,
            built.node().parts() == (Parts {
                action: built.node().parts().action,
                ..self.node().parts()
            }),
            built.node().parts().action matches Some(set) && forall|
                args: Seq<String>,
                outcome: Result<String, RunError>,
            | #[trigger]
                set.yields(args, outcome) <==> exists|given: &[String], raw: Result<String, E>|
                    given@ == args && call_ensures(action, (given,), raw) && raised(raw, outcome),
    ;

    /// Adds `arg` after the positional arguments that are there.
    fn arg(self, arg: Arg) -> (built: Self)
        ensures
            built.node() is Flex,
            built.node().parts() == (Parts {
                args: self.node().parts().args.push(arg),
                ..self.node().parts()
            }),
    ;

    /// Adds `flag` after the flags that are there.
    fn flag(self, flag: Flag) -> (built: Self)
        ensures
            built.node() is Flex,
            built.node().parts() == (Parts {
                flags: self.node().parts().flags.push(flag),
                ..self.node().parts()
            }),
    ;

    /// Adds, after the subcommands that are there, a subcommand `help` that
    /// answers with the help page of the command as it stands at this call.
    fn help(self) -> (built: Self)
        ensures
            built.node() is Flex,
            built.node().parts() == (Parts {
                sub_commands: self.node().parts().sub_commands.push(
                    built.node().parts().sub_commands.last(),
                ),
                ..self.node().parts()
            }),
            is_help_command(built.node().parts().sub_commands.last(), self.node().page()),
    ;

    /// Dispatches `args`, the arguments that follow the command's name.
    fn run(&self, args: &[String]) -> (outcome: Result<String, RunError>)
        ensures
            self.node().route(args@).delivers(outcome),
    ;
}

impl Flex for Command {
    open spec fn node(self) -> Command {
        self
    }

    fn description(self, short: &str, long: &str) -> (built: Self) {
        let describe = |cmd: &mut FlexCommand| -> (done: ())
            ensures
                final(cmd).parts() == (Parts {
                    short_description: Some(short@),
                    long_description: Some(long@),
                    ..old(cmd).parts()
                }),
            {
                cmd.short_description = Some(String::from_str(short));
                cmd.long_description = Some(String::from_str(long));
            };
        self.flex_with(describe)
    }

    fn subcommand(self, subcmd: Command) -> (built: Self) {
        let attach = |cmd: &mut FlexCommand| -> (done: ())
            ensures
                final(cmd).parts() == (Parts {
                    sub_commands: old(cmd).parts().sub_commands.push(subcmd),
                    ..old(cmd).parts()
                }),
            {
                cmd.sub_commands.push(subcmd);
            };
        self.flex_with(attach)
    }

    fn action<F, E>(self, action: F) -> (built: Self) where
        F: Fn(&[String]) -> Result<String, E> + 'static,
        E: Into<RunError> + 'static,
    {
        let new_action = Action::new(action);
        let install = |cmd: &mut FlexCommand| -> (done: ())
            ensures
                final(cmd).parts() == (Parts { action: Some(new_action), ..old(cmd).parts() }),
            {
                cmd.action = Some(new_action);
            };
        self.flex_with(install)
    }

    fn arg(self, arg: Arg) -> (built: Self) {
        let declare = |cmd: &mut FlexCommand| -> (done: ())
            ensures
                final(cmd).parts() == (Parts {
                    args: old(cmd).parts().args.push(arg),
                    ..old(cmd).parts()
                }),
            {
                cmd.args.push(arg);
            };
        self.flex_with(declare)
    }

    fn flag(self, flag: Flag) -> (built: Self) {
        let declare = |cmd: &mut FlexCommand| -> (done: ())
            ensures
                final(cmd).parts() == (Parts {
                    flags: old(cmd).parts().flags.push(flag),
                    ..old(cmd).parts()
                }),
            {
                cmd.flags.push(flag);
            };
        self.flex_with(declare)
    }

    fn help(self) -> (built: Self) {
        let help_default = self.help_default();
        let attach = |cmd: &mut FlexCommand| -> (done: ())
            ensures
                final(cmd).parts() == (Parts {
                    sub_commands: old(cmd).parts().sub_commands.push(help_default),
                    ..old(cmd).parts()
                }),
            {
                cmd.sub_commands.push(help_default);
            };
        self.flex_with(attach)
    }

    fn run(&self, args: &[String]) -> (outcome: Result<String, RunError>) {
        run_command(self, args)
    }
}

impl Flex for &mut Command {
    open spec fn node(self) -> Command {
        *self
    }

    fn description(self, short: &str, long: &str) -> (built: Self)
        ensures
            *final(built) == *final(self),
    {
        let describe = |cmd: &mut FlexCommand| -> (done: ())
            ensures
                final(cmd).parts() == (Parts {
                    short_description: Some(short@),
                    long_description: Some(long@),
                    ..old(cmd).parts()
                }),
            {
                cmd.short_description = Some(String::from_str(short));
                cmd.long_description = Some(String::from_str(long));
            };
        self.flex_mut_with(describe);
        self
    }

    fn subcommand(self, subcmd: Command) -> (built: Self)
        ensures
            *final(built) == *final(self),
    {
        let attach = |cmd: &mut FlexCommand| -> (done: ())
            ensures
                final(cmd).parts() == (Parts {
                    sub_commands: old(cmd).parts().sub_commands.push(subcmd),
                    ..old(cmd).parts()
                }),
            {
                cmd.sub_commands.push(subcmd);
            };
        self.flex_mut_with(attach);
        self
    }

    fn action<F, E>(self, action: F) -> (built: Self) where
        F: Fn(&[String]) -> Result<String, E> + 'static,
        E: Into<RunError> + 'static,

        ensures
            *final(built) == *final(self),
    {
        let new_action = Action::new(action);
        let install = |cmd: &mut FlexCommand| -> (done: ())
            ensures
                final(cmd).parts() == (Parts { action: Some(new_action), ..old(cmd).parts() }),
            {
                cmd.action = Some(new_action);
            };
        self.flex_mut_with(install);
        self
    }

    fn arg(self, arg: Arg) -> (built: Self)
        ensures
            *final(built) == *final(self),
    {
        let declare = |cmd: &mut FlexCommand| -> (done: ())
            ensures
                final(cmd).parts() == (Parts {
                    args: old(cmd).parts().args.push(arg),
                    ..old(cmd).parts()
                }),
            {
                cmd.args.push(arg);
            };
        self.flex_mut_with(declare);
        self
    }

    fn flag(self, flag: Flag) -> (built: Self)
        ensures
            *final(built) == *final(self),
    {
        let declare = |cmd: &mut FlexCommand| -> (done: ())
            ensures
                final(cmd).parts() == (Parts {
                    flags: old(cmd).parts().flags.push(flag),
                    ..old(cmd).parts()
                }),
            {
                cmd.flags.push(flag);
            };
        self.flex_mut_with(declare);
        self
    }

    fn help(self) -> (built: Self)
        ensures
            *final(built) == *final(self),
    {
        let help_default = self.help_default();
        let attach = |cmd: &mut FlexCommand| -> (done: ())
            ensures
                final(cmd).parts() == (Parts {
                    sub_commands: old(cmd).parts().sub_commands.push(help_default),
                    ..old(cmd).parts()
                }),
            {
                cmd.sub_commands.push(help_default);
            };
        self.flex_mut_with(attach);
        self
    }

    fn run(&self, args: &[String]) -> (outcome: Result<String, RunError>) {
        run_command(self, args)
    }
}


} // verus!
