//! Dispatch: from a command and the arguments that follow its name to the
//! action that runs, the text that is answered or the error that is raised.

use crate::args::action::Action;
use crate::args::arg::Arg;
use crate::args::command::{Command, CommandError, CommandErrorView};
use crate::error::{RunError, RunErrorView};
use crate::text::{
    decimal, decimal_string, lemma_occurs_in_itself, lemma_occurs_within, occurs_in,
};
use vstd::prelude::*;
use vstd::string::*;

verus! {

/// What dispatch settles on.
pub enum Route {
    /// The call fails with this error, and no action runs.
    Reject(RunErrorView),
    /// The call is answered with this text, and no action runs.
    Reply(Seq<char>),
    /// This action runs with these arguments, and what it yields is handed
    /// on: its text, or its failure.
    Invoke(Action, Seq<String>),
}

impl Route {
    /// Whether `outcome` is a result that a call may have when dispatch has
    /// settled on this route.
    pub open spec fn delivers(self, outcome: Result<String, RunError>) -> bool {
        match self {
            Route::Reject(error) => outcome matches Err(e) && e@ == error,
            Route::Reply(text) => outcome matches Ok(s) && s@ == text,
            Route::Invoke(action, args) => action.yields(args, outcome),
        }
    }
}

/// Whether `i` is the first place in `cmds` at which a command called `name`
/// stands.
pub open spec fn first_named_at(cmds: Seq<Command>, name: Seq<char>, i: int) -> bool {
    &&& 0 <= i < cmds.len()
    &&& cmds[i].parts().name == name
    &&& forall|j: int| 0 <= j < i ==> (#[trigger] cmds[j]).parts().name != name
}

/// The first place in `cmds` at which a command called `name` stands, if
/// there is one. Among commands of one name the first that was added wins.
pub open spec fn position(cmds: Seq<Command>, name: Seq<char>) -> Option<int> {
    if exists|i: int| first_named_at(cmds, name, i) {
        Some(choose|i: int| first_named_at(cmds, name, i))
    } else {
        None
    }
}

/// How many of `args` are required.
pub open spec fn required_count(args: Seq<Arg>) -> nat {
    args.filter(|a: Arg| a.required).len()
}

/// What a command called `name` answers when it has neither an action nor
/// subcommands.
pub open spec fn default_message(name: Seq<char>) -> Seq<char> {
    "Command '"@ + name
        + "' called (default). Use action() to customize or help() to add a help subcommand."@
}

/// What a command called `name` says when it requires `required` arguments
/// and was given `given`.
pub open spec fn arity_message(name: Seq<char>, required: nat, given: nat) -> Seq<char> {
    "Command '"@ + name + "' requires "@ + decimal(required) + " arguments, got "@ + decimal(given)
}

impl Command {
    /// What dispatch settles on for this command and the arguments `args`
    /// that follow its name.
    ///
    /// A command with an action first checks that `args` holds at least as
    /// many arguments as it requires. A command with subcommands then hands
    /// the call down: without arguments to its subcommand `help`, else to the
    /// subcommand that the first argument names, with the arguments after
    /// it. What is not handed down goes to the command's own action, and a
    /// command with neither action nor subcommands answers with its default
    /// message.
    pub open spec fn route(&self, args: Seq<String>) -> Route
        decreases self,
    {
        let parts = self.parts();
        if parts.action is Some && args.len() < required_count(parts.args) {
            Route::Reject(
                RunErrorView::Command(
                    CommandErrorView::InvalidArgument(
                        arity_message(parts.name, required_count(parts.args), args.len()),
                    ),
                ),
            )
        } else if parts.sub_commands.len() > 0 && args.len() == 0 {
            match position(parts.sub_commands, "help"@) {
                Some(i) => parts.sub_commands[i].route(args),
                None => Route::Reject(
                    RunErrorView::Command(CommandErrorView::MissingSubcommand(parts.name)),
                ),
            }
        } else if parts.sub_commands.len() > 0 && position(parts.sub_commands, args[0]@) is Some {
            parts.sub_commands[position(parts.sub_commands, args[0]@)->0].route(args.skip(1))
        } else if parts.sub_commands.len() > 0 && parts.action is None {
            Route::Reject(RunErrorView::Command(CommandErrorView::InvalidCommand(args[0]@)))
        } else {
            match parts.action {
                Some(action) => Route::Invoke(action, args),
                None => Route::Reply(default_message(parts.name)),
            }
        }
    }
}

/// At most one place is the first at which a command of a given name stands,
/// and `position` names it.
pub proof fn lemma_position(cmds: Seq<Command>, name: Seq<char>, i: int)
    requires
        first_named_at(cmds, name, i),
    ensures
        position(cmds, name) == Some(i),
{
    let k = choose|k: int| first_named_at(cmds, name, k);
    if k < i {
        assert(cmds[k].parts().name != name);
    } else if i < k {
        assert(cmds[i].parts().name != name);
    }
}

/// Where a command called `name` stands in `cmds`, there is a first place at
/// which one stands.
pub proof fn lemma_has_position(cmds: Seq<Command>, name: Seq<char>, i: int)
    requires
        0 <= i < cmds.len(),
        cmds[i].parts().name == name,
    ensures
        position(cmds, name) matches Some(first) && first_named_at(cmds, name, first) && first
            <= i,
    decreases i,
{
    if exists|j: int| 0 <= j < i && (#[trigger] cmds[j]).parts().name == name {
        let j = choose|j: int| 0 <= j < i && (#[trigger] cmds[j]).parts().name == name;
        lemma_has_position(cmds, name, j);
    } else {
        assert(first_named_at(cmds, name, i));
        lemma_position(cmds, name, i);
    }
}

/// No command in `cmds` is called `name`.
pub proof fn lemma_no_position(cmds: Seq<Command>, name: Seq<char>)
    requires
        forall|j: int| 0 <= j < cmds.len() ==> (#[trigger] cmds[j]).parts().name != name,
    ensures
        position(cmds, name) is None,
{
}

/// Looks for the first command in `cmds` that is called `name`.
pub fn find_command(cmds: &Vec<Command>, name: &str) -> (found: Option<usize>)
    ensures
        match found {
            Some(i) => position(cmds@, name@) == Some(i as int),
            None => position(cmds@, name@) is None,
        },
{
    let wanted = String::from_str(name);
    let mut i: usize = 0;
    while i < cmds.len()
        invariant
            i <= cmds.len(),
            wanted@ == name@,
            forall|j: int| 0 <= j < i ==> (#[trigger] cmds[j]).parts().name != name@,
        decreases cmds.len() - i,
    {
        if cmds[i].get_cmd_name() == wanted {
            proof {
                lemma_position(cmds@, name@, i as int);
            }
            return Some(i);
        }
        i += 1;
    }
    proof {
        lemma_no_position(cmds@, name@);
    }
    None
}

/// Counts the required arguments among `args`.
pub fn count_required(args: &Vec<Arg>) -> (count: usize)
    ensures
        count == required_count(args@),
{
    let mut count: usize = 0;
    let mut i: usize = 0;
    while i < args.len()
        invariant
            i <= args.len(),
            count <= i,
            count == required_count(args@.take(i as int)),
        decreases args.len() - i,
    {
        proof {
            let next = args@.take(i + 1);
            assert(next.drop_last() =~= args@.take(i as int));
            reveal(Seq::filter);
        }
        if args[i].required {
            count += 1;
        }
        i += 1;
    }
    assert(args@.take(i as int) =~= args@);
    count
}

/// Words the answer of a command called `name` that has neither an action
/// nor subcommands.
fn default_message_for(name: &str) -> (text: String)
    ensures
        text@ == default_message(name@),
{
    let mut text = String::from_str("Command '");
    text.append(name);
    text.append(
        "' called (default). Use action() to customize or help() to add a help subcommand.",
    );
    text
}

/// Words the failure of a command called `name` that requires `required`
/// arguments and was given `given`.
fn arity_message_for(name: &str, required: usize, given: usize) -> (text: String)
    ensures
        text@ == arity_message(name@, required as nat, given as nat),
{
    let mut text = String::from_str("Command '");
    text.append(name);
    text.append("' requires ");
    text.append(decimal_string(required).as_str());
    text.append(" arguments, got ");
    text.append(decimal_string(given).as_str());
    text
}

/// Dispatches `args` on `cmd`: runs the action that they lead to and hands
/// on what it returns, or answers or fails in its place.
pub fn run_command(cmd: &Command, args: &[String]) -> (outcome: Result<String, RunError>)
    ensures
        cmd.route(args@).delivers(outcome),
    decreases cmd,
{
    match cmd {
        Command::Default { name } => Ok(default_message_for(name.as_str())),
        Command::Flex(flex_cmd) => {
            proof {
                assert(decreases_to!(cmd => cmd->Flex_0));
            }
            if flex_cmd.action.is_some() {
                let required_args = count_required(&flex_cmd.args);
                if args.len() < required_args {
                    return Err(
                        RunError::Command(
                            CommandError::InvalidArgument(
                                arity_message_for(
                                    flex_cmd.name.as_str(),
                                    required_args,
                                    args.len(),
                                ),
                            ),
                        ),
                    );
                }
            }
            if !flex_cmd.sub_commands.is_empty() {
                if args.is_empty() {
                    return match find_command(&flex_cmd.sub_commands, "help") {
                        Some(i) => run_command(&flex_cmd.sub_commands[i], args),
                        None => Err(
                            RunError::Command(
                                CommandError::MissingSubcommand(flex_cmd.name.clone()),
                            ),
                        ),
                    };
                }
                let sub_command = &args[0];
                let sub_command_args = &args[1..args.len()];
                assert(sub_command_args@ =~= args@.skip(1));
                if let Some(i) = find_command(&flex_cmd.sub_commands, sub_command.as_str()) {
                    return run_command(&flex_cmd.sub_commands[i], sub_command_args);
                }
                if flex_cmd.action.is_none() {
                    return Err(
                        RunError::Command(CommandError::InvalidCommand(sub_command.clone())),
                    );
                }
            }
            if let Some(action) = &flex_cmd.action {
                return action.invoke(args);
            }
            // Without an action the call gets here only where there are no
            // subcommands, so this search finds nothing.
            if let Some(i) = find_command(&flex_cmd.sub_commands, "help") {
                return run_command(&flex_cmd.sub_commands[i], args);
            }
            Ok(default_message_for(flex_cmd.name.as_str()))
        },
    }
}

/// Dispatch looks at nothing but what a command is made of. So a command
/// that is only a name and a configured command with that name and nothing
/// else are dispatched alike.
pub proof fn lemma_route_goes_by_parts(a: Command, b: Command, args: Seq<String>)
    requires
        a.parts() == b.parts(),
    ensures
        a.route(args) == b.route(args),
{
}

/// A command that is only a name answers every call with its default
/// message, in which its name stands; it never fails.
pub proof fn lemma_bare_command_answers(cmd: Command, args: Seq<String>)
    requires
        cmd is Default,
    ensures
        cmd.route(args) == Route::Reply(default_message(cmd.parts().name)),
        occurs_in(cmd.parts().name, default_message(cmd.parts().name)),
{
    let name = cmd.parts().name;
    lemma_occurs_in_itself(name);
    lemma_occurs_within(
        name,
        "Command '"@,
        name,
        "' called (default). Use action() to customize or help() to add a help subcommand."@,
    );
}

/// A command with an action fails with `InvalidArgument` whenever it is
/// given fewer arguments than it requires, whether or not it has
/// subcommands.
pub proof fn lemma_too_few_arguments(cmd: Command, args: Seq<String>)
    requires
        cmd.parts().action is Some,
        args.len() < required_count(cmd.parts().args),
    ensures
        cmd.route(args) == Route::Reject(
            RunErrorView::Command(
                CommandErrorView::InvalidArgument(
                    arity_message(
                        cmd.parts().name,
                        required_count(cmd.parts().args),
                        args.len(),
                    ),
                ),
            ),
        ),
{
}

/// A first argument that names a subcommand hands the call to the first
/// subcommand of that name, with the arguments after it, also where the
/// command has an action of its own. Only the check of the required
/// arguments of a command with an action comes before that.
pub proof fn lemma_subcommand_comes_first(cmd: Command, args: Seq<String>, i: int)
    requires
        args.len() > 0,
        first_named_at(cmd.parts().sub_commands, args[0]@, i),
        cmd.parts().action is Some ==> args.len() >= required_count(cmd.parts().args),
    ensures
        cmd.route(args) == cmd.parts().sub_commands[i].route(args.skip(1)),
{
    lemma_position(cmd.parts().sub_commands, args[0]@, i);
}

/// The errors that the dispatch on a command raises are those of commands.
pub proof fn lemma_command_errors(cmd: Command, args: Seq<String>)
    ensures
        cmd.route(args) matches Route::Reject(error) ==> error is Command,
    decreases cmd,
{
    let parts = cmd.parts();
    if parts.sub_commands.len() > 0 {
        assert(cmd is Flex);
        assert(decreases_to!(cmd => cmd->Flex_0));
        if args.len() == 0 {
            if let Some(i) = position(parts.sub_commands, "help"@) {
                lemma_command_errors(parts.sub_commands[i], args);
            }
        } else if let Some(i) = position(parts.sub_commands, args[0]@) {
            lemma_command_errors(parts.sub_commands[i], args.skip(1));
        }
    }
}

} // verus!
