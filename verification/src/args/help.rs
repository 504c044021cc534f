//! Help pages: the text that a `help` command answers with.

use crate::args::action::Action;
use crate::args::arg::{arg_views, Arg, ArgView};
use crate::args::command::{views, Command, CommandView, FlexCommand};
use crate::args::flag::{flag_views, Flag, FlagView};
use crate::args::dispatch::{lemma_has_position, lemma_position, position, required_count};
use crate::error::RunError;
use crate::text::{
    joined, lemma_joined_holds_line, lemma_occurs_trimmed, lemma_occurs_within, occurs_in, pad,
    padded, trim, trimmed,
};
use vstd::prelude::*;
use vstd::string::*;

verus! {

/// A line that lists a command or an argument: the name in a column of
/// sixteen characters, then what is said of it.
pub open spec fn entry(name: Seq<char>, text: Seq<char>) -> Seq<char> {
    "  "@ + padded(name, 16) + " "@ + text + "\n"@
}

/// The line that lists a command: its name and its short description.
pub open spec fn command_entry(cmd: CommandView) -> Seq<char> {
    entry(cmd.name(), cmd.description())
}

/// The line that lists an argument: its name and whether it is required.
pub open spec fn arg_entry(arg: ArgView) -> Seq<char> {
    entry(
        arg.name,
        if arg.required {
            "(required)"@
        } else {
            "(optional)"@
        },
    )
}

/// The line that lists a flag: its name, its short name and its description.
pub open spec fn flag_entry(flag: FlagView) -> Seq<char> {
    "  --"@ + padded(flag.name, 14) + " -"@ + padded(flag.short, 7) + " "@ + flag.desc + "\n"@
}

/// The lines that list `cmds`, in order.
pub open spec fn command_listing(cmds: Seq<CommandView>) -> Seq<char> {
    joined(cmds.map_values(|cmd: CommandView| command_entry(cmd)))
}

/// The lines that list `args`, in order.
pub open spec fn arg_listing(args: Seq<ArgView>) -> Seq<char> {
    joined(args.map_values(|arg: ArgView| arg_entry(arg)))
}

/// The lines that list `flags`, in order.
pub open spec fn flag_listing(flags: Seq<FlagView>) -> Seq<char> {
    joined(flags.map_values(|flag: FlagView| flag_entry(flag)))
}

/// `text` and a blank line after it; nothing where `text` is empty.
pub open spec fn paragraph(text: Seq<char>) -> Seq<char> {
    if text.len() == 0 {
        Seq::empty()
    } else {
        text + "\n\n"@
    }
}

/// The help page of a command, before the white space around it is removed:
/// how to call it, its description, its subcommands, and its arguments and
/// flags where it has any.
pub open spec fn command_page_body(
    name: Seq<char>,
    description: Seq<char>,
    cmds: Seq<CommandView>,
    args: Seq<ArgView>,
    flags: Seq<FlagView>,
) -> Seq<char> {
    "Usage: flex "@ + name + " <subcommand> [<args>]\n"@ + paragraph(description)
        + "Available Subcommands:\n"@ + command_listing(cmds) + (if args.len() == 0 {
        Seq::empty()
    } else {
        "\nArguments:\n"@ + arg_listing(args)
    }) + (if flags.len() == 0 {
        Seq::empty()
    } else {
        "\nFlags:\n"@ + flag_listing(flags)
    })
}

/// The help page of a command.
pub open spec fn command_page(
    name: Seq<char>,
    description: Seq<char>,
    cmds: Seq<CommandView>,
    args: Seq<ArgView>,
    flags: Seq<FlagView>,
) -> Seq<char> {
    trimmed(command_page_body(name, description, cmds, args, flags))
}

/// The help page of an application, before the white space around it is
/// removed: how to call it, what it is about, and its commands where it has
/// any.
pub open spec fn app_page_body(name: Seq<char>, about: Seq<char>, cmds: Seq<CommandView>) -> Seq<
    char,
> {
    "Usage: "@ + name + " <command> [<args>]\n"@ + paragraph(about) + (if cmds.len() == 0 {
        Seq::empty()
    } else {
        "Available Commands:\n"@ + command_listing(cmds)
    })
}

/// The help page of an application.
pub open spec fn app_page(name: Seq<char>, about: Seq<char>, cmds: Seq<CommandView>) -> Seq<char> {
    trimmed(app_page_body(name, about, cmds))
}

/// Whether `cmd` is a help command that answers with `page`: it is called
/// `help`, holds nothing but its action, and that action answers every call
/// with `page`.
pub open spec fn is_help_command(cmd: Command, page: Seq<char>) -> bool {
    &&& cmd is Flex
    &&& cmd.parts().name == "help"@
    &&& cmd.parts().short_description is None
    &&& cmd.parts().long_description is None
    &&& cmd.parts().sub_commands.len() == 0
    &&& cmd.parts().args.len() == 0
    &&& cmd.parts().flags.len() == 0
    &&& cmd.parts().action matches Some(action) && action.always_answers(page)
}

impl Command {
    /// The help page of the command as it stands.
    pub open spec fn page(&self) -> Seq<char> {
        command_page(
            self.parts().name,
            self.parts().description(),
            views(self.parts().sub_commands),
            arg_views(self.parts().args),
            flag_views(self.parts().flags),
        )
    }
}

/// Adds to `out` a line that lists `name` with `text`.
fn push_entry(out: &mut String, name: &str, text: &str)
    ensures
        final(out)@ == old(out)@ + entry(name@, text@),
{
    out.append("  ");
    out.append(pad(name, 16).as_str());
    out.append(" ");
    out.append(text);
    out.append("\n");
    assert(out@ =~= old(out)@ + entry(name@, text@));
}

/// Adds to `out` the lines that list `cmds`.
fn push_commands(out: &mut String, cmds: &Vec<Command>)
    ensures
        final(out)@ == old(out)@ + command_listing(views(cmds@)),
{
    let ghost lines = views(cmds@).map_values(|cmd: CommandView| command_entry(cmd));
    let mut i: usize = 0;
    assert(out@ =~= old(out)@ + joined(lines.take(0)));
    while i < cmds.len()
        invariant
            i <= cmds.len(),
            lines == views(cmds@).map_values(|cmd: CommandView| command_entry(cmd)),
            out@ == old(out)@ + joined(lines.take(i as int)),
        decreases cmds.len() - i,
    {
        let cmd_name = cmds[i].get_cmd_name();
        let cmd_desc = cmds[i].get_cmd_description();
        push_entry(out, cmd_name.as_str(), cmd_desc.as_str());
        proof {
            let listed = lines.take(i + 1);
            assert(listed.drop_last() =~= lines.take(i as int));
            assert(cmds[i as int]@.name() == cmds[i as int].parts().name);
            assert(cmds[i as int]@.description() == cmds[i as int].parts().description());
            assert(listed.last() == command_entry(cmds[i as int]@));
            assert(out@ =~= old(out)@ + joined(listed));
        }
        i += 1;
    }
    assert(lines.take(i as int) =~= lines);
}

/// Adds to `out` the lines that list `args`.
fn push_args(out: &mut String, args: &Vec<Arg>)
    ensures
        final(out)@ == old(out)@ + arg_listing(arg_views(args@)),
{
    let ghost lines = arg_views(args@).map_values(|arg: ArgView| arg_entry(arg));
    let mut i: usize = 0;
    assert(out@ =~= old(out)@ + joined(lines.take(0)));
    while i < args.len()
        invariant
            i <= args.len(),
            lines == arg_views(args@).map_values(|arg: ArgView| arg_entry(arg)),
            out@ == old(out)@ + joined(lines.take(i as int)),
        decreases args.len() - i,
    {
        let arg = &args[i];
        push_entry(
            out,
            arg.name.as_str(),
            if arg.required {
                "(required)"
            } else {
                "(optional)"
            },
        );
        proof {
            let listed = lines.take(i + 1);
            assert(listed.drop_last() =~= lines.take(i as int));
            assert(listed.last() == arg_entry(args[i as int]@));
            assert(out@ =~= old(out)@ + joined(listed));
        }
        i += 1;
    }
    assert(lines.take(i as int) =~= lines);
}

/// Adds to `out` the lines that list `flags`.
fn push_flags(out: &mut String, flags: &Vec<Flag>)
    ensures
        final(out)@ == old(out)@ + flag_listing(flag_views(flags@)),
{
    let ghost lines = flag_views(flags@).map_values(|flag: FlagView| flag_entry(flag));
    let mut i: usize = 0;
    assert(out@ =~= old(out)@ + joined(lines.take(0)));
    while i < flags.len()
        invariant
            i <= flags.len(),
            lines == flag_views(flags@).map_values(|flag: FlagView| flag_entry(flag)),
            out@ == old(out)@ + joined(lines.take(i as int)),
        decreases flags.len() - i,
    {
        let flag = &flags[i];
        let ghost before = out@;
        out.append("  --");
        out.append(pad(flag.name.as_str(), 14).as_str());
        out.append(" -");
        out.append(pad(flag.short.as_str(), 7).as_str());
        out.append(" ");
        out.append(flag.desc.as_str());
        out.append("\n");
        proof {
            let listed = lines.take(i + 1);
            assert(listed.drop_last() =~= lines.take(i as int));
            assert(listed.last() == flag_entry(flags[i as int]@));
            assert(out@ =~= before + flag_entry(flags[i as int]@));
            assert(out@ =~= old(out)@ + joined(listed));
        }
        i += 1;
    }
    assert(lines.take(i as int) =~= lines);
}

/// Adds `text` and a blank line to `out`, where `text` is not empty.
fn push_paragraph(out: &mut String, text: &str)
    ensures
        final(out)@ == old(out)@ + paragraph(text@),
{
    if text.unicode_len() != 0 {
        out.append(text);
        out.append("\n\n");
        assert(out@ =~= old(out)@ + paragraph(text@));
    } else {
        assert(out@ =~= old(out)@ + paragraph(text@));
    }
}

/// Writes the help page of a command called `name`.
pub fn render_command_page(
    name: &str,
    description: &str,
    cmds: &Vec<Command>,
    args: &Vec<Arg>,
    flags: &Vec<Flag>,
) -> (page: String)
    ensures
        page@ == command_page(
            name@,
            description@,
            views(cmds@),
            arg_views(args@),
            flag_views(flags@),
        ),
{
    let mut output = String::from_str("Usage: flex ");
    output.append(name);
    output.append(" <subcommand> [<args>]\n");
    push_paragraph(&mut output, description);
    output.append("Available Subcommands:\n");
    push_commands(&mut output, cmds);
    if !args.is_empty() {
        output.append("\nArguments:\n");
        push_args(&mut output, args);
    }
    if !flags.is_empty() {
        output.append("\nFlags:\n");
        push_flags(&mut output, flags);
    }
    proof {
        let body = command_page_body(
            name@,
            description@,
            views(cmds@),
            arg_views(args@),
            flag_views(flags@),
        );
        assert(output@ =~= body);
    }
    trim(output.as_str())
}

/// Writes the help page of an application called `name`.
pub fn render_app_page(name: &str, about: &str, cmds: &Vec<Command>) -> (page: String)
    ensures
        page@ == app_page(name@, about@, views(cmds@)),
{
    let mut output = String::from_str("Usage: ");
    output.append(name);
    output.append(" <command> [<args>]\n");
    push_paragraph(&mut output, about);
    if !cmds.is_empty() {
        output.append("Available Commands:\n");
        push_commands(&mut output, cmds);
    }
    proof {
        assert(output@ =~= app_page_body(name@, about@, views(cmds@)));
    }
    trim(output.as_str())
}

impl Command {
    /// Makes the help command of this command as it stands: what it answers
    /// with is settled here, and is not touched by what the command is given
    /// afterwards.
    pub fn help_default(&self) -> (help: Command)
        ensures
            is_help_command(help, self.page()),
    {
        let cmd_name = self.get_cmd_name();
        let cmd_description = self.get_cmd_description();
        let available_commands = self.get_available_cmds();
        let args = self.get_args();
        let flags = self.get_flags();
        let answer = move |_args: &[String]| -> (outcome: Result<String, String>)
            ensures
                outcome matches Ok(s) && s@ == command_page(
                    cmd_name@,
                    cmd_description@,
                    views(available_commands@),
                    arg_views(args@),
                    flag_views(flags@),
                ),
            {
                Ok(
                    render_command_page(
                        cmd_name.as_str(),
                        cmd_description.as_str(),
                        &available_commands,
                        &args,
                        &flags,
                    ),
                )
            };
        Command::flex(
            FlexCommand {
                name: String::from_str("help"),
                short_description: None,
                long_description: None,
                action: Some(Action::new(answer)),
                sub_commands: Vec::new(),
                args: Vec::new(),
                flags: Vec::new(),
            },
        )
    }
}

/// What a command holds when its help page is made is listed on the page:
/// each subcommand, each argument and each flag has its line there, without
/// the white space around the line.
pub proof fn lemma_page_lists_what_is_declared(
    name: Seq<char>,
    description: Seq<char>,
    cmds: Seq<CommandView>,
    args: Seq<ArgView>,
    flags: Seq<FlagView>,
)
    ensures
        forall|i: int|
            0 <= i < cmds.len() ==> occurs_in(
                trimmed(command_entry(#[trigger] cmds[i])),
                command_page(name, description, cmds, args, flags),
            ),
        forall|i: int|
            0 <= i < args.len() ==> occurs_in(
                trimmed(arg_entry(#[trigger] args[i])),
                command_page(name, description, cmds, args, flags),
            ),
        forall|i: int|
            0 <= i < flags.len() ==> occurs_in(
                trimmed(flag_entry(#[trigger] flags[i])),
                command_page(name, description, cmds, args, flags),
            ),
{
    let body = command_page_body(name, description, cmds, args, flags);
    let head = "Usage: flex "@ + name + " <subcommand> [<args>]\n"@ + paragraph(description)
        + "Available Subcommands:\n"@;
    let args_part = if args.len() == 0 {
        Seq::empty()
    } else {
        "\nArguments:\n"@ + arg_listing(args)
    };
    let flags_part = if flags.len() == 0 {
        Seq::empty()
    } else {
        "\nFlags:\n"@ + flag_listing(flags)
    };
    assert forall|i: int| 0 <= i < cmds.len() implies occurs_in(
        trimmed(command_entry(#[trigger] cmds[i])),
        trimmed(body),
    ) by {
        let lines = cmds.map_values(|cmd: CommandView| command_entry(cmd));
        lemma_joined_holds_line(lines, i);
        lemma_occurs_within(lines[i], head, joined(lines), args_part + flags_part);
        assert(head + joined(lines) + (args_part + flags_part) =~= body);
        lemma_occurs_trimmed(command_entry(cmds[i]), body);
    }
    assert forall|i: int| 0 <= i < args.len() implies occurs_in(
        trimmed(arg_entry(#[trigger] args[i])),
        trimmed(body),
    ) by {
        let lines = args.map_values(|arg: ArgView| arg_entry(arg));
        lemma_joined_holds_line(lines, i);
        lemma_occurs_within(
            lines[i],
            head + command_listing(cmds) + "\nArguments:\n"@,
            joined(lines),
            flags_part,
        );
        assert(head + command_listing(cmds) + "\nArguments:\n"@ + joined(lines) + flags_part
            =~= body);
        lemma_occurs_trimmed(arg_entry(args[i]), body);
    }
    assert forall|i: int| 0 <= i < flags.len() implies occurs_in(
        trimmed(flag_entry(#[trigger] flags[i])),
        trimmed(body),
    ) by {
        let lines = flags.map_values(|flag: FlagView| flag_entry(flag));
        lemma_joined_holds_line(lines, i);
        lemma_occurs_within(
            lines[i],
            head + command_listing(cmds) + args_part + "\nFlags:\n"@,
            joined(lines),
            Seq::empty(),
        );
        assert(head + command_listing(cmds) + args_part + "\nFlags:\n"@ + joined(lines)
            + Seq::<char>::empty() =~= body);
        lemma_occurs_trimmed(flag_entry(flags[i]), body);
    }
}

/// The commands that an application holds when its help page is made are
/// listed on the page: each has its line there, without the white space
/// around the line.
pub proof fn lemma_app_page_lists_commands(
    name: Seq<char>,
    about: Seq<char>,
    cmds: Seq<CommandView>,
)
    ensures
        forall|i: int|
            0 <= i < cmds.len() ==> occurs_in(
                trimmed(command_entry(#[trigger] cmds[i])),
                app_page(name, about, cmds),
            ),
{
    let body = app_page_body(name, about, cmds);
    assert forall|i: int| 0 <= i < cmds.len() implies occurs_in(
        trimmed(command_entry(#[trigger] cmds[i])),
        trimmed(body),
    ) by {
        let lines = cmds.map_values(|cmd: CommandView| command_entry(cmd));
        lemma_joined_holds_line(lines, i);
        lemma_occurs_within(
            lines[i],
            "Usage: "@ + name + " <command> [<args>]\n"@ + paragraph(about)
                + "Available Commands:\n"@,
            joined(lines),
            Seq::empty(),
        );
        assert("Usage: "@ + name + " <command> [<args>]\n"@ + paragraph(about)
            + "Available Commands:\n"@ + joined(lines) + Seq::<char>::empty() =~= body);
        lemma_occurs_trimmed(command_entry(cmds[i]), body);
    }
}

/// A help page is a snapshot. Let `helped` be `before` with its help
/// command, and `later` what `helped` has become since, its subcommands still
/// in their places. Then the help command stands where it stood and answers
/// with the page of `before`, whatever `later` holds besides.
pub proof fn lemma_help_is_a_snapshot(before: Command, helped: Command, later: Command)
    requires
        helped.parts().sub_commands == before.parts().sub_commands.push(
            helped.parts().sub_commands.last(),
        ),
        is_help_command(helped.parts().sub_commands.last(), before.page()),
        helped.parts().sub_commands.is_prefix_of(later.parts().sub_commands),
    ensures
        is_help_command(
            later.parts().sub_commands[before.parts().sub_commands.len() as int],
            before.page(),
        ),
{
    let at = before.parts().sub_commands.len() as int;
    assert(later.parts().sub_commands[at] == helped.parts().sub_commands[at]);
}

/// A call without arguments of a command that was given a help command is
/// answered with the page that was made then. Here `before` is the command
/// when its help command was made, without a subcommand `help` until then,
/// and `later` is what it has become since, its subcommands still in their
/// places; if `later` has an action, it requires no argument.
pub proof fn lemma_help_answers_with_snapshot(
    before: Command,
    helped: Command,
    later: Command,
    outcome: Result<String, RunError>,
)
    requires
        helped.parts().sub_commands == before.parts().sub_commands.push(
            helped.parts().sub_commands.last(),
        ),
        is_help_command(helped.parts().sub_commands.last(), before.page()),
        helped.parts().sub_commands.is_prefix_of(later.parts().sub_commands),
        position(before.parts().sub_commands, "help"@) is None,
        later.parts().action is Some ==> required_count(later.parts().args) == 0,
        later.route(Seq::empty()).delivers(outcome),
    ensures
        outcome matches Ok(page) && page@ == before.page(),
{
    let at = before.parts().sub_commands.len() as int;
    let subs = later.parts().sub_commands;
    let help = subs[at];
    assert(help == helped.parts().sub_commands[at]);
    assert forall|j: int| 0 <= j < at implies (#[trigger] subs[j]).parts().name != "help"@ by {
        assert(subs[j] == helped.parts().sub_commands[j]);
        assert(subs[j] == before.parts().sub_commands[j]);
        if subs[j].parts().name == "help"@ {
            lemma_has_position(before.parts().sub_commands, "help"@, j);
        }
    }
    lemma_position(subs, "help"@, at);
    assert(required_count(help.parts().args) == 0) by {
        reveal(Seq::filter);
    }
    assert(later.route(Seq::empty()) == help.route(Seq::empty()));
}

} // verus!
