use flex::app::{App, AppError};
use flex::args::arg::Arg;
use flex::args::command::{Command, CommandError, Flex, FlexCommand};
use flex::args::dispatch::{count_required, find_command, run_command};
use flex::error::{relay, RunError};

fn words(items: &[&str]) -> Vec<String> {
    items.iter().map(|s| s.to_string()).collect()
}

fn echo(args: &[String]) -> Result<String, String> {
    Ok(format!("got {}", args.join(",")))
}

fn default_text(name: &str) -> String {
    format!(
        "Command '{}' called (default). Use action() to customize or help() to add a help subcommand.",
        name
    )
}

#[test]
fn bare_command_answers_with_its_default_message() {
    let cmd = Command::default("start");
    assert_eq!(cmd.run(&[]), Ok(default_text("start")));
    assert_eq!(cmd.run(&words(&["a", "b"])), Ok(default_text("start")));
    assert!(cmd.run(&[]).unwrap().contains("'start'"));
}

#[test]
fn bare_and_configured_commands_of_one_name_run_alike() {
    let bare = Command::default("stop");
    let full = Command::flex(FlexCommand {
        name: "stop".to_string(),
        ..Default::default()
    });
    assert_eq!(bare.run(&[]), full.run(&[]));
    assert_eq!(bare.run(&words(&["x"])), full.run(&words(&["x"])));
    assert_eq!(full.run(&[]), Ok(default_text("stop")));
}

#[test]
fn too_few_arguments_are_refused() {
    let cmd = Command::default("copy")
        .arg(Arg::new("from").required())
        .arg(Arg::new("note"))
        .arg(Arg::new("to").required())
        .action(echo);
    assert_eq!(
        cmd.run(&words(&["a"])),
        Err(RunError::Command(CommandError::InvalidArgument(
            "Command 'copy' requires 2 arguments, got 1".to_string()
        )))
    );
    assert_eq!(
        cmd.run(&[]),
        Err(RunError::Command(CommandError::InvalidArgument(
            "Command 'copy' requires 2 arguments, got 0".to_string()
        )))
    );
    assert_eq!(cmd.run(&words(&["a", "b"])), Ok("got a,b".to_string()));
    assert_eq!(cmd.run(&words(&["a", "b", "c", "d"])), Ok("got a,b,c,d".to_string()));
}

#[test]
fn too_few_arguments_are_refused_before_subcommands_are_looked_at() {
    let cmd = Command::default("copy")
        .arg(Arg::new("from").required())
        .arg(Arg::new("to").required())
        .action(echo)
        .subcommand(Command::default("fast").action(|_: &[String]| -> Result<String, String> { Ok("fast".to_string()) }))
        .help();
    assert_eq!(
        cmd.run(&words(&["fast"])),
        Err(RunError::Command(CommandError::InvalidArgument(
            "Command 'copy' requires 2 arguments, got 1".to_string()
        )))
    );
    assert_eq!(
        cmd.run(&[]),
        Err(RunError::Command(CommandError::InvalidArgument(
            "Command 'copy' requires 2 arguments, got 0".to_string()
        )))
    );
    assert_eq!(cmd.run(&words(&["fast", "x"])), Ok("fast".to_string()));
}

#[test]
fn duplicate_arguments_both_count() {
    let cmd = Command::default("pair")
        .arg(Arg::new("item").required())
        .arg(Arg::new("item").required())
        .action(echo);
    assert_eq!(count_required(&cmd.get_args()), 2);
    assert!(cmd.run(&words(&["one"])).is_err());
    assert_eq!(cmd.run(&words(&["one", "two"])), Ok("got one,two".to_string()));
}

#[test]
fn required_arguments_do_not_count_without_an_action() {
    let cmd = Command::default("idle").arg(Arg::new("path").required());
    assert_eq!(cmd.run(&[]), Ok(default_text("idle")));
}

#[test]
fn a_named_subcommand_comes_before_the_action() {
    let cmd = Command::default("parent")
        .action(|_: &[String]| -> Result<String, String> { Ok("parent".to_string()) })
        .subcommand(Command::default("child").action(echo));
    assert_eq!(cmd.run(&words(&["child", "x", "y"])), Ok("got x,y".to_string()));
    assert_eq!(cmd.run(&words(&["child"])), Ok("got ".to_string()));
    assert_eq!(cmd.run(&words(&["other", "x"])), Ok("parent".to_string()));
}

#[test]
fn an_unmatched_argument_goes_to_the_action_with_the_rest() {
    let cmd = Command::default("parent")
        .action(echo)
        .subcommand(Command::default("child"));
    assert_eq!(cmd.run(&words(&["other", "x"])), Ok("got other,x".to_string()));
}

#[test]
fn the_first_of_two_subcommands_of_one_name_wins() {
    let cmd = Command::default("parent")
        .subcommand(Command::default("twin").action(|_: &[String]| -> Result<String, String> { Ok("first".to_string()) }))
        .subcommand(Command::default("twin").action(|_: &[String]| -> Result<String, String> { Ok("second".to_string()) }));
    assert_eq!(cmd.run(&words(&["twin"])), Ok("first".to_string()));
    assert_eq!(find_command(&cmd.get_available_cmds(), "twin"), Some(0));
    assert_eq!(find_command(&cmd.get_available_cmds(), "none"), None);
}

#[test]
fn dispatch_goes_down_more_than_one_level() {
    let cmd = Command::default("a").subcommand(
        Command::default("b").subcommand(Command::default("c").action(echo)),
    );
    assert_eq!(cmd.run(&words(&["b", "c", "d"])), Ok("got d".to_string()));
    assert_eq!(
        cmd.run(&words(&["b", "x"])),
        Err(RunError::Command(CommandError::InvalidCommand("x".to_string())))
    );
    assert_eq!(
        cmd.run(&words(&["b"])),
        Err(RunError::Command(CommandError::MissingSubcommand("b".to_string())))
    );
}

#[test]
fn a_command_with_subcommands_needs_one() {
    let cmd = Command::default("repo").subcommand(Command::default("add"));
    assert_eq!(
        cmd.run(&[]),
        Err(RunError::Command(CommandError::MissingSubcommand("repo".to_string())))
    );
    let with_action = Command::default("repo")
        .action(echo)
        .subcommand(Command::default("add"));
    assert_eq!(
        with_action.run(&[]),
        Err(RunError::Command(CommandError::MissingSubcommand("repo".to_string())))
    );
}

#[test]
fn without_arguments_the_help_subcommand_runs() {
    let cmd = Command::default("repo")
        .subcommand(Command::default("add"))
        .subcommand(Command::default("help").action(|args: &[String]| -> Result<String, String> { Ok(format!("help {}", args.len())) }));
    assert_eq!(cmd.run(&[]), Ok("help 0".to_string()));
    assert_eq!(cmd.run(&words(&["help", "x"])), Ok("help 1".to_string()));
}

#[test]
fn a_failing_action_hands_its_message_on() {
    let cmd = Command::default("fail").action(|_: &[String]| -> Result<String, String> { Err("no luck".to_string()) });
    let outcome = cmd.run(&[]);
    assert_eq!(outcome, Err(RunError::Action("no luck".to_string())));
    assert_eq!(outcome.unwrap_err().message(), "no luck");
}

#[test]
fn relay_turns_the_failure_of_an_action_into_a_run_error() {
    assert_eq!(relay::<String>(Ok("fine".to_string())), Ok("fine".to_string()));
    assert_eq!(relay(Err("bad".to_string())), Err(RunError::Action("bad".to_string())));
    assert_eq!(
        relay(Err(CommandError::InvalidArgument("bad".to_string()))),
        Err(RunError::Command(CommandError::InvalidArgument("bad".to_string())))
    );
    assert_eq!(
        relay(Err(AppError::MissingCommand)),
        Err(RunError::App(AppError::MissingCommand))
    );
    assert_eq!(
        relay(Err(RunError::Action("as it is".to_string()))),
        Err(RunError::Action("as it is".to_string()))
    );
}

#[test]
fn an_action_may_fail_with_an_error_of_the_library() {
    let cmd = Command::default("strict").action(|args: &[String]| -> Result<String, CommandError> {
        match args.first() {
            Some(first) => Ok(first.clone()),
            None => Err(CommandError::InvalidConfiguration("nothing to do".to_string())),
        }
    });
    assert_eq!(cmd.run(&words(&["x"])), Ok("x".to_string()));
    let outcome = cmd.run(&[]);
    assert_eq!(
        outcome,
        Err(RunError::Command(CommandError::InvalidConfiguration(
            "nothing to do".to_string()
        )))
    );
    assert_eq!(outcome.unwrap_err().message(), "Invalid configuration: nothing to do");

    let app = App::new("flex").add_command(
        Command::default("deny")
            .action(|_: &[String]| -> Result<String, AppError> { Err(AppError::MissingCommand) }),
    );
    assert_eq!(
        app.run(&words(&["deny"])),
        Err(RunError::App(AppError::MissingCommand))
    );
}

struct Refusal {
    code: u32,
}

impl From<Refusal> for RunError {
    fn from(refusal: Refusal) -> RunError {
        RunError::Action(format!("refused with code {}", refusal.code))
    }
}

#[test]
fn an_action_may_fail_with_an_error_of_its_own() {
    let cmd = Command::default("refuse")
        .action(|_: &[String]| -> Result<String, Refusal> { Err(Refusal { code: 7 }) });
    assert_eq!(
        cmd.run(&[]),
        Err(RunError::Action("refused with code 7".to_string()))
    );
}

#[test]
fn run_command_is_what_run_does() {
    let cmd = Command::default("x").subcommand(Command::default("y").action(echo));
    let args = words(&["y", "z"]);
    assert_eq!(run_command(&cmd, &args), cmd.run(&args));
    assert_eq!(run_command(&cmd, &args), Ok("got z".to_string()));
}

#[test]
fn application_runs_the_named_command() {
    let app = App::new("flex").add_command(Command::default("init").action(|_: &[String]| -> Result<String, String> { Ok("init ok".to_string()) }));
    assert_eq!(app.run(&words(&["init"])), Ok("init ok".to_string()));
}

#[test]
fn application_hands_the_rest_of_the_arguments_down() {
    let app = App::new("flex").add_command(Command::default("say").action(echo));
    assert_eq!(app.run(&words(&["say", "a", "b"])), Ok("got a,b".to_string()));
}

#[test]
fn validate_refuses_an_unknown_subcommand() {
    let validate = Command::default("validate")
        .subcommand(Command::default("email"))
        .subcommand(Command::default("repo"))
        .help();
    assert_eq!(
        validate.run(&words(&["bogus"])),
        Err(RunError::Command(CommandError::InvalidCommand("bogus".to_string())))
    );
    assert_eq!(
        validate.run(&words(&["bogus"])).unwrap_err().message(),
        "Unknown subcommand: bogus"
    );
}

#[test]
fn validate_with_an_action_takes_an_unknown_subcommand_as_argument() {
    let validate = Command::default("validate")
        .action(echo)
        .subcommand(Command::default("email"))
        .subcommand(Command::default("repo"))
        .help();
    assert_eq!(validate.run(&words(&["bogus"])), Ok("got bogus".to_string()));
}

#[test]
fn repo_add_requires_a_path() {
    let repo = Command::default("repo").subcommand(
        Command::default("add")
            .arg(Arg::new("path").required())
            .action(|args: &[String]| -> Result<String, String> { Ok(format!("added {}", args[0])) }),
    );
    assert_eq!(
        repo.run(&words(&["add"])),
        Err(RunError::Command(CommandError::InvalidArgument(
            "Command 'add' requires 1 arguments, got 0".to_string()
        )))
    );
    assert_eq!(repo.run(&words(&["add", "/tmp/x"])), Ok("added /tmp/x".to_string()));
}

#[test]
fn application_without_help_cannot_answer_an_empty_call() {
    let app = App::new("flex").add_command(Command::default("init"));
    let expected = Err(RunError::App(AppError::InvalidConfiguration(
        "No help command defined. Add with `.help()`".to_string(),
    )));
    assert_eq!(app.run(&[]), expected);
    assert_eq!(app.run(&words(&["help"])), expected);
    assert_eq!(app.run(&words(&["help", "init"])), expected);
}

#[test]
fn application_treats_help_and_the_empty_call_alike() {
    let app = App::new("flex")
        .about("does things")
        .add_command(Command::default("init"))
        .help();
    let page = app.run(&[]);
    assert!(page.is_ok());
    assert_eq!(app.run(&words(&["help"])), page);
    assert_eq!(app.run(&words(&["help", "init"])), page);
}

#[test]
fn application_refuses_an_unknown_command() {
    let app = App::new("flex").add_command(Command::default("init")).help();
    assert_eq!(
        app.run(&words(&["bogus", "x"])),
        Err(RunError::App(AppError::InvalidCommand("bogus".to_string())))
    );
}

#[test]
fn each_error_has_its_message() {
    assert_eq!(AppError::MissingCommand.message(), "No command provided");
    assert_eq!(
        AppError::InvalidCommand("x".to_string()).message(),
        "Unknown Command Provided: x"
    );
    assert_eq!(
        AppError::InvalidConfiguration("why".to_string()).message(),
        "Invalid configuration: why"
    );
    assert_eq!(
        CommandError::InvalidCommand("x".to_string()).message(),
        "Unknown subcommand: x"
    );
    assert_eq!(
        CommandError::InvalidArgument("why".to_string()).message(),
        "Invalid argument: why"
    );
    assert_eq!(
        CommandError::MissingSubcommand("repo".to_string()).message(),
        "Missing subcommand: repo"
    );
    assert_eq!(
        CommandError::InvalidConfiguration("why".to_string()).message(),
        "Invalid configuration: why"
    );
    assert_eq!(
        RunError::App(AppError::MissingCommand).message(),
        "No command provided"
    );
    assert_eq!(
        RunError::Command(CommandError::MissingSubcommand("repo".to_string())).message(),
        "Missing subcommand: repo"
    );
    assert_eq!(RunError::Action("boom".to_string()).message(), "boom");
}
