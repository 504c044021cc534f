use flex::app::App;
use flex::args::arg::Arg;
use flex::args::command::{Command, Flex};
use flex::args::flag::Flag;
use flex::args::help::{render_app_page, render_command_page};

fn words(items: &[&str]) -> Vec<String> {
    items.iter().map(|s| s.to_string()).collect()
}

#[test]
fn command_page_lists_subcommands_arguments_and_flags() {
    let cmd = Command::default("repo")
        .description("manage repositories", "")
        .subcommand(Command::default("add").description("add repository path to track", ""))
        .subcommand(Command::default("remove"))
        .arg(Arg::new("path").required())
        .arg(Arg::new("label"))
        .flag(Flag::new("all").short("a").description("include all repositories"))
        .help();
    let expected = "Usage: flex repo <subcommand> [<args>]\n\
manage repositories\n\
\n\
Available Subcommands:\n\
\x20 add              add repository path to track\n\
\x20 remove           \n\
\n\
Arguments:\n\
\x20 path             (required)\n\
\x20 label            (optional)\n\
\n\
Flags:\n\
\x20 --all            -a       include all repositories";
    assert_eq!(cmd.run(&[]), Ok(expected.to_string()));
    assert_eq!(cmd.run(&words(&["help"])), Ok(expected.to_string()));
    assert_eq!(cmd.run(&words(&["help", "ignored"])), Ok(expected.to_string()));
}

#[test]
fn command_page_is_laid_out_as_the_formatter_does() {
    let mut expected = format!("Usage: {} {} <subcommand> [<args>]\n", "flex", "add");
    expected.push_str(&format!("{}\n\n", "add repository path to track"));
    expected.push_str("Available Subcommands:\n");
    expected.push_str("\nArguments:\n");
    expected.push_str(&format!("  {:<16} {}\n", "path", "(required)"));
    expected.push_str("\nFlags:\n");
    expected.push_str(&format!(
        "  --{:<14} -{:<7} {}\n",
        "all", "a", "include all repositories"
    ));
    let expected = expected.trim().to_string();

    let page = render_command_page(
        "add",
        "add repository path to track",
        &Vec::new(),
        &vec![Arg::new("path").description("local repository path").required()],
        &vec![Flag::new("all").short("a").description("include all repositories")],
    );
    assert_eq!(page, expected);
}

#[test]
fn command_page_of_a_bare_command() {
    let cmd = Command::default("start").help();
    assert_eq!(
        cmd.run(&[]),
        Ok("Usage: flex start <subcommand> [<args>]\nAvailable Subcommands:".to_string())
    );
}

#[test]
fn command_page_keeps_long_names_whole() {
    let page = render_command_page(
        "x",
        "",
        &vec![Command::default("a-name-longer-than-the-column").description("d", "")],
        &Vec::new(),
        &vec![Flag::new("a-flag-longer-than-its-column").short("long-short").description("d")],
    );
    let expected = format!(
        "Usage: flex x <subcommand> [<args>]\nAvailable Subcommands:\n  {:<16} {}\n\nFlags:\n  --{:<14} -{:<7} {}",
        "a-name-longer-than-the-column", "d", "a-flag-longer-than-its-column", "long-short", "d"
    );
    assert_eq!(page, expected);
}

#[test]
fn help_is_a_snapshot_of_the_command() {
    let cmd = Command::default("repo")
        .subcommand(Command::default("before"))
        .arg(Arg::new("early"))
        .flag(Flag::new("first"))
        .help()
        .subcommand(Command::default("after"))
        .arg(Arg::new("late"))
        .flag(Flag::new("second"));
    let page = cmd.run(&[]).unwrap();
    assert!(page.contains("before"));
    assert!(page.contains("early"));
    assert!(page.contains("--first"));
    assert!(!page.contains("after"));
    assert!(!page.contains("late"));
    assert!(!page.contains("second"));
    assert!(!page.contains("help"));

    let same = Command::default("repo")
        .subcommand(Command::default("before"))
        .arg(Arg::new("early"))
        .flag(Flag::new("first"))
        .help();
    assert_eq!(same.run(&[]).unwrap(), page);
}

#[test]
fn a_second_help_lists_the_first() {
    let cmd = Command::default("repo").help().subcommand(Command::default("add")).help();
    assert_eq!(
        cmd.run(&[]),
        Ok("Usage: flex repo <subcommand> [<args>]\nAvailable Subcommands:".to_string())
    );
    let subs = cmd.get_available_cmds();
    assert_eq!(subs.len(), 3);
    assert_eq!(subs[0].get_cmd_name(), "help");
    assert_eq!(subs[2].get_cmd_name(), "help");
}

#[test]
fn application_page_lists_the_commands() {
    let app = App::new("flex")
        .about("Flexing CLI tool")
        .add_commands(vec![
            Command::default("init"),
            Command::default("stop").description("Stop command", ""),
        ])
        .help();
    let expected = "Usage: flex <command> [<args>]\n\
Flexing CLI tool\n\
\n\
Available Commands:\n\
\x20 init             \n\
\x20 stop             Stop command";
    assert_eq!(app.run(&[]), Ok(expected.to_string()));
    assert_eq!(app.run(&words(&["help"])), Ok(expected.to_string()));
}

#[test]
fn application_page_without_description_or_commands() {
    let app = App::new("tool").help();
    assert_eq!(app.run(&[]), Ok("Usage: tool <command> [<args>]".to_string()));
    assert_eq!(render_app_page("tool", "", &Vec::new()), "Usage: tool <command> [<args>]");
}

#[test]
fn application_page_is_laid_out_as_the_formatter_does() {
    let mut expected = format!("Usage: {} <command> [<args>]\n", "flex");
    expected.push_str(&format!("{}\n\n", "about it\nin two lines "));
    expected.push_str("Available Commands:\n");
    expected.push_str(&format!("  {:<16} {}\n", "init", ""));
    expected.push_str(&format!("  {:<16} {}\n", "validate", "Validate command description"));
    let expected = expected.trim().to_string();
    let page = render_app_page(
        "flex",
        "about it\nin two lines ",
        &vec![
            Command::default("init"),
            Command::default("validate").description("Validate command description", "the long one"),
        ],
    );
    assert_eq!(page, expected);
}

#[test]
fn application_help_is_a_snapshot() {
    let app = App::new("flex")
        .add_command(Command::default("before"))
        .help()
        .add_command(Command::default("after"))
        .about("said later");
    let page = app.run(&[]).unwrap();
    assert!(page.contains("before"));
    assert!(!page.contains("after"));
    assert!(!page.contains("said later"));
    assert_eq!(app.run(&words(&["after"])).is_ok(), true);
}
