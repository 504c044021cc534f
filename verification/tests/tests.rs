use flex::app::App;
use flex::args::arg::Arg;
use flex::args::command::{Command, Flex, FlexCommand};

#[test]
fn test_new_app() {
    let app = App::new("test cli");

    assert!(
        app == App {
            name: "test cli".to_string(),
            ..Default::default()
        }
    )
}

#[test]
fn test_new_app_failed() {
    let app = App::new("failed cli");

    assert!(
        app != App {
            name: "test cli".to_string(),
            ..Default::default()
        }
    )
}

#[test]
fn test_add_command_with_new() {
    let app = App::new("test cli");

    let init_cmd = Command::default("init");

    let app = app.add_command(init_cmd);

    assert!(app.commands.contains(&Command::Default {
        name: "init".to_string(),
    }))
}

#[test]
fn test_add_command_with_from() {
    let app = App::new("test cli").add_command(Command::flex(FlexCommand {
        name: "init".to_string(),
        short_description: Some("command to init cli".to_string()),
        ..Default::default()
    }));

    let another_command = Command::flex(FlexCommand {
        name: "another-command".to_string(),
        ..Default::default()
    });

    let app = app.add_command(another_command);

    assert!(
        app.commands
            == vec![
                Command::flex(FlexCommand {
                    name: "init".to_string(),
                    short_description: Some("command to init cli".to_string()),
                    ..Default::default()
                }),
                Command::flex(FlexCommand {
                    name: "another-command".to_string(),
                    ..Default::default()
                })
            ]
    )
}

#[test]
fn test_add_properties_to_command() {
    let test = Command::flex(FlexCommand {
        name: "test".to_string(),
        short_description: Some("test command description".to_string()),
        ..Default::default()
    })
    .subcommand(Command::flex(FlexCommand {
        name: "sub-test".to_string(),
        ..Default::default()
    }));

    assert!(
        test == Command::flex(FlexCommand {
            name: "test".to_string(),
            short_description: Some("test command description".to_string()),
            sub_commands: vec![Command::flex(FlexCommand {
                name: "sub-test".to_string(),
                ..Default::default()
            })],
            ..Default::default()
        })
    );

    let test = Command::default("test").arg(Arg::new("arg-test"));

    assert!(
        test == Command::flex(FlexCommand {
            name: "test".to_string(),
            args: vec![Arg {
                name: "arg-test".to_string(),
                desc: String::new(),
                required: false
            }],
            ..Default::default()
        })
    );

    let test = Command::default("test").description("short description", "long description");

    assert!(
        test == Command::flex(FlexCommand {
            name: "test".to_string(),
            short_description: Some("short description".to_string()),
            long_description: Some("long description".to_string()),
            ..Default::default()
        })
    )
}

#[test]
fn test_err_unknown_command() {
    let args = vec!["not-test".to_string(), "something".to_string()];

    let app = App::new("test-app").add_command(Command::default("test"));

    let binding = app.run(&args);
    let app = binding.as_ref();

    assert!(app.is_err());
    assert_eq!(
        app.expect_err("Expected an error, why not!").message(),
        "Unknown Command Provided: not-test"
    );
}

#[test]
fn test_err_not_provided_command() {
    let args = vec![];

    let app = App::new("test-app").add_command(Command::default("test"));

    let binding = app.run(&args);
    let app = binding.as_ref();

    assert!(app.is_err());
    assert_eq!(
        app.expect_err("Expected an error, why not!").message(),
        "Invalid configuration: No help command defined. Add with `.help()`"
    );
}

#[test]
fn test_good_result() {
    let app = App::new("test-app").add_command(
        Command::default("test").action(|_args: &[String]| -> Result<String, String> { Ok("done".to_string()) }),
    );

    let outcome = app.run(&["test".to_string()]);

    assert_eq!(outcome, Ok("done".to_string()));
}
