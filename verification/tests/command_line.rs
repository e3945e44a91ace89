use clap::builder::ValueParser;
use clap::{Arg, ArgAction, ArgMatches, Command};
use podlet::cli::Cli;
use podlet::command::{Argument, CommandLine, Values};

fn argument(described: &Argument) -> Arg {
    let mut arg = Arg::new(described.id)
        .help(described.help)
        .long_help(described.long_help);
    arg = match described.values {
        Values::Flag => arg.action(ArgAction::SetTrue),
        Values::Optional => arg.action(ArgAction::Set).num_args(0..=1),
        Values::One => arg.action(ArgAction::Set),
    };
    if described.is_path {
        arg = arg.value_parser(ValueParser::path_buf());
    }
    if let Some(short) = described.short {
        arg = arg.short(short);
    }
    if let Some(long) = described.long {
        arg = arg.long(long);
    }
    if let Some(alias) = described.visible_alias {
        arg = arg.visible_alias(alias);
    }
    if let Some(alias) = described.alias {
        arg = arg.alias(alias);
    }
    if let Some(group) = described.group {
        arg = arg.group(group);
    }
    if let Some(other) = described.conflicts_with {
        arg = arg.conflicts_with(other);
    }
    if let Some(other) = described.requires {
        arg = arg.requires(other);
    }
    arg
}

fn command(line: &CommandLine) -> Command {
    let mut command = Command::new(line.name)
        .args(line.arguments.iter().map(argument))
        .subcommand_precedence_over_arg(line.subcommand_precedence_over_arg)
        .subcommand_required(true);
    for described in &line.subcommands {
        let mut subcommand = Command::new(described.name)
            .about(described.about)
            .long_about(described.long_about.unwrap_or(described.about))
            .args(described.arguments.iter().map(argument))
            .subcommand_required(!described.subcommands.is_empty());
        for leaf in &described.subcommands {
            subcommand = subcommand.subcommand(
                Command::new(leaf.name)
                    .about(leaf.about)
                    .long_about(leaf.long_about),
            );
        }
        command = command.subcommand(subcommand);
    }
    command
}

#[test]
fn verify_cli() {
    command(&Cli::command()).debug_assert();
}

fn parse(arguments: &[&str]) -> Result<ArgMatches, clap::Error> {
    command(&Cli::command()).try_get_matches_from(arguments)
}

fn path(matches: &ArgMatches, id: &str) -> Option<String> {
    matches
        .get_one::<std::path::PathBuf>(id)
        .map(|path| path.display().to_string())
}

#[test]
fn a_file_can_be_asked_for_without_a_path() {
    let matches = parse(&["podlet", "--file", "--name", "hello-world", "podman", "run"]).unwrap();
    assert!(matches.contains_id("file"));
    assert_eq!(path(&matches, "file"), None);
    assert_eq!(
        matches.get_one::<String>("name").map(String::as_str),
        Some("hello-world")
    );
    let matches = parse(&["podlet", "-f", "podman", "run"]).unwrap();
    assert_eq!(path(&matches, "file"), None);
    assert_eq!(matches.subcommand_name(), Some("podman"));
    let matches = parse(&["podlet", "-f", "here", "podman", "run"]).unwrap();
    assert_eq!(path(&matches, "file").as_deref(), Some("here"));
}

#[test]
fn a_name_needs_a_file() {
    for argument in ["--name=a", "--overwrite", "--override", "--skip-services-check"] {
        assert!(parse(&["podlet", argument, "compose"]).is_err());
        assert!(parse(&["podlet", "-u", argument, "compose"]).is_ok());
        assert!(parse(&["podlet", "--unit-dir", argument, "compose"]).is_ok());
        assert!(parse(&["podlet", "--file=x", argument, "compose"]).is_ok());
    }
}

#[test]
fn the_unit_directory_takes_the_place_of_a_file() {
    assert!(parse(&["podlet", "-u", "-f", "x", "compose"]).is_err());
}

#[test]
fn a_compose_file_can_be_given() {
    let matches = parse(&["podlet", "compose", "--pod", "web", "my.yaml"]).unwrap();
    let (name, matches) = matches.subcommand().unwrap();
    assert_eq!(name, "compose");
    assert_eq!(
        matches.get_one::<String>("pod").map(String::as_str),
        Some("web")
    );
    assert_eq!(path(matches, "compose_file").as_deref(), Some("my.yaml"));
}

#[test]
fn a_command_has_to_be_used() {
    assert!(parse(&["podlet"]).is_err());
    assert!(parse(&["podlet", "podman"]).is_err());
    for name in ["run", "kube", "network", "volume"] {
        assert!(parse(&["podlet", "podman", name]).is_ok());
    }
}
