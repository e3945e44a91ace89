//! The arguments that the command line takes.

use vstd::prelude::*;

use crate::cli::Cli;

verus! {

// What the help says of the arguments and of the commands: in one line, and at length.

pub const FILE_HELP: &'static str = "Generate a file instead of printing to stdout";

pub const FILE_HELP_LONG: &'static str = "Generate a file instead of printing to stdout\n\nOptionally provide a path for the file, if no path is provided the file will be placed in the current working directory.\n\nIf not provided, the name of the generated file will be taken from, the `name` parameter for volumes and networks, the filename of the kube file, the container name, or the name of the container image.";

pub const UNIT_DIRECTORY_HELP: &'static str = "Generate a file in the podman unit directory instead of printing to stdout";

pub const UNIT_DIRECTORY_HELP_LONG: &'static str = "Generate a file in the podman unit directory instead of printing to stdout\n\nConflicts with the --file option\n\nEquivalent to `--file $XDG_CONFIG_HOME/containers/systemd/` for non-root users, or `--file /etc/containers/systemd/` for root.\n\nThe name of the file can be specified with the --name option.";

pub const NAME_HELP: &'static str = "Override the name of the generated file (without the extension)";

pub const NAME_HELP_LONG: &'static str = "Override the name of the generated file (without the extension)\n\nThis only applies if a file was not given to the --file option, or the --unit-directory option was used.\n\nE.g. `podlet --file --name hello-world podman run quay.io/podman/hello` will generate a file with the name \"hello-world.container\".";

pub const OVERWRITE_HELP: &'static str = "Overwrite existing files when generating a file";

pub const OVERWRITE_HELP_LONG: &'static str = "Overwrite existing files when generating a file\n\nBy default, podlet will return an error if a file already exists at the given location.";

pub const SKIP_SERVICES_CHECK_HELP: &'static str = "Skip the check for existing services of the same name";

pub const SKIP_SERVICES_CHECK_HELP_LONG: &'static str = "Skip the check for existing services of the same name\n\nBy default, podlet will check for existing services with the same name as the service quadlet will generate from the generated quadlet file and return an error if a conflict is found. This option will cause podlet to skip that check.";

pub const POD_HELP: &'static str = "Create a Kubernetes YAML file for a pod instead of separate containers";

pub const POD_HELP_LONG: &'static str = "Create a Kubernetes YAML file for a pod instead of separate containers\n\nA `.kube` file using the generated Kubernetes YAML file will also be created.";

pub const COMPOSE_FILE_HELP: &'static str = "The compose file to convert";

pub const COMPOSE_FILE_HELP_LONG: &'static str = "The compose file to convert\n\nIf `-` or not provided and stdin is not a terminal, the compose file will be read from stdin.\n\nIf not provided, and stdin is a terminal, podlet will look for (in order) `compose.yaml`, `compose.yml`, `docker-compose.yaml`, and `docker-compose.yml`, in the current working directory.";

pub const COMPOSE_ABOUT: &'static str = "Generate podman quadlet files from a compose file";

pub const COMPOSE_ABOUT_LONG: &'static str = "Generate podman quadlet files from a compose file\n\nCreates a `.container` file for each service, a `.volume` file for each volume, and a `.network` file for each network.\n\nThe `--file` option must be a directory if used.\n\nSome compose options are not supported, such as `build`.\n\nWhen podlet encounters an unsupported option, an error will be returned. Modify the compose file to resolve the error.";

pub const RUN_ABOUT: &'static str = "Generate a podman quadlet `.container` file";

pub const RUN_ABOUT_LONG: &'static str = "Generate a podman quadlet `.container` file\n\nFor details on options see: https://docs.podman.io/en/latest/markdown/podman-systemd.unit.5.html";

pub const KUBE_ABOUT: &'static str = "Generate a podman quadlet `.kube` file";

pub const KUBE_ABOUT_LONG: &'static str = "Generate a podman quadlet `.kube` file\n\nFor details on options see: https://docs.podman.io/en/latest/markdown/podman-kube-play.1.html";

pub const NETWORK_ABOUT: &'static str = "Generate a podman quadlet `.network` file";

pub const NETWORK_ABOUT_LONG: &'static str = "Generate a podman quadlet `.network` file\n\nFor details on options see: https://docs.podman.io/en/latest/markdown/podman-network-create.1.html";

pub const VOLUME_ABOUT: &'static str = "Generate a podman quadlet `.volume` file";

pub const VOLUME_ABOUT_LONG: &'static str = "Generate a podman quadlet `.volume` file\n\nFor details on options see: https://docs.podman.io/en/latest/markdown/podman-volume-create.1.html";

/// How many values an argument takes.
#[derive(Debug, Clone, Copy, PartialEq, Eq, Structural)]
pub enum Values {
    /// None.
    Flag,
    /// One, which may be left out.
    Optional,
    /// One.
    One,
}

/// An argument. One without a long name goes by its place.
#[derive(Debug, Clone, Copy)]
pub struct Argument {
    pub id: &'static str,
    pub short: Option<char>,
    pub long: Option<&'static str>,
    /// Another long name, which the help shows.
    pub visible_alias: Option<&'static str>,
    /// Another long name, which the help does not show.
    pub alias: Option<&'static str>,
    /// The group that the argument belongs to.
    pub group: Option<&'static str>,
    /// The argument that it cannot be used together with.
    pub conflicts_with: Option<&'static str>,
    /// The argument or the group that it cannot be used without.
    pub requires: Option<&'static str>,
    pub values: Values,
    /// Whether the value is a path. Otherwise it is text.
    pub is_path: bool,
    pub help: &'static str,
    pub long_help: &'static str,
}

/// A command below another one.
#[derive(Debug, Clone, Copy)]
pub struct Leaf {
    pub name: &'static str,
    pub about: &'static str,
    pub long_about: &'static str,
}

/// A command.
#[derive(Debug)]
pub struct Subcommand {
    pub name: &'static str,
    pub about: &'static str,
    pub long_about: Option<&'static str>,
    pub arguments: Vec<Argument>,
    /// The commands below it. One of them has to be used where there are any.
    pub subcommands: Vec<Leaf>,
}

/// The whole command line. One of the commands has to be used.
#[derive(Debug)]
pub struct CommandLine {
    pub name: &'static str,
    pub arguments: Vec<Argument>,
    pub subcommands: Vec<Subcommand>,
    /// Whether a command ends an argument that would take more values.
    pub subcommand_precedence_over_arg: bool,
}

/// The arguments that stand before the command.
pub open spec fn leading_arguments() -> Seq<Argument> {
    seq![
        Argument {
            id: "file",
            short: Some('f'),
            long: Some("file"),
            visible_alias: None,
            alias: None,
            group: Some("file_out"),
            conflicts_with: None,
            requires: None,
            values: Values::Optional,
            is_path: true,
            help: FILE_HELP,
            long_help: FILE_HELP_LONG,
        },
        Argument {
            id: "unit_directory",
            short: Some('u'),
            long: Some("unit-directory"),
            visible_alias: Some("unit-dir"),
            alias: None,
            group: Some("file_out"),
            conflicts_with: Some("file"),
            requires: None,
            values: Values::Flag,
            is_path: false,
            help: UNIT_DIRECTORY_HELP,
            long_help: UNIT_DIRECTORY_HELP_LONG,
        },
        Argument {
            id: "name",
            short: Some('n'),
            long: Some("name"),
            visible_alias: None,
            alias: None,
            group: None,
            conflicts_with: None,
            requires: Some("file_out"),
            values: Values::One,
            is_path: false,
            help: NAME_HELP,
            long_help: NAME_HELP_LONG,
        },
        Argument {
            id: "overwrite",
            short: None,
            long: Some("overwrite"),
            visible_alias: None,
            alias: Some("override"),
            group: None,
            conflicts_with: None,
            requires: Some("file_out"),
            values: Values::Flag,
            is_path: false,
            help: OVERWRITE_HELP,
            long_help: OVERWRITE_HELP_LONG,
        },
        Argument {
            id: "skip_services_check",
            short: None,
            long: Some("skip-services-check"),
            visible_alias: None,
            alias: None,
            group: None,
            conflicts_with: None,
            requires: Some("file_out"),
            values: Values::Flag,
            is_path: false,
            help: SKIP_SERVICES_CHECK_HELP,
            long_help: SKIP_SERVICES_CHECK_HELP_LONG,
        },
    ]
}

/// The arguments of the command that takes a compose file.
pub open spec fn compose_arguments() -> Seq<Argument> {
    seq![
        Argument {
            id: "pod",
            short: None,
            long: Some("pod"),
            visible_alias: None,
            alias: None,
            group: None,
            conflicts_with: None,
            requires: None,
            values: Values::One,
            is_path: false,
            help: POD_HELP,
            long_help: POD_HELP_LONG,
        },
        Argument {
            id: "compose_file",
            short: None,
            long: None,
            visible_alias: None,
            alias: None,
            group: None,
            conflicts_with: None,
            requires: None,
            values: Values::One,
            is_path: true,
            help: COMPOSE_FILE_HELP,
            long_help: COMPOSE_FILE_HELP_LONG,
        },
    ]
}

/// The commands below `podman`.
pub open spec fn podman_subcommands() -> Seq<Leaf> {
    seq![
        Leaf { name: "run", about: RUN_ABOUT, long_about: RUN_ABOUT_LONG },
        Leaf { name: "kube", about: KUBE_ABOUT, long_about: KUBE_ABOUT_LONG },
        Leaf { name: "network", about: NETWORK_ABOUT, long_about: NETWORK_ABOUT_LONG },
        Leaf { name: "volume", about: VOLUME_ABOUT, long_about: VOLUME_ABOUT_LONG },
    ]
}

impl Cli {
    /// The command line, without the settings of the sections and of the podman commands.
    pub fn command() -> (r: CommandLine)
        ensures
            r.name == "podlet",
            r.arguments@ == leading_arguments(),
            r.subcommand_precedence_over_arg,
            r.subcommands@.len() == 2,
            r.subcommands@[0].name == "podman",
            r.subcommands@[0].about == "Generate a podman quadlet file from a podman command",
            r.subcommands@[0].long_about is None,
            r.subcommands@[0].arguments@.len() == 0,
            r.subcommands@[0].subcommands@ == podman_subcommands(),
            r.subcommands@[1].name == "compose",
            r.subcommands@[1].about == COMPOSE_ABOUT,
            r.subcommands@[1].long_about == Some(COMPOSE_ABOUT_LONG),
            r.subcommands@[1].arguments@ == compose_arguments(),
            r.subcommands@[1].subcommands@.len() == 0,
    {
        let arguments = vec![
            Argument {
                id: "file",
                short: Some('f'),
                long: Some("file"),
                visible_alias: None,
                alias: None,
                group: Some("file_out"),
                conflicts_with: None,
                requires: None,
                values: Values::Optional,
                is_path: true,
                help: FILE_HELP,
                long_help: FILE_HELP_LONG,
            },
            Argument {
                id: "unit_directory",
                short: Some('u'),
                long: Some("unit-directory"),
                visible_alias: Some("unit-dir"),
                alias: None,
                group: Some("file_out"),
                conflicts_with: Some("file"),
                requires: None,
                values: Values::Flag,
                is_path: false,
                help: UNIT_DIRECTORY_HELP,
                long_help: UNIT_DIRECTORY_HELP_LONG,
            },
            Argument {
                id: "name",
                short: Some('n'),
                long: Some("name"),
                visible_alias: None,
                alias: None,
                group: None,
                conflicts_with: None,
                requires: Some("file_out"),
                values: Values::One,
                is_path: false,
                help: NAME_HELP,
                long_help: NAME_HELP_LONG,
            },
            Argument {
                id: "overwrite",
                short: None,
                long: Some("overwrite"),
                visible_alias: None,
                alias: Some("override"),
                group: None,
                conflicts_with: None,
                requires: Some("file_out"),
                values: Values::Flag,
                is_path: false,
                help: OVERWRITE_HELP,
                long_help: OVERWRITE_HELP_LONG,
            },
            Argument {
                id: "skip_services_check",
                short: None,
                long: Some("skip-services-check"),
                visible_alias: None,
                alias: None,
                group: None,
                conflicts_with: None,
                requires: Some("file_out"),
                values: Values::Flag,
                is_path: false,
                help: SKIP_SERVICES_CHECK_HELP,
                long_help: SKIP_SERVICES_CHECK_HELP_LONG,
            },
        ];
        let compose_arguments = vec![
            Argument {
                id: "pod",
                short: None,
                long: Some("pod"),
                visible_alias: None,
                alias: None,
                group: None,
                conflicts_with: None,
                requires: None,
                values: Values::One,
                is_path: false,
                help: POD_HELP,
                long_help: POD_HELP_LONG,
            },
            Argument {
                id: "compose_file",
                short: None,
                long: None,
                visible_alias: None,
                alias: None,
                group: None,
                conflicts_with: None,
                requires: None,
                values: Values::One,
                is_path: true,
                help: COMPOSE_FILE_HELP,
                long_help: COMPOSE_FILE_HELP_LONG,
            },
        ];
        let podman = Subcommand {
            name: "podman",
            about: "Generate a podman quadlet file from a podman command",
            long_about: None,
            arguments: Vec::new(),
            subcommands: vec![
                Leaf { name: "run", about: RUN_ABOUT, long_about: RUN_ABOUT_LONG },
                Leaf { name: "kube", about: KUBE_ABOUT, long_about: KUBE_ABOUT_LONG },
                Leaf { name: "network", about: NETWORK_ABOUT, long_about: NETWORK_ABOUT_LONG },
                Leaf { name: "volume", about: VOLUME_ABOUT, long_about: VOLUME_ABOUT_LONG },
            ],
        };
        let compose = Subcommand {
            name: "compose",
            about: COMPOSE_ABOUT,
            long_about: Some(COMPOSE_ABOUT_LONG),
            arguments: compose_arguments,
            subcommands: Vec::new(),
        };
        CommandLine {
            name: "podlet",
            arguments,
            subcommands: vec![podman, compose],
            subcommand_precedence_over_arg: true,
        }
    }
}

/// `name` is one of the long names of `argument`.
pub open spec fn has_long_name(argument: Argument, name: Seq<char>) -> bool {
    ||| argument.long matches Some(long) && long@ == name
    ||| argument.visible_alias matches Some(alias) && alias@ == name
    ||| argument.alias matches Some(alias) && alias@ == name
}

/// The two arguments can be told apart: by what they are known by in the program, by their short
/// names and by all of their long names.
pub open spec fn can_be_told_apart(a: Argument, b: Argument) -> bool {
    &&& a.id@ != b.id@
    &&& a.short is Some ==> a.short != b.short
    &&& forall|name: Seq<char>|
        !(#[trigger] has_long_name(a, name) && has_long_name(b, name))
}

/// `name` is an argument or a group of arguments.
pub open spec fn is_known(arguments: Seq<Argument>, name: Seq<char>) -> bool {
    exists|k: int|
        0 <= k < arguments.len() && ((#[trigger] arguments[k]).id@ == name || (
        arguments[k].group matches Some(group) && group@ == name))
}

/// The arguments can be told apart, no group is called like an argument, and what an argument
/// needs or cannot stand exists.
pub open spec fn is_consistent(arguments: Seq<Argument>) -> bool {
    &&& forall|i: int, j: int|
        0 <= i < j < arguments.len() ==> can_be_told_apart(
            #[trigger] arguments[i],
            #[trigger] arguments[j],
        )
    &&& forall|i: int, j: int|
        0 <= i < arguments.len() && 0 <= j < arguments.len() ==> ((
        #[trigger] arguments[i]).group matches Some(group) ==> group@ != (
        #[trigger] arguments[j]).id@)
    &&& forall|i: int|
        0 <= i < arguments.len() ==> {
            &&& (#[trigger] arguments[i]).requires matches Some(name) ==> is_known(
                arguments,
                name@,
            )
            &&& arguments[i].conflicts_with matches Some(name) ==> is_known(arguments, name@)
                && name@ != arguments[i].id@
        }
}

/// Law: the arguments of the command line are consistent, before the command and behind it.
pub proof fn arguments_are_consistent()
    ensures
        is_consistent(leading_arguments()),
        is_consistent(compose_arguments()),
{
    reveal_strlit("file");
    assert("file"@.len() == 4);
    reveal_strlit("unit_directory");
    assert("unit_directory"@.len() == 14);
    reveal_strlit("unit-directory");
    assert("unit-directory"@.len() == 14);
    reveal_strlit("unit-dir");
    assert("unit-dir"@.len() == 8);
    reveal_strlit("name");
    assert("name"@.len() == 4);
    reveal_strlit("overwrite");
    assert("overwrite"@.len() == 9);
    reveal_strlit("override");
    assert("override"@.len() == 8);
    reveal_strlit("skip_services_check");
    assert("skip_services_check"@.len() == 19);
    reveal_strlit("skip-services-check");
    assert("skip-services-check"@.len() == 19);
    reveal_strlit("file_out");
    assert("file_out"@.len() == 8);
    reveal_strlit("pod");
    assert("pod"@.len() == 3);
    reveal_strlit("compose_file");
    assert("compose_file"@.len() == 12);
    assert("file"@[0] != "name"@[0]);
    assert("unit-dir"@[0] != "override"@[0]);
    let leading = leading_arguments();
    assert(leading[0].group == Some("file_out"));
    assert(leading[0].id == "file");
    assert(is_known(leading, "file_out"@));
    assert(is_known(leading, "file"@));
}

/// Law: the commands have different names.
pub proof fn commands_have_different_names()
    ensures
        "podman"@ != "compose"@,
        forall|i: int, j: int|
            0 <= i < j < podman_subcommands().len() ==> (#[trigger] podman_subcommands()[i]).name@ != (
            #[trigger] podman_subcommands()[j]).name@,
{
    reveal_strlit("podman");
    assert("podman"@.len() == 6);
    reveal_strlit("compose");
    assert("compose"@.len() == 7);
    reveal_strlit("run");
    assert("run"@.len() == 3);
    reveal_strlit("kube");
    assert("kube"@.len() == 4);
    reveal_strlit("network");
    assert("network"@.len() == 7);
    reveal_strlit("volume");
    assert("volume"@.len() == 6);
}

} // verus!
