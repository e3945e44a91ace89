//! Laws on the arguments of the command line.

use vstd::prelude::*;

use crate::cli::Cli;
use crate::command::{Argument, CommandLine, Values};

verus! {

/// The long name is the name that an argument is known by, with dashes in it.
pub open spec fn is_dashed(id: Seq<char>, long: Seq<char>) -> bool {
    id.len() == long.len() && forall|k: int|
        0 <= k < id.len() ==> #[trigger] long[k] == (if id[k] == '_' {
            '-'
        } else {
            id[k]
        })
}

/// The argument asks for files to be generated.
pub open spec fn asks_for_files(argument: Argument) -> bool {
    argument.id@ == "file"@ || argument.id@ == "unit_directory"@
}

/// Law: the arguments before the command are `file`, `unit_directory`, `name`, `overwrite` and
/// `skip_services_check`. All have the long name that goes with that, and a short name is its first
/// letter.
pub proof fn leading_arguments_are_named(r: CommandLine)
    requires
        call_ensures(Cli::command, (), r),
    ensures
        r.arguments@.len() == 5,
        r.arguments@[0].id@ == "file"@,
        r.arguments@[1].id@ == "unit_directory"@,
        r.arguments@[2].id@ == "name"@,
        r.arguments@[3].id@ == "overwrite"@,
        r.arguments@[4].id@ == "skip_services_check"@,
        forall|i: int|
            0 <= i < 5 ==> {
                &&& (#[trigger] r.arguments@[i]).long matches Some(long)
                &&& is_dashed(r.arguments@[i].id@, long@)
                &&& r.arguments@[i].short is Some <==> i < 3
                &&& r.arguments@[i].short matches Some(short) ==> short == r.arguments@[i].id@[0]
            },
        r.arguments@[1].visible_alias matches Some(alias) && alias@ == "unit-dir"@,
        r.arguments@[3].alias matches Some(alias) && alias@ == "override"@,
{
    reveal_strlit("file");
    reveal_strlit("unit_directory");
    reveal_strlit("unit-directory");
    reveal_strlit("name");
    reveal_strlit("overwrite");
    reveal_strlit("skip_services_check");
    reveal_strlit("skip-services-check");
    assert(r.arguments@[0].long == Some("file"));
    assert(r.arguments@[1].long == Some("unit-directory"));
    assert(r.arguments@[2].long == Some("name"));
    assert(r.arguments@[3].long == Some("overwrite"));
    assert(r.arguments@[4].long == Some("skip-services-check"));
    assert(is_dashed("file"@, "file"@));
    assert(is_dashed("unit_directory"@, "unit-directory"@));
    assert(is_dashed("name"@, "name"@));
    assert(is_dashed("overwrite"@, "overwrite"@));
    assert(is_dashed("skip_services_check"@, "skip-services-check"@));
    assert(r.arguments@[0].id == "file");
    assert(r.arguments@[1].id == "unit_directory");
    assert(r.arguments@[2].id == "name");
    assert(r.arguments@[3].id == "overwrite");
    assert(r.arguments@[4].id == "skip_services_check");
}

/// Law: an argument asks for files, or it cannot be used without one that does. The two that do
/// cannot be used together.
pub proof fn arguments_need_files(r: CommandLine, i: int)
    requires
        call_ensures(Cli::command, (), r),
        0 <= i < r.arguments@.len(),
    ensures
        asks_for_files(r.arguments@[i]) ==> {
            &&& r.arguments@[i].group matches Some(group) && group@ == "file_out"@
            &&& r.arguments@[i].requires is None
        },
        !asks_for_files(r.arguments@[i]) ==> {
            &&& r.arguments@[i].group is None
            &&& r.arguments@[i].requires matches Some(needed) && needed@ == "file_out"@
        },
        r.arguments@[i].id@ == "unit_directory"@ <==> r.arguments@[i].conflicts_with is Some,
        r.arguments@[i].conflicts_with matches Some(other) ==> other@ == "file"@,
{
    leading_arguments_are_named(r);
    reveal_strlit("file");
    assert("file"@.len() == 4);
    reveal_strlit("unit_directory");
    assert("unit_directory"@.len() == 14);
    reveal_strlit("name");
    assert("name"@.len() == 4);
    assert("name"@[0] != "file"@[0]);
    reveal_strlit("overwrite");
    assert("overwrite"@.len() == 9);
    reveal_strlit("skip_services_check");
    assert("skip_services_check"@.len() == 19);
    assert(i == 0 || i == 1 || i == 2 || i == 3 || i == 4);
}

/// Law: a file may be given with its path or without; the name takes a text; the others are flags.
pub proof fn arguments_take_their_values(r: CommandLine)
    requires
        call_ensures(Cli::command, (), r),
    ensures
        r.arguments@[0].values == Values::Optional && r.arguments@[0].is_path,
        r.arguments@[1].values == Values::Flag,
        r.arguments@[2].values == Values::One && !r.arguments@[2].is_path,
        r.arguments@[3].values == Values::Flag,
        r.arguments@[4].values == Values::Flag,
{
}

/// Law: the commands are `podman`, with `run`, `kube`, `network` and `volume` below it, and
/// `compose`, which takes the name of a pod and the path of a compose file. A command comes before a
/// value.
pub proof fn commands_are_podman_and_compose(r: CommandLine)
    requires
        call_ensures(Cli::command, (), r),
    ensures
        r.subcommand_precedence_over_arg,
        r.subcommands@.len() == 2,
        r.subcommands@[0].name@ == "podman"@,
        r.subcommands@[0].arguments@.len() == 0,
        r.subcommands@[0].subcommands@.len() == 4,
        r.subcommands@[0].subcommands@[0].name@ == "run"@,
        r.subcommands@[0].subcommands@[1].name@ == "kube"@,
        r.subcommands@[0].subcommands@[2].name@ == "network"@,
        r.subcommands@[0].subcommands@[3].name@ == "volume"@,
        r.subcommands@[1].name@ == "compose"@,
        r.subcommands@[1].subcommands@.len() == 0,
        r.subcommands@[1].arguments@.len() == 2,
        r.subcommands@[1].arguments@[0].id@ == "pod"@,
        r.subcommands@[1].arguments@[0].long matches Some(long) && long@ == "pod"@,
        r.subcommands@[1].arguments@[0].values == Values::One,
        !r.subcommands@[1].arguments@[0].is_path,
        r.subcommands@[1].arguments@[1].id@ == "compose_file"@,
        r.subcommands@[1].arguments@[1].long is None,
        r.subcommands@[1].arguments@[1].short is None,
        r.subcommands@[1].arguments@[1].values == Values::One,
        r.subcommands@[1].arguments@[1].is_path,
{
}

/// Law: the help says of each argument and of each command what it is for.
pub proof fn help_says_what_they_are_for(r: CommandLine)
    requires
        call_ensures(Cli::command, (), r),
    ensures
        r.arguments@[0].help@ == "Generate a file instead of printing to stdout"@,
        r.arguments@[0].long_help@ == "Generate a file instead of printing to stdout\n\nOptionally provide a path for the file, if no path is provided the file will be placed in the current working directory.\n\nIf not provided, the name of the generated file will be taken from, the `name` parameter for volumes and networks, the filename of the kube file, the container name, or the name of the container image."@,
        r.arguments@[1].help@ == "Generate a file in the podman unit directory instead of printing to stdout"@,
        r.arguments@[1].long_help@ == "Generate a file in the podman unit directory instead of printing to stdout\n\nConflicts with the --file option\n\nEquivalent to `--file $XDG_CONFIG_HOME/containers/systemd/` for non-root users, or `--file /etc/containers/systemd/` for root.\n\nThe name of the file can be specified with the --name option."@,
        r.arguments@[2].help@ == "Override the name of the generated file (without the extension)"@,
        r.arguments@[2].long_help@ == "Override the name of the generated file (without the extension)\n\nThis only applies if a file was not given to the --file option, or the --unit-directory option was used.\n\nE.g. `podlet --file --name hello-world podman run quay.io/podman/hello` will generate a file with the name \"hello-world.container\"."@,
        r.arguments@[3].help@ == "Overwrite existing files when generating a file"@,
        r.arguments@[3].long_help@ == "Overwrite existing files when generating a file\n\nBy default, podlet will return an error if a file already exists at the given location."@,
        r.arguments@[4].help@ == "Skip the check for existing services of the same name"@,
        r.arguments@[4].long_help@ == "Skip the check for existing services of the same name\n\nBy default, podlet will check for existing services with the same name as the service quadlet will generate from the generated quadlet file and return an error if a conflict is found. This option will cause podlet to skip that check."@,
        r.subcommands@[1].arguments@[0].help@ == "Create a Kubernetes YAML file for a pod instead of separate containers"@,
        r.subcommands@[1].arguments@[0].long_help@ == "Create a Kubernetes YAML file for a pod instead of separate containers\n\nA `.kube` file using the generated Kubernetes YAML file will also be created."@,
        r.subcommands@[1].arguments@[1].help@ == "The compose file to convert"@,
        r.subcommands@[1].arguments@[1].long_help@ == "The compose file to convert\n\nIf `-` or not provided and stdin is not a terminal, the compose file will be read from stdin.\n\nIf not provided, and stdin is a terminal, podlet will look for (in order) `compose.yaml`, `compose.yml`, `docker-compose.yaml`, and `docker-compose.yml`, in the current working directory."@,
        r.name@ == "podlet"@,
        r.subcommands@[0].about@ == "Generate a podman quadlet file from a podman command"@,
        r.subcommands@[0].long_about is None,
        r.subcommands@[1].about@ == "Generate podman quadlet files from a compose file"@,
        r.subcommands@[1].long_about matches Some(about) && about@ == "Generate podman quadlet files from a compose file\n\nCreates a `.container` file for each service, a `.volume` file for each volume, and a `.network` file for each network.\n\nThe `--file` option must be a directory if used.\n\nSome compose options are not supported, such as `build`.\n\nWhen podlet encounters an unsupported option, an error will be returned. Modify the compose file to resolve the error."@,
        r.subcommands@[0].subcommands@[0].about@ == "Generate a podman quadlet `.container` file"@,
        r.subcommands@[0].subcommands@[0].long_about@ == "Generate a podman quadlet `.container` file\n\nFor details on options see: https://docs.podman.io/en/latest/markdown/podman-systemd.unit.5.html"@,
        r.subcommands@[0].subcommands@[1].about@ == "Generate a podman quadlet `.kube` file"@,
        r.subcommands@[0].subcommands@[1].long_about@ == "Generate a podman quadlet `.kube` file\n\nFor details on options see: https://docs.podman.io/en/latest/markdown/podman-kube-play.1.html"@,
        r.subcommands@[0].subcommands@[2].about@ == "Generate a podman quadlet `.network` file"@,
        r.subcommands@[0].subcommands@[2].long_about@ == "Generate a podman quadlet `.network` file\n\nFor details on options see: https://docs.podman.io/en/latest/markdown/podman-network-create.1.html"@,
        r.subcommands@[0].subcommands@[3].about@ == "Generate a podman quadlet `.volume` file"@,
        r.subcommands@[0].subcommands@[3].long_about@ == "Generate a podman quadlet `.volume` file\n\nFor details on options see: https://docs.podman.io/en/latest/markdown/podman-volume-create.1.html"@,
{
}

} // verus!
